use tempfile::TempDir;
use voice_controllm::config::SpeechModel;
use voice_controllm::models::{
    check_downloaded, check_existing, plan_download, plan_response, speech_model_to_model_id,
    DownloadStart, ExistingModel, ModelId, ModelManager, ResponsePlan, SizeMismatch,
};


#[test]
fn models_test_model_info() {
    let info = ModelId::SileroVad.info();
    assert_eq!(info.filename, "silero_vad.onnx");
    assert!(info.url.contains("silero"));
}

#[test]
fn models_test_test_model_info() {
    let info = ModelId::SileroVad.info();
    assert_eq!(info.filename, "silero_vad.onnx");
    assert!(info.url.contains("silero"));
}

#[test]
fn models_test_model_manager_custom_dir() {
    let temp = TempDir::new().unwrap();
    let manager = ModelManager::with_dir(temp.path().to_path_buf());
    assert_eq!(manager.models_dir(), temp.path());
}

#[test]
fn models_test_test_model_manager_custom_dir() {
    let temp = TempDir::new().unwrap();
    let manager = ModelManager::with_dir(temp.path().to_path_buf());
    assert_eq!(manager.models_dir(), temp.path());
}

#[test]
fn models_test_model_path_construction() {
    let temp = TempDir::new().unwrap();
    let manager = ModelManager::with_dir(temp.path().to_path_buf());
    let expected_path = temp.path().join("silero_vad.onnx");
    assert!(!expected_path.exists());
    assert_eq!(manager.model_path(ModelId::SileroVad), expected_path);
}

#[test]
fn models_test_test_model_path_construction() {
    let temp = TempDir::new().unwrap();
    let _manager = ModelManager::with_dir(temp.path().to_path_buf());
    let expected_path = temp.path().join("silero_vad.onnx");
    assert!(!expected_path.exists());
}

#[test]
fn test_speech_model_to_model_id() {
    assert_eq!(
        speech_model_to_model_id(SpeechModel::WhisperBase),
        ModelId::WhisperBase
    );
    assert_eq!(
        speech_model_to_model_id(SpeechModel::WhisperLargeV3Turbo),
        ModelId::WhisperLargeV3Turbo
    );
}

#[test]
fn whisper_model_info() {
    let info = ModelId::WhisperTinyEn.info();
    assert_eq!(info.filename, "ggml-tiny.en.bin");
    assert_eq!(
        info.url,
        "https://huggingface.co/ggerganov/whisper.cpp/resolve/main/ggml-tiny.en.bin"
    );
    assert_eq!(info.size_bytes, Some(77_704_715));
    let coreml = info.coreml_encoder.unwrap();
    assert_eq!(coreml.zip_filename, "ggml-tiny.en-encoder.mlmodelc.zip");
    assert_eq!(coreml.extracted_dirname, "ggml-tiny.en-encoder.mlmodelc");
    assert_eq!(
        coreml.url,
        "https://huggingface.co/ggerganov/whisper.cpp/resolve/main/ggml-tiny.en-encoder.mlmodelc.zip"
    );
    let large = ModelId::WhisperLargeV3.info();
    assert_eq!(large.filename, "ggml-large-v3.bin");
    assert_eq!(large.size_bytes, Some(3_094_623_691));
    let vad = ModelId::SileroVad.info();
    assert_eq!(vad.size_bytes, Some(2_327_524));
    assert!(vad.coreml_encoder.is_none());
}

#[test]
fn existing_model_checks() {
    assert_eq!(check_existing(None, Some(10)), ExistingModel::Missing);
    assert_eq!(check_existing(Some(10), Some(10)), ExistingModel::Ready);
    assert_eq!(check_existing(Some(9), Some(10)), ExistingModel::Corrupt);
    assert_eq!(check_existing(Some(9), None), ExistingModel::Ready);
}

#[test]
fn download_planning() {
    assert_eq!(plan_download(0, Some(10)), DownloadStart::Fresh);
    assert_eq!(plan_download(10, Some(10)), DownloadStart::Finalize);
    assert_eq!(plan_download(4, Some(10)), DownloadStart::Resume(4));
    assert_eq!(plan_download(4, None), DownloadStart::Resume(4));
    assert_eq!(plan_response(416, 4), ResponsePlan::Restart);
    assert_eq!(plan_response(206, 4), ResponsePlan::Append(4));
    assert_eq!(plan_response(200, 4), ResponsePlan::Overwrite);
    assert_eq!(plan_response(404, 4), ResponsePlan::Fail);
    assert_eq!(check_downloaded(10, Some(10)), Ok(()));
    assert_eq!(check_downloaded(7, None), Ok(()));
    assert_eq!(
        check_downloaded(7, Some(10)),
        Err(SizeMismatch {
            expected: 10,
            actual: 7
        })
    );
}
