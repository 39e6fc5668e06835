//! Downloadable models: their metadata, where they are stored, and the
//! decisions taken while making sure one is present.
//!
//! The transfer itself (HTTP, files) happens outside the library; it asks the
//! functions here what to do with what it found.
use crate::config::SpeechModel;
use crate::paths::{data_dir, path_join, PathError};
use std::path::PathBuf;
use vstd::prelude::*;

verus! {

/// Base URL of the whisper.cpp model files.
pub const WHISPER_BASE_URL: &'static str = "https://huggingface.co/ggerganov/whisper.cpp/resolve/main";

/// Download URL of the Silero VAD model.
pub const SILERO_VAD_URL: &'static str = "https://github.com/snakers4/silero-vad/raw/master/src/silero_vad/data/silero_vad.onnx";

/// File name of the Silero VAD model.
pub const SILERO_VAD_FILE: &'static str = "silero_vad.onnx";

/// Identifier of a downloadable model.
#[derive(Debug, Clone, Copy, PartialEq, Eq, Structural)]
pub enum ModelId {
    SileroVad,
    WhisperTiny,
    WhisperTinyEn,
    WhisperBase,
    WhisperBaseEn,
    WhisperSmall,
    WhisperSmallEn,
    WhisperMedium,
    WhisperMediumEn,
    WhisperLargeV3,
    WhisperLargeV3Turbo,
}

/// Metadata of a CoreML encoder that accompanies a Whisper model.
#[derive(Debug, Clone)]
pub struct CoreMlModelInfo {
    /// Name of the zip archive to download.
    pub zip_filename: String,
    /// Name of the directory the archive extracts to.
    pub extracted_dirname: String,
    /// Download URL of the archive.
    pub url: String,
}

/// Metadata of a downloadable model.
#[derive(Debug, Clone)]
pub struct ModelInfo {
    /// File name to save the model as.
    pub filename: String,
    /// Download URL.
    pub url: String,
    /// Expected file size, when known.
    pub size_bytes: Option<u64>,
    /// CoreML encoder of a Whisper model.
    pub coreml_encoder: Option<CoreMlModelInfo>,
}

impl ModelId {
    /// The size name in the Whisper file names (`tiny`, `base.en`, ...).
    pub open spec fn spec_stem(self) -> Seq<char> {
        match self {
            ModelId::SileroVad => ""@,
            ModelId::WhisperTiny => "tiny"@,
            ModelId::WhisperTinyEn => "tiny.en"@,
            ModelId::WhisperBase => "base"@,
            ModelId::WhisperBaseEn => "base.en"@,
            ModelId::WhisperSmall => "small"@,
            ModelId::WhisperSmallEn => "small.en"@,
            ModelId::WhisperMedium => "medium"@,
            ModelId::WhisperMediumEn => "medium.en"@,
            ModelId::WhisperLargeV3 => "large-v3"@,
            ModelId::WhisperLargeV3Turbo => "large-v3-turbo"@,
        }
    }

    /// Name of the model in progress reports.
    pub open spec fn spec_name(self) -> Seq<char> {
        match self {
            ModelId::SileroVad => "silero-vad"@,
            ModelId::WhisperTiny => "whisper-tiny"@,
            ModelId::WhisperTinyEn => "whisper-tiny-en"@,
            ModelId::WhisperBase => "whisper-base"@,
            ModelId::WhisperBaseEn => "whisper-base-en"@,
            ModelId::WhisperSmall => "whisper-small"@,
            ModelId::WhisperSmallEn => "whisper-small-en"@,
            ModelId::WhisperMedium => "whisper-medium"@,
            ModelId::WhisperMediumEn => "whisper-medium-en"@,
            ModelId::WhisperLargeV3 => "whisper-large-v3"@,
            ModelId::WhisperLargeV3Turbo => "whisper-large-v3-turbo"@,
        }
    }

    /// Name of the model in progress reports.
    pub fn name(&self) -> (r: &'static str)
        ensures
            r@ == self.spec_name(),
    {
        match self {
            ModelId::SileroVad => "silero-vad",
            ModelId::WhisperTiny => "whisper-tiny",
            ModelId::WhisperTinyEn => "whisper-tiny-en",
            ModelId::WhisperBase => "whisper-base",
            ModelId::WhisperBaseEn => "whisper-base-en",
            ModelId::WhisperSmall => "whisper-small",
            ModelId::WhisperSmallEn => "whisper-small-en",
            ModelId::WhisperMedium => "whisper-medium",
            ModelId::WhisperMediumEn => "whisper-medium-en",
            ModelId::WhisperLargeV3 => "whisper-large-v3",
            ModelId::WhisperLargeV3Turbo => "whisper-large-v3-turbo",
        }
    }

    /// Expected size in bytes of the model file.
    pub open spec fn spec_size(self) -> u64 {
        match self {
            ModelId::SileroVad => 2327524,
            ModelId::WhisperTiny => 77691713,
            ModelId::WhisperTinyEn => 77704715,
            ModelId::WhisperBase => 147951465,
            ModelId::WhisperBaseEn => 147964211,
            ModelId::WhisperSmall => 487601967,
            ModelId::WhisperSmallEn => 487614201,
            ModelId::WhisperMedium => 1533774781,
            ModelId::WhisperMediumEn => 1533774781,
            ModelId::WhisperLargeV3 => 3094623691,
            ModelId::WhisperLargeV3Turbo => 1624555275,
        }
    }

    /// File name of the model.
    pub open spec fn spec_filename(self) -> Seq<char> {
        if self == ModelId::SileroVad {
            SILERO_VAD_FILE@
        } else {
            "ggml-"@ + self.spec_stem() + ".bin"@
        }
    }

    /// Name of the CoreML encoder directory of a Whisper model.
    pub open spec fn spec_encoder_dir(self) -> Seq<char> {
        "ggml-"@ + self.spec_stem() + "-encoder.mlmodelc"@
    }

    fn stem(&self) -> (r: &'static str)
        ensures
            r@ == self.spec_stem(),
    {
        match self {
            ModelId::SileroVad => "",
            ModelId::WhisperTiny => "tiny",
            ModelId::WhisperTinyEn => "tiny.en",
            ModelId::WhisperBase => "base",
            ModelId::WhisperBaseEn => "base.en",
            ModelId::WhisperSmall => "small",
            ModelId::WhisperSmallEn => "small.en",
            ModelId::WhisperMedium => "medium",
            ModelId::WhisperMediumEn => "medium.en",
            ModelId::WhisperLargeV3 => "large-v3",
            ModelId::WhisperLargeV3Turbo => "large-v3-turbo",
        }
    }

    fn size(&self) -> (r: u64)
        ensures
            r == self.spec_size(),
    {
        match self {
            ModelId::SileroVad => 2327524,
            ModelId::WhisperTiny => 77691713,
            ModelId::WhisperTinyEn => 77704715,
            ModelId::WhisperBase => 147951465,
            ModelId::WhisperBaseEn => 147964211,
            ModelId::WhisperSmall => 487601967,
            ModelId::WhisperSmallEn => 487614201,
            ModelId::WhisperMedium => 1533774781,
            ModelId::WhisperMediumEn => 1533774781,
            ModelId::WhisperLargeV3 => 3094623691,
            ModelId::WhisperLargeV3Turbo => 1624555275,
        }
    }

    /// Metadata of the model: file name, download URL, expected size, and for
    /// Whisper models the CoreML encoder archive.
    pub fn info(&self) -> (r: ModelInfo)
        ensures
            r.filename@ == self.spec_filename(),
            r.size_bytes == Some(self.spec_size()),
            *self == ModelId::SileroVad ==> r.url@ == SILERO_VAD_URL@ && r.coreml_encoder is None,
            *self != ModelId::SileroVad ==> {
                &&& r.url@ == WHISPER_BASE_URL@ + "/"@ + self.spec_filename()
                &&& r.coreml_encoder is Some
                &&& r.coreml_encoder->0.extracted_dirname@ == self.spec_encoder_dir()
                &&& r.coreml_encoder->0.zip_filename@ == self.spec_encoder_dir() + ".zip"@
                &&& r.coreml_encoder->0.url@ == WHISPER_BASE_URL@ + "/"@ + self.spec_encoder_dir() + ".zip"@
            },
    {
        if let ModelId::SileroVad = self {
            return ModelInfo {
                filename: SILERO_VAD_FILE.to_owned(),
                url: SILERO_VAD_URL.to_owned(),
                size_bytes: Some(self.size()),
                coreml_encoder: None,
            };
        }
        let stem = self.stem();
        let filename = "ggml-".to_owned().concat(stem).concat(".bin");
        let url = WHISPER_BASE_URL.to_owned().concat("/").concat(filename.as_str());
        let extracted_dirname = "ggml-".to_owned().concat(stem).concat("-encoder.mlmodelc");
        let zip_filename = extracted_dirname.clone().concat(".zip");
        let zip_url = WHISPER_BASE_URL.to_owned().concat("/").concat(zip_filename.as_str());
        assert(zip_url@ =~= WHISPER_BASE_URL@ + "/"@ + self.spec_encoder_dir() + ".zip"@);
        assert(url@ =~= WHISPER_BASE_URL@ + "/"@ + self.spec_filename());
        ModelInfo {
            filename,
            url,
            size_bytes: Some(self.size()),
            coreml_encoder: Some(CoreMlModelInfo { zip_filename, extracted_dirname, url: zip_url }),
        }
    }
}

/// The download identifier of a configured speech model.
pub open spec fn spec_model_id(model: SpeechModel) -> ModelId {
    match model {
        SpeechModel::WhisperTiny => ModelId::WhisperTiny,
        SpeechModel::WhisperTinyEn => ModelId::WhisperTinyEn,
        SpeechModel::WhisperBase => ModelId::WhisperBase,
        SpeechModel::WhisperBaseEn => ModelId::WhisperBaseEn,
        SpeechModel::WhisperSmall => ModelId::WhisperSmall,
        SpeechModel::WhisperSmallEn => ModelId::WhisperSmallEn,
        SpeechModel::WhisperMedium => ModelId::WhisperMedium,
        SpeechModel::WhisperMediumEn => ModelId::WhisperMediumEn,
        SpeechModel::WhisperLargeV3 => ModelId::WhisperLargeV3,
        SpeechModel::WhisperLargeV3Turbo => ModelId::WhisperLargeV3Turbo,
    }
}

/// Convert the configured speech model to the identifier of its download.
pub fn speech_model_to_model_id(model: SpeechModel) -> (r: ModelId)
    ensures
        r == spec_model_id(model),
        r != ModelId::SileroVad,
{
    match model {
        SpeechModel::WhisperTiny => ModelId::WhisperTiny,
        SpeechModel::WhisperTinyEn => ModelId::WhisperTinyEn,
        SpeechModel::WhisperBase => ModelId::WhisperBase,
        SpeechModel::WhisperBaseEn => ModelId::WhisperBaseEn,
        SpeechModel::WhisperSmall => ModelId::WhisperSmall,
        SpeechModel::WhisperSmallEn => ModelId::WhisperSmallEn,
        SpeechModel::WhisperMedium => ModelId::WhisperMedium,
        SpeechModel::WhisperMediumEn => ModelId::WhisperMediumEn,
        SpeechModel::WhisperLargeV3 => ModelId::WhisperLargeV3,
        SpeechModel::WhisperLargeV3Turbo => ModelId::WhisperLargeV3Turbo,
    }
}

/// What to do with a model file found (or not) at its place.
#[derive(Debug, Clone, Copy, PartialEq, Eq, Structural)]
pub enum ExistingModel {
    /// The file is there with the expected size (or no size is known).
    Ready,
    /// No file: download it.
    Missing,
    /// The file has the wrong size: remove it and download again.
    Corrupt,
}

/// Decide on a model file from its size on disk (`None` when it does not exist).
pub fn check_existing(found_size: Option<u64>, expected_size: Option<u64>) -> (r: ExistingModel)
    ensures
        found_size is None ==> r == ExistingModel::Missing,
        found_size is Some && expected_size is Some && found_size != expected_size
            ==> r == ExistingModel::Corrupt,
        found_size is Some && (expected_size is None || found_size == expected_size)
            ==> r == ExistingModel::Ready,
{
    match found_size {
        None => ExistingModel::Missing,
        Some(actual) => match expected_size {
            Some(expected) => {
                if actual == expected {
                    ExistingModel::Ready
                } else {
                    ExistingModel::Corrupt
                }
            },
            None => ExistingModel::Ready,
        },
    }
}

/// How a download starts, given the partial file left by an earlier attempt.
#[derive(Debug, Clone, Copy, PartialEq, Eq, Structural)]
pub enum DownloadStart {
    /// The partial file is already complete: only rename it.
    Finalize,
    /// Request the whole file.
    Fresh,
    /// Request the rest of the file from this byte on.
    Resume(u64),
}

/// Decide how to start a download from the size of the partial file (0 when
/// there is none) and the expected size.
pub fn plan_download(partial_size: u64, expected_size: Option<u64>) -> (r: DownloadStart)
    ensures
        partial_size > 0 && expected_size == Some(partial_size) ==> r == DownloadStart::Finalize,
        partial_size == 0 ==> r == DownloadStart::Fresh,
        partial_size > 0 && expected_size != Some(partial_size) ==> r == DownloadStart::Resume(partial_size),
{
    if partial_size > 0 && expected_size == Some(partial_size) {
        DownloadStart::Finalize
    } else if partial_size > 0 {
        DownloadStart::Resume(partial_size)
    } else {
        DownloadStart::Fresh
    }
}

/// How a download goes on after the server's status code.
#[derive(Debug, Clone, Copy, PartialEq, Eq, Structural)]
pub enum ResponsePlan {
    /// The server rejected the range: drop the partial file and start again.
    Restart,
    /// The server refused the request.
    Fail,
    /// Append the body to the partial file, which holds this many bytes.
    Append(u64),
    /// Write the body to an emptied file.
    Overwrite,
}

/// HTTP status of a satisfied range request.
pub const STATUS_PARTIAL_CONTENT: u16 = 206;

/// HTTP status of a rejected range request.
pub const STATUS_RANGE_NOT_SATISFIABLE: u16 = 416;

/// Decide what to do with a response, given its status and the size of the
/// partial file the request resumed from.
pub fn plan_response(status: u16, partial_size: u64) -> (r: ResponsePlan)
    ensures
        status == STATUS_RANGE_NOT_SATISFIABLE ==> r == ResponsePlan::Restart,
        status == STATUS_PARTIAL_CONTENT ==> r == ResponsePlan::Append(partial_size),
        200 <= status < 300 && status != STATUS_PARTIAL_CONTENT ==> r == ResponsePlan::Overwrite,
        status != STATUS_RANGE_NOT_SATISFIABLE && !(200 <= status < 300) ==> r == ResponsePlan::Fail,
{
    if status == STATUS_RANGE_NOT_SATISFIABLE {
        ResponsePlan::Restart
    } else if status == STATUS_PARTIAL_CONTENT {
        ResponsePlan::Append(partial_size)
    } else if 200 <= status && status < 300 {
        ResponsePlan::Overwrite
    } else {
        ResponsePlan::Fail
    }
}

/// A finished download whose size differs from the expected one.
#[derive(Debug, Clone, Copy, PartialEq, Eq, Structural)]
pub struct SizeMismatch {
    pub expected: u64,
    pub actual: u64,
}

/// Check the size of a finished download against the expected size.
pub fn check_downloaded(downloaded: u64, expected_size: Option<u64>) -> (r: Result<(), SizeMismatch>)
    ensures
        r is Ok <==> (expected_size is None || expected_size == Some(downloaded)),
        r is Err ==> r == Err::<(), SizeMismatch>(
            SizeMismatch { expected: expected_size->0, actual: downloaded },
        ),
{
    match expected_size {
        Some(expected) => {
            if downloaded == expected {
                Ok(())
            } else {
                Err(SizeMismatch { expected, actual: downloaded })
            }
        },
        None => Ok(()),
    }
}

/// Place where models are stored.
pub struct ModelManager {
    models_dir: PathBuf,
}

impl ModelManager {
    /// The directory the manager stores models in.
    pub closed spec fn dir(&self) -> PathBuf {
        self.models_dir
    }

    /// Manager storing models in `models/` under the XDG data directory.
    pub fn new() -> (r: Result<ModelManager, PathError>)
        ensures
            r is Err ==> r == Err::<ModelManager, PathError>(PathError::DataDirUnavailable),
    {
        let data = data_dir()?;
        Ok(ModelManager { models_dir: path_join(&data, "models") })
    }

    /// Manager storing models in the given directory.
    pub fn with_dir(models_dir: PathBuf) -> (r: ModelManager)
        ensures
            r.dir() == models_dir,
    {
        ModelManager { models_dir }
    }

    /// The models directory.
    pub fn models_dir(&self) -> (r: &PathBuf)
        ensures
            *r == self.dir(),
    {
        &self.models_dir
    }

    /// Where the file of a model lies.
    pub fn model_path(&self, model: ModelId) -> (r: PathBuf) {
        let info = model.info();
        path_join(&self.models_dir, info.filename.as_str())
    }
}

} // verus!
