//! Speech-to-text backends: what the library decides around them.
//!
//! Inference runs outside the library; here are the checks a backend makes
//! before it runs, and the Canary backend's configuration.
use crate::paths::path_exists;
use std::path::PathBuf;
use vstd::prelude::*;

verus! {

/// The only sample rate transcription accepts (16 kHz mono).
pub const TRANSCRIBE_SAMPLE_RATE: u32 = 16000;

/// Errors of a transcription backend.
#[derive(Debug, Clone, Copy, PartialEq, Eq, Structural)]
pub enum TranscribeError {
    /// Audio at another rate than `TRANSCRIBE_SAMPLE_RATE`.
    SampleRateMismatch { expected: u32, actual: u32 },
    /// No model file at the given path.
    ModelNotFound,
}

/// Accept audio only at the transcription rate; never resample silently.
pub fn check_sample_rate(sample_rate: u32) -> (r: Result<(), TranscribeError>)
    ensures
        r is Ok <==> sample_rate == TRANSCRIBE_SAMPLE_RATE,
        r is Err ==> r == Err::<(), TranscribeError>(
            TranscribeError::SampleRateMismatch { expected: TRANSCRIBE_SAMPLE_RATE, actual: sample_rate },
        ),
{
    if sample_rate == TRANSCRIBE_SAMPLE_RATE {
        Ok(())
    } else {
        Err(TranscribeError::SampleRateMismatch { expected: TRANSCRIBE_SAMPLE_RATE, actual: sample_rate })
    }
}

/// NVIDIA Canary transcriber configuration.
pub struct CanaryTranscriber {
    /// Languages to recognize (e.g. `en`, `de`, `cs`).
    pub languages: Vec<String>,
}

impl CanaryTranscriber {
    /// A Canary transcriber for the model file at `model_path`; fails with
    /// `ModelNotFound` when no file is there.
    pub fn new(model_path: &PathBuf, languages: Vec<String>) -> (r: Result<CanaryTranscriber, TranscribeError>)
        ensures
            r is Ok ==> r->Ok_0.languages@ == languages@,
            r is Err ==> r == Err::<CanaryTranscriber, TranscribeError>(TranscribeError::ModelNotFound),
    {
        if !path_exists(model_path) {
            return Err(TranscribeError::ModelNotFound);
        }
        Ok(CanaryTranscriber { languages })
    }

    /// The configured languages.
    pub fn languages(&self) -> (r: &[String])
        ensures
            r@ == self.languages@,
    {
        self.languages.as_slice()
    }
}

} // verus!
