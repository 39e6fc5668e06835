//! Configuration values of the daemon.
//!
//! Reading and writing the configuration file happens outside the library;
//! these are the values it holds and their defaults.
use vstd::prelude::*;

verus! {

/// Latency/accuracy trade-off.
#[derive(Debug, Clone, Copy, PartialEq, Eq, Structural)]
pub enum LatencyMode {
    Fast,
    Balanced,
    Accurate,
}

impl Default for LatencyMode {
    fn default() -> (r: Self)
        ensures
            r == LatencyMode::Balanced,
    {
        LatencyMode::Balanced
    }
}

/// Supported speech recognition models.
#[derive(Debug, Clone, Copy, PartialEq, Eq, Structural)]
pub enum SpeechModel {
    WhisperTiny,
    WhisperTinyEn,
    WhisperBase,
    WhisperBaseEn,
    WhisperSmall,
    WhisperSmallEn,
    WhisperMedium,
    WhisperMediumEn,
    WhisperLargeV3,
    WhisperLargeV3Turbo,
}

impl Default for SpeechModel {
    fn default() -> (r: Self)
        ensures
            r == SpeechModel::WhisperBase,
    {
        SpeechModel::WhisperBase
    }
}

/// Log verbosity level.
#[derive(Debug, Clone, Copy, PartialEq, Eq, Structural)]
pub enum LogLevel {
    Error,
    Warn,
    Info,
    Debug,
    Trace,
}

impl Default for LogLevel {
    fn default() -> (r: Self)
        ensures
            r == LogLevel::Info,
    {
        LogLevel::Info
    }
}

impl LogLevel {
    /// The level's name in a tracing filter directive.
    pub open spec fn level_name(self) -> Seq<char> {
        match self {
            LogLevel::Error => "error"@,
            LogLevel::Warn => "warn"@,
            LogLevel::Info => "info"@,
            LogLevel::Debug => "debug"@,
            LogLevel::Trace => "trace"@,
        }
    }

    /// Tracing filter directive for the daemon crate at this level.
    pub fn as_directive(&self) -> (r: &'static str)
        ensures
            r@ == "voice_controllm_daemon="@ + self.level_name(),
    {
        proof {
            reveal_strlit("voice_controllm_daemon=");
            reveal_strlit("error");
            reveal_strlit("warn");
            reveal_strlit("info");
            reveal_strlit("debug");
            reveal_strlit("trace");
        }
        match self {
            LogLevel::Error => {
                proof { reveal_strlit("voice_controllm_daemon=error"); }
                assert("voice_controllm_daemon=error"@ =~= "voice_controllm_daemon="@ + "error"@);
                "voice_controllm_daemon=error"
            },
            LogLevel::Warn => {
                proof { reveal_strlit("voice_controllm_daemon=warn"); }
                assert("voice_controllm_daemon=warn"@ =~= "voice_controllm_daemon="@ + "warn"@);
                "voice_controllm_daemon=warn"
            },
            LogLevel::Info => {
                proof { reveal_strlit("voice_controllm_daemon=info"); }
                assert("voice_controllm_daemon=info"@ =~= "voice_controllm_daemon="@ + "info"@);
                "voice_controllm_daemon=info"
            },
            LogLevel::Debug => {
                proof { reveal_strlit("voice_controllm_daemon=debug"); }
                assert("voice_controllm_daemon=debug"@ =~= "voice_controllm_daemon="@ + "debug"@);
                "voice_controllm_daemon=debug"
            },
            LogLevel::Trace => {
                proof { reveal_strlit("voice_controllm_daemon=trace"); }
                assert("voice_controllm_daemon=trace"@ =~= "voice_controllm_daemon="@ + "trace"@);
                "voice_controllm_daemon=trace"
            },
        }
    }
}

/// Speech recognition settings.
#[derive(Debug, Clone)]
pub struct ModelConfig {
    /// Speech recognition model to use.
    pub model: SpeechModel,
    /// Languages to recognize; `["auto"]` asks for automatic detection.
    pub languages: Vec<String>,
}

impl Default for ModelConfig {
    fn default() -> (r: Self)
        ensures
            r.model == SpeechModel::WhisperBase,
            r.languages@.len() == 1,
            r.languages@[0]@ == "auto"@,
    {
        let mut languages: Vec<String> = Vec::new();
        languages.push("auto".to_owned());
        ModelConfig { model: SpeechModel::WhisperBase, languages }
    }
}

/// Keystroke injection settings.
#[derive(Debug, Clone)]
pub struct InjectionConfig {
    /// Applications to inject into; empty means every application.
    pub allowlist: Vec<String>,
}

impl Default for InjectionConfig {
    fn default() -> (r: Self)
        ensures
            r.allowlist@.len() == 0,
    {
        InjectionConfig { allowlist: Vec::new() }
    }
}

/// Logging settings.
#[derive(Debug, Clone, Copy, PartialEq, Eq, Structural)]
pub struct LoggingConfig {
    pub level: LogLevel,
}

impl Default for LoggingConfig {
    fn default() -> (r: Self)
        ensures
            r.level == LogLevel::Info,
    {
        LoggingConfig { level: LogLevel::Info }
    }
}

/// State the daemon enters once its models are ready.
#[derive(Debug, Clone, Copy, PartialEq, Eq, Structural)]
pub enum InitialState {
    Paused,
    Listening,
}

impl Default for InitialState {
    fn default() -> (r: Self)
        ensures
            r == InitialState::Paused,
    {
        InitialState::Paused
    }
}

} // verus!
