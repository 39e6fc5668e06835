//! Core logic of an offline voice dictation daemon: voice-activity hysteresis,
//! utterance segmentation, the engine readiness gate, the controller lifecycle,
//! model metadata, configuration values, tray state and XDG paths.

pub mod audio;
pub mod config;
pub mod controller;
pub mod engine;
pub mod inject;
pub mod models;
pub mod paths;
pub mod state;
pub mod transcribe;
pub mod vad;
