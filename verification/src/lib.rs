//! Core library for a local speech-to-text subsystem: a catalog of
//! downloadable model variants, the on-disk lifecycle of model artifacts,
//! microphone capture bounded by explicit start/stop calls, sample-rate
//! conversion planning, and the transcription engine's state machine.
//!
//! Everything that touches a device, the network or the filesystem lives in
//! the unverified shell around this crate; the shell hands plain values in
//! and carries actions out, so that every decision and every data
//! transformation here is verified.

pub mod api;
pub mod audio;
pub mod catalog;
pub mod engine;
pub mod errors;
pub mod json;
pub mod manager;
pub mod resample;
pub mod text;
pub mod translation;

pub use audio::AudioRecorder;
pub use catalog::WhisperModel;
pub use engine::WhisperEngine;
pub use errors::SpeechError;
pub use manager::{ModelManager, ModelStatus};
