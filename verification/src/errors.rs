//! Typed failures surfaced by the library.

use vstd::prelude::*;

verus! {

/// The kinds of failure this subsystem can report.
///
/// Every fallible operation of the library says in its contract exactly
/// which of these it returns, and on which inputs.
#[derive(Clone, Copy, Debug, PartialEq, Eq, Structural)]
pub enum SpeechError {
    /// No input device, or the device or its stream could not be used.
    Device,
    /// An operation was issued in a state that forbids it.
    State,
    /// Directory or file creation, read, write or rename failed.
    Io,
    /// A download request or transfer failed.
    Network,
    /// A model file is missing or could not be parsed as a model.
    Model,
    /// A model key does not name any catalog variant.
    InvalidModel,
    /// A sample-rate conversion was requested with an invalid configuration.
    Resample,
}

impl SpeechError {
    /// A short human-readable description of the failure.
    pub fn message(&self) -> (r: &'static str)
        ensures
            r@ == self.spec_message(),
    {
        match self {
            SpeechError::Device => "audio device unavailable",
            SpeechError::State => "operation not allowed in the current state",
            SpeechError::Io => "file system operation failed",
            SpeechError::Network => "network transfer failed",
            SpeechError::Model => "model file missing or invalid",
            SpeechError::InvalidModel => "unknown model variant",
            SpeechError::Resample => "invalid resampling configuration",
        }
    }

    /// The description promised by [`Self::message`].
    pub open spec fn spec_message(self) -> Seq<char> {
        match self {
            SpeechError::Device => "audio device unavailable"@,
            SpeechError::State => "operation not allowed in the current state"@,
            SpeechError::Io => "file system operation failed"@,
            SpeechError::Network => "network transfer failed"@,
            SpeechError::Model => "model file missing or invalid"@,
            SpeechError::InvalidModel => "unknown model variant"@,
            SpeechError::Resample => "invalid resampling configuration"@,
        }
    }
}

} // verus!
