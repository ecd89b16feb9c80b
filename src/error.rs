//! Failures that the recording pipeline reports to its callers.
use vstd::prelude::*;

verus! {

/// Why an operation of the pipeline failed. Variants that wrap a collaborator's
/// failure carry its message.
#[derive(Debug)]
pub enum VoiceError {
    /// No input device or configuration could be obtained.
    DeviceUnavailable(String),
    /// The operation needs a loaded transcription model.
    NotInitialized,
    /// The transcription model could not be loaded.
    ModelLoad(String),
    /// Recording was stopped before any sample was captured.
    EmptyRecording,
    /// The transcription engine failed on the captured audio.
    Transcribe(String),
    /// Background listening was already on.
    AlreadyListening,
}

} // verus!
