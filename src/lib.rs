//! Speech capture core: a recorder state machine, an energy-based voice
//! activity detector, a nearest-neighbour resampler and the session logic
//! that ties them to a transcription step.
pub mod vad;
pub mod resample;
pub mod error;
pub mod audio;
pub mod text;
pub mod voice_commands;
pub mod transcript;
