//! Buffering, windowing and resampling of captured audio, and the framing of
//! the features made from it.

pub mod buffer;
pub mod capture;
pub mod mel;
pub mod resample;

pub use buffer::AudioBuffer;
pub use capture::AudioCaptureError;
pub use mel::MelConfig;
pub use resample::{resample_for_whisper, resample_linear};
