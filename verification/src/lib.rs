//! Verified signal path of a meeting recorder: a bounded buffer of the most
//! recent audio, windowing and resampling of what it holds, the framing of a
//! log-mel feature matrix, and the scheduler that decides when a window goes
//! to the speech recogniser and where its segments lie on the recording's
//! timeline.
//!
//! Everything here is sequential and free of floating point: samples are any
//! `Copy` type, times are fixed-point [`time::Seconds`], and the numeric
//! kernels (interpolation, spectral analysis) are supplied by the caller.

pub mod asr;
pub mod audio;
pub mod session;
pub mod settings;
pub mod storage;
pub mod text;
pub mod time;
