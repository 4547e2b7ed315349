//! The recogniser's contract and the scheduler that feeds it.

pub mod model;
pub mod runtime;
pub mod streaming;
pub mod whisper;

pub use model::{AsrError, AsrModel, TranscriptionResult, TranscriptionSegment};
pub use runtime::{EnvironmentConfig, ExecutionProvider, LoggingLevel, SessionConfig};
pub use streaming::{StreamingConfig, StreamingTranscriber};
