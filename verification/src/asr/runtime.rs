//! How the inference runtime and its sessions are set up.

use vstd::prelude::*;
use vstd::string::StringExecFns;

verus! {

/// How much the inference runtime logs.
#[derive(Debug, Clone, Copy, PartialEq, Eq, Structural)]
pub enum LoggingLevel {
    /// Everything.
    Verbose,
    /// What a user may want to know.
    Info,
    /// Warnings and worse.
    Warning,
    /// Errors and worse.
    Error,
    /// Only what ends the runtime.
    Fatal,
}

/// The settings of the inference environment. There is one environment for
/// all sessions; whoever builds the recogniser builds it from these and
/// hands it over.
#[derive(Debug, Clone)]
pub struct EnvironmentConfig {
    /// The name under which the runtime logs.
    pub name: String,
    /// How much the runtime logs.
    pub log_level: LoggingLevel,
}

impl Default for EnvironmentConfig {
    /// The environment of the recogniser: `gijiroku21-whisper`, logging at
    /// [`LoggingLevel::Info`].
    fn default() -> (config: EnvironmentConfig)
        ensures
            config.name@ == "gijiroku21-whisper"@,
            config.log_level == LoggingLevel::Info,
    {
        EnvironmentConfig {
            name: String::from_str("gijiroku21-whisper"),
            log_level: LoggingLevel::Info,
        }
    }
}

/// The hardware that runs the model.
#[derive(Debug, Clone, Copy, PartialEq, Eq, Structural)]
pub enum ExecutionProvider {
    /// The processor alone.
    Cpu,
    /// DirectML: a Windows GPU or NPU.
    DirectML,
    /// CUDA: an NVIDIA GPU.
    Cuda,
    /// CoreML: macOS.
    CoreML,
}

/// The settings of an encoder or decoder session.
#[derive(Debug, Clone)]
pub struct SessionConfig {
    /// Where the model file lies.
    pub model_path: String,
    /// The hardware that runs the model.
    pub execution_provider: ExecutionProvider,
    /// The most sessions that may be open at once.
    pub session_limit: usize,
}

impl Default for SessionConfig {
    /// No model yet, on the processor, with at most two sessions.
    fn default() -> (config: SessionConfig)
        ensures
            config.model_path@ == Seq::<char>::empty(),
            config.execution_provider == ExecutionProvider::Cpu,
            config.session_limit == 2,
    {
        SessionConfig {
            model_path: String::new(),
            execution_provider: ExecutionProvider::Cpu,
            session_limit: 2,
        }
    }
}

} // verus!
