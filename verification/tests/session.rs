use gijiroku21_core::asr::{EnvironmentConfig, ExecutionProvider, LoggingLevel, SessionConfig};

#[test]
fn test_onnx_env_creation() {
    let env = EnvironmentConfig::default();
    assert_eq!(env.name, "gijiroku21-whisper");
    assert_eq!(env.log_level, LoggingLevel::Info);
    drop(env);
}

#[test]
fn session_config_default_is_cpu_with_two_sessions() {
    let config = SessionConfig::default();
    assert_eq!(config.model_path, "");
    assert_eq!(config.execution_provider, ExecutionProvider::Cpu);
    assert_eq!(config.session_limit, 2);
}
