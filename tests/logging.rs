use cunzhi::logging::{LogConfig, LogLevel};

#[test]
fn test_log_config_default() {
    let config = LogConfig::default();
    assert_eq!(config.level, LogLevel::Warn);
    assert_eq!(config.file_path, None);
    assert_eq!(config.is_mcp_mode, false);
}

#[test]
fn test_mcp_mode_detection() {
    // Mode detection reads the process environment, which only the binary does.
}
