use arcticwolf::config::{Cli, Config, FsalConfig, LoggingConfig, ServerConfig};

#[test]
fn test_server_config_default() {
    let config = ServerConfig::default();
    assert_eq!(config.bind_address, "0.0.0.0");
    assert_eq!(config.port, 4000);
}

#[test]
fn test_fsal_config_default() {
    let config = FsalConfig::default();
    assert_eq!(config.backend, "local");
    assert_eq!(config.export_path, "/tmp/nfs_exports");
}

#[test]
fn test_logging_config_default() {
    let config = LoggingConfig::default();
    assert!(config.level.is_none());
}

#[test]
fn test_config_default() {
    let config = Config::default();
    assert_eq!(config.server.bind_address, "0.0.0.0");
    assert_eq!(config.server.port, 4000);
    assert_eq!(config.fsal.backend, "local");
    assert_eq!(config.fsal.export_path, "/tmp/nfs_exports");
    assert!(config.logging.level.is_none());
}

#[test]
fn test_bind_addr() {
    let config = Config::default();
    assert_eq!(config.bind_addr(), "0.0.0.0:4000");

    let mut custom = Config::default();
    custom.server.bind_address = "127.0.0.1".to_string();
    custom.server.port = 2049;
    assert_eq!(custom.bind_addr(), "127.0.0.1:2049");
}

#[test]
fn test_effective_level_with_config() {
    let config = LoggingConfig {
        level: Some("debug".to_string()),
    };
    assert_eq!(config.effective_level(None), "debug");
    assert_eq!(config.effective_level(Some("trace".to_string())), "debug");
}

#[test]
fn effective_level_falls_back_to_environment_then_info() {
    let config = LoggingConfig { level: None };
    assert_eq!(config.effective_level(Some("warn".to_string())), "warn");
    assert_eq!(config.effective_level(None), "info");
}

#[test]
fn bind_addr_writes_small_and_large_ports() {
    let mut config = Config::default();
    config.server.port = 0;
    assert_eq!(config.bind_addr(), "0.0.0.0:0");
    config.server.port = 65535;
    assert_eq!(config.bind_addr(), "0.0.0.0:65535");
}

#[test]
fn config_source_prefers_the_command_line() {
    let given = Cli {
        config: Some("/srv/nfs.toml".to_string()),
    };
    assert_eq!(Config::source(&given), ("/srv/nfs.toml".to_string(), true));
    let none = Cli { config: None };
    assert_eq!(
        Config::source(&none),
        ("/etc/arcticwolf/config.toml".to_string(), false)
    );
}
