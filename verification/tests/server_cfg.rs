//! The server's own configuration: parsing, defaults, the path precedence,
//! and the log-destination checks.

use chimney::server_config::{
    LogLevel, LogMode, ServerConfig, resolve_config_path,
};

const GOOD_CONFIG: &str = r#"
bind_address = "127.0.0.1:8080"
client_config_path = "tests/tomls/client-tomls/good"
log_path = "/tmp/chimney.log"
"#;

#[test]
fn parses_valid_config_file() {
    let config = ServerConfig::from_text("config.toml", GOOD_CONFIG).unwrap();
    assert_eq!(LogLevel::Info, config.log_level);
    assert_eq!(LogMode::Append, config.log_mode);
    assert!(config.event_log_path.is_none());
    assert!(config.tls_config.is_none());
}

#[test]
fn parses_valid_config_file_with_tls() {
    let mut text = GOOD_CONFIG.to_string();
    text.push_str(
        "\n[tls_config]\ncert_file = \"/etc/chimney/cert.pem\"\nkey_file = \"/etc/chimney/key.pem\"\n",
    );
    let config = ServerConfig::from_text("config_tls.toml", &text).unwrap();
    assert!(config.tls_config.is_some());
    let tls = config.tls_config.unwrap();
    assert_eq!("/etc/chimney/cert.pem", tls.cert_file);
    assert_eq!("/etc/chimney/key.pem", tls.key_file);
}

#[test]
fn sets_event_log_path() {
    let mut text = GOOD_CONFIG.to_string();
    text.push_str("\nevent_log_path = \"/tmp/log/chimney-events.log\"\n");
    let config = ServerConfig::from_text("config_event_log_path.toml", &text).unwrap();
    assert!(config.event_log_path.is_some());
    assert_eq!("/tmp/log/chimney-events.log", config.event_log_path.unwrap());
}

#[test]
fn sets_log_level() {
    let mut text = GOOD_CONFIG.to_string();
    text.push_str("\nlog_level = \"debug\"\n");
    let config = ServerConfig::from_text("config_log_level.toml", &text).unwrap();
    assert_eq!(LogLevel::Debug, config.log_level);
}

#[test]
fn errs_on_invalid_config_file() {
    let result = ServerConfig::from_text("bad/config.toml", "= what even [is this");
    assert!(result.is_err());
    let err_msg = result.unwrap_err();
    assert!(err_msg.contains("could not parse TOML"));
}

#[test]
fn errs_on_missing_required_field() {
    let msg = ServerConfig::from_text("c.toml", "bind_address = \"0.0.0.0:1\"\n").unwrap_err();
    assert!(msg.contains("could not parse TOML"));
    assert!(msg.contains("client_config_path") || msg.contains("log_path"));
}

#[test]
fn errs_on_unknown_log_level_token() {
    let mut text = GOOD_CONFIG.to_string();
    text.push_str("\nlog_level = \"chatty\"\n");
    let msg = ServerConfig::from_text("c.toml", &text).unwrap_err();
    assert!(msg.contains("chatty"));
    assert!(msg.contains("log_level"));
}

#[test]
fn falls_back_on_env_var() {
    let from_arg =
        resolve_config_path(Some("explicit.toml".to_string()), Some("env.toml".to_string()));
    assert_eq!(Ok("explicit.toml".to_string()), from_arg);
    let from_env = resolve_config_path(None, Some("env.toml".to_string()));
    assert_eq!(Ok("env.toml".to_string()), from_env);
}

#[test]
fn errs_on_missing_config_file_path() {
    let result = resolve_config_path(None, None);
    assert!(result.is_err());
    assert_eq!("chimney server config path not defined", result.unwrap_err());
}

#[test]
fn errs_on_invalid_log_path() {
    let mut text = GOOD_CONFIG.to_string();
    text = text.replace("/tmp/chimney.log", "/tmp");
    let config = ServerConfig::from_text("log_path.toml", &text).unwrap();
    let result = config.validate(true, false);
    assert!(result.is_err());
    let err_msg = result.unwrap_err();
    assert_eq!("log path \"/tmp\" must include the log filename", err_msg);
}

#[test]
fn errs_on_invalid_event_log_path() {
    let mut text = GOOD_CONFIG.to_string();
    text.push_str("\nevent_log_path = \"/tmp\"\n");
    let config = ServerConfig::from_text("event_log_path.toml", &text).unwrap();
    let result = config.validate(false, true);
    assert!(result.is_err());
    let err_msg = result.unwrap_err();
    assert_eq!("event log path \"/tmp\" must include the log filename", err_msg);
}

#[test]
fn validate_accepts_file_destinations() {
    let config = ServerConfig::from_text("config.toml", GOOD_CONFIG).unwrap();
    assert!(config.validate(false, false).is_ok());
}
