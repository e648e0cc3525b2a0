use breeze_wh::config::{auto_confirm_enabled, log_level_of, BreezeConfig, LogLevel};
use breeze_wh::constants::{config_path, data_dir, join_path, log_dir, DEBOUNCE_MS};
use breeze_wh::error::BreezeError;
use breeze_wh::session::{console_session_for_launch, get_helper_command_line, has_active_session, SessionError};

#[test]
fn data_dir_is_under_programdata() {
    assert_eq!(data_dir(), "C:\\ProgramData\\Breeze-WH");
}

#[test]
fn log_dir_is_logs_under_data_dir() {
    assert_eq!(log_dir(), "C:\\ProgramData\\Breeze-WH\\logs");
}

#[test]
fn config_path_is_config_toml_under_data_dir() {
    assert_eq!(config_path(), "C:\\ProgramData\\Breeze-WH\\config.toml");
}

#[test]
fn join_path_adds_no_second_separator() {
    assert_eq!(join_path("C:\\dir\\", "a"), "C:\\dir\\a");
    assert_eq!(join_path("C:/dir/", "a"), "C:/dir/a");
    assert_eq!(join_path("C:\\dir", "a"), "C:\\dir\\a");
    assert_eq!(join_path("", "a"), "a");
}

#[test]
fn default_config_values() {
    let c = BreezeConfig::default();
    assert!(c.enabled);
    assert_eq!(c.debounce_ms, 2000);
    assert_eq!(c.debounce_ms, DEBOUNCE_MS);
    assert_eq!(c.log_level, "info");
    assert_eq!(c.log_max_files, 7);
}

fn with_level(level: &str) -> BreezeConfig {
    let mut c = BreezeConfig::default();
    c.log_level = level.to_string();
    c
}

#[test]
fn log_level_names_in_any_case() {
    assert_eq!(log_level_of(&with_level("info")), LogLevel::Info);
    assert_eq!(log_level_of(&with_level("DEBUG")), LogLevel::Debug);
    assert_eq!(log_level_of(&with_level("Trace")), LogLevel::Trace);
    assert_eq!(log_level_of(&with_level("wArN")), LogLevel::Warn);
    assert_eq!(log_level_of(&with_level("error")), LogLevel::Error);
}

#[test]
fn log_level_numbers() {
    assert_eq!(log_level_of(&with_level("1")), LogLevel::Error);
    assert_eq!(log_level_of(&with_level("2")), LogLevel::Warn);
    assert_eq!(log_level_of(&with_level("3")), LogLevel::Info);
    assert_eq!(log_level_of(&with_level("4")), LogLevel::Debug);
    assert_eq!(log_level_of(&with_level("5")), LogLevel::Trace);
    assert_eq!(log_level_of(&with_level("+5")), LogLevel::Trace);
    assert_eq!(log_level_of(&with_level("004")), LogLevel::Debug);
}

#[test]
fn unknown_log_level_falls_back_to_info() {
    assert_eq!(log_level_of(&with_level("verbose")), LogLevel::Info);
    assert_eq!(log_level_of(&with_level("0")), LogLevel::Info);
    assert_eq!(log_level_of(&with_level("6")), LogLevel::Info);
    assert_eq!(log_level_of(&with_level("")), LogLevel::Info);
    assert_eq!(log_level_of(&with_level(" info")), LogLevel::Info);
    assert_eq!(log_level_of(&with_level("debugx")), LogLevel::Info);
}

#[test]
fn error_messages() {
    assert_eq!(BreezeError::Config("bad".to_string()).message(), "configuration error: bad");
    assert_eq!(BreezeError::Windows("denied".to_string()).message(), "Windows API error: denied");
    assert_eq!(BreezeError::Io("gone".to_string()).message(), "IO error: gone");
    assert_eq!(BreezeError::Service("down".to_string()).message(), "service error: down");
}

#[test]
fn helper_command_line_quotes_exe() {
    assert_eq!(
        get_helper_command_line("C:\\Program Files\\breeze-wh.exe"),
        "\"C:\\Program Files\\breeze-wh.exe\" helper"
    );
}

#[test]
fn console_session_checks() {
    assert!(has_active_session(1));
    assert!(has_active_session(0));
    assert!(!has_active_session(0xFFFF_FFFF));
    assert_eq!(console_session_for_launch(3), Ok(3));
    assert_eq!(console_session_for_launch(0xFFFF_FFFF), Err(SessionError::NoActiveConsoleSession));
    assert_eq!(SessionError::NoActiveConsoleSession.message(), "no active console session");
}

#[test]
fn disabled_config_turns_confirmation_off() {
    let mut c = BreezeConfig::default();
    assert!(auto_confirm_enabled(&c));
    c.enabled = false;
    assert!(!auto_confirm_enabled(&c));
}
