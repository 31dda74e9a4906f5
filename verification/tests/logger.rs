use std::path::PathBuf;

use parallels_clipboard_fix::config::ConfigError;
use parallels_clipboard_fix::config::LogLevel;
use parallels_clipboard_fix::logger::default_log_path;
use parallels_clipboard_fix::logger::format_log_line;
use parallels_clipboard_fix::logger::level_enabled;
use parallels_clipboard_fix::logger::level_rank;
use parallels_clipboard_fix::logger::sanitize_message;
use parallels_clipboard_fix::logger::LoggerError;

#[test]
fn sanitizes_multiline_messages() {
    assert_eq!(sanitize_message("a\nb\rc"), "a b c");
}

#[test]
fn sanitizes_edges_and_keeps_other_text() {
    assert_eq!(sanitize_message("\r\n"), "  ");
    assert_eq!(sanitize_message(""), "");
    assert_eq!(sanitize_message("héllo\twörld"), "héllo\twörld");
}

#[test]
fn info_log_keeps_info_and_drops_debug() {
    assert!(level_enabled(LogLevel::Info, LogLevel::Info));
    assert!(level_enabled(LogLevel::Info, LogLevel::Error));
    assert!(level_enabled(LogLevel::Info, LogLevel::Warn));
    assert!(!level_enabled(LogLevel::Info, LogLevel::Debug));
    assert!(!level_enabled(LogLevel::Error, LogLevel::Warn));
    assert!(level_enabled(LogLevel::Trace, LogLevel::Trace));
    assert_eq!(level_rank(LogLevel::Error), 1);
    assert_eq!(level_rank(LogLevel::Trace), 5);
}

#[test]
fn formats_log_lines() {
    assert_eq!(format_log_line(1700000000, LogLevel::Info, "visible"), "1700000000 [info] visible");
    assert_eq!(format_log_line(0, LogLevel::Warn, "two\nlines"), "0 [warn] two lines");
}

#[test]
fn log_path_follows_config_directory() {
    assert_eq!(
        default_log_path(None, Some(PathBuf::from("xdg")), None).unwrap(),
        PathBuf::from("xdg").join("ParallelsClipboardFix").join("ParallelsClipboardFix.log")
    );
    assert!(matches!(
        default_log_path(None, None, None),
        Err(LoggerError::Config(ConfigError::MissingConfigDirectory))
    ));
    assert_eq!(
        LoggerError::Config(ConfigError::MissingConfigDirectory).message(),
        "logger path error: could not find config directory"
    );
}

#[test]
fn logger_error_message_carries_the_config_error() {
    let error = LoggerError::Config(ConfigError::Parse { line: 2, message: "bad".to_owned() });
    assert_eq!(error.message(), "logger path error: config parse error on line 2: bad");
}
