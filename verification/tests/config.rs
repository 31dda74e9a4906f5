use std::path::PathBuf;

use parallels_clipboard_fix::config::config_dir;
use parallels_clipboard_fix::config::config_dir_source;
use parallels_clipboard_fix::config::default_config_path;
use parallels_clipboard_fix::config::trim_text;
use parallels_clipboard_fix::config::AppConfig;
use parallels_clipboard_fix::config::ConfigDirSource;
use parallels_clipboard_fix::config::ConfigError;
use parallels_clipboard_fix::config::LogLevel;

fn parse_error(input: &str) -> (usize, String) {
    match AppConfig::parse(input) {
        Err(ConfigError::Parse { line, message }) => (line, message),
        other => panic!("expected a parse error, got {other:?}"),
    }
}

#[test]
fn parses_supported_keys() {
    let input = r#"
            enabled = false
            start_with_windows = true
            retry_count = 7
            retry_delay_ms = 125
            write_png = false
            write_dib = true
            log_level = "debug"
        "#;

    let config = AppConfig::parse(input).unwrap_or_else(|error| panic!("{}", error.message()));

    assert!(!config.enabled);
    assert!(config.start_with_windows);
    assert_eq!(config.retry_count, 7);
    assert_eq!(config.retry_delay_ms, 125);
    assert!(!config.write_png);
    assert!(config.write_dib);
    assert_eq!(config.log_level, LogLevel::Debug);
}

#[test]
fn serializes_default_config() {
    let toml = AppConfig::default().to_toml();

    assert!(toml.contains("enabled = true"));
    assert!(toml.contains("log_level = \"info\""));
}

#[test]
fn default_config_text_is_exact() {
    assert_eq!(
        AppConfig::default().to_toml(),
        "enabled = true\nstart_with_windows = false\nretry_count = 5\nretry_delay_ms = 80\nwrite_png = true\nwrite_dib = true\nlog_level = \"info\"\n"
    );
}

#[test]
fn empty_text_gives_defaults() {
    assert_eq!(AppConfig::parse("").unwrap(), AppConfig::default());
    assert_eq!(AppConfig::parse("\n\n   \n# only a comment\n").unwrap(), AppConfig::default());
}

#[test]
fn text_form_reads_back() {
    let config = AppConfig {
        enabled: false,
        start_with_windows: true,
        retry_count: u32::MAX,
        retry_delay_ms: u64::MAX,
        write_png: false,
        write_dib: false,
        log_level: LogLevel::Trace,
    };
    assert_eq!(AppConfig::parse(&config.to_toml()).unwrap(), config);
    for level in [LogLevel::Error, LogLevel::Warn, LogLevel::Info, LogLevel::Debug] {
        let config = AppConfig { log_level: level, retry_count: 0, ..AppConfig::default() };
        assert_eq!(AppConfig::parse(&config.to_toml()).unwrap(), config);
    }
}

#[test]
fn comments_crlf_and_spacing() {
    let config = AppConfig::parse("retry_count=9 # nine\r\n\t enabled =false\r\nlog_level = WARN").unwrap();
    assert_eq!(config.retry_count, 9);
    assert!(!config.enabled);
    assert_eq!(config.log_level, LogLevel::Warn);
    // Unicode white space is trimmed as well.
    let config = AppConfig::parse("\u{3000}retry_delay_ms\u{a0}=\u{2003}+42\u{85}").unwrap();
    assert_eq!(config.retry_delay_ms, 42);
}

#[test]
fn later_lines_win() {
    let config = AppConfig::parse("retry_count = 1\nretry_count = 2").unwrap();
    assert_eq!(config.retry_count, 2);
}

#[test]
fn rejects_line_without_equals() {
    assert_eq!(parse_error("enabled = true\n\njust words"), (3, "expected key = value".to_owned()));
}

#[test]
fn rejects_unknown_key() {
    assert_eq!(parse_error("colour = blue"), (1, "unknown key `colour`".to_owned()));
}

#[test]
fn rejects_bad_values() {
    assert_eq!(parse_error("write_png = yes"), (1, "expected boolean, got `yes`".to_owned()));
    assert_eq!(parse_error("enabled = True"), (1, "expected boolean, got `True`".to_owned()));
    assert_eq!(
        parse_error("retry_count = 4294967296"),
        (1, "expected unsigned integer, got `4294967296`".to_owned())
    );
    assert_eq!(
        parse_error("\nretry_delay_ms = -1"),
        (2, "expected unsigned integer, got `-1`".to_owned())
    );
    assert_eq!(
        parse_error("retry_delay_ms = +"),
        (1, "expected unsigned integer, got `+`".to_owned())
    );
    assert_eq!(parse_error("retry_count ="), (1, "expected unsigned integer, got ``".to_owned()));
    assert_eq!(
        parse_error("log_level = \"loud\""),
        (1, "invalid log level `\"loud\"`".to_owned())
    );
}

#[test]
fn accepts_limits_of_integers() {
    let config = AppConfig::parse("retry_count = 4294967295\nretry_delay_ms = 18446744073709551615").unwrap();
    assert_eq!(config.retry_count, u32::MAX);
    assert_eq!(config.retry_delay_ms, u64::MAX);
    let config = AppConfig::parse("retry_count = 0007").unwrap();
    assert_eq!(config.retry_count, 7);
}

#[test]
fn log_levels_in_any_case_and_quotes() {
    assert_eq!(LogLevel::parse("\"TRACE\"", 4).unwrap(), LogLevel::Trace);
    assert_eq!(LogLevel::parse("Error", 4).unwrap(), LogLevel::Error);
    assert!(matches!(
        LogLevel::parse("\"info", 4),
        Err(ConfigError::Parse { line: 4, .. })
    ));
    assert_eq!(LogLevel::Debug.as_str(), "debug");
}

#[test]
fn trims_white_space() {
    assert_eq!(trim_text("  a b \t"), "a b");
    assert_eq!(trim_text(" \n "), "");
}

#[test]
fn chooses_config_directory() {
    assert_eq!(config_dir_source(true, true, true), Some(ConfigDirSource::AppData));
    assert_eq!(config_dir_source(false, true, true), Some(ConfigDirSource::XdgConfigHome));
    assert_eq!(config_dir_source(false, false, true), Some(ConfigDirSource::HomeConfig));
    assert_eq!(config_dir_source(false, false, false), None);

    let appdata = PathBuf::from("roaming");
    assert_eq!(
        default_config_path(Some(appdata.clone()), Some(PathBuf::from("xdg")), None).unwrap(),
        appdata.join("ParallelsClipboardFix").join("config.toml")
    );
    assert_eq!(
        config_dir(None, None, Some(PathBuf::from("home"))).unwrap(),
        PathBuf::from("home").join(".config").join("ParallelsClipboardFix")
    );
    assert!(matches!(
        default_config_path(None, None, None),
        Err(ConfigError::MissingConfigDirectory)
    ));
}

#[test]
fn config_error_messages() {
    let error = ConfigError::Parse { line: 12, message: "boom".to_owned() };
    assert_eq!(error.message(), "config parse error on line 12: boom");
    assert_eq!(
        ConfigError::MissingConfigDirectory.message(),
        "could not find config directory"
    );
    let io = ConfigError::Io(std::io::Error::new(std::io::ErrorKind::Other, "disk"));
    assert_eq!(io.message(), "config I/O error: disk");
}
