//! The application's settings and their `key = value` text form.
use vstd::prelude::*;
use vstd::string::StrSliceExecFns;
use vstd::string::StringExecFns;

use crate::platform::io_error_text;
use crate::platform::joined_path;
use crate::platform::path_join;
use crate::text::ascii_lowercase;
use crate::text::chars_of;
use crate::text::decimal_text;
use crate::text::find_char;
use crate::text::index_of;
use crate::text::lines;
use crate::text::parse_unsigned;
use crate::text::push_decimal;
use crate::text::range_eq;
use crate::text::range_eq_ignoring_ascii_case;
use crate::text::strip_cr;
use crate::text::trim;
use crate::text::trim_range;
use crate::text::unquote;
use crate::text::unsigned_value;

verus! {

/// The name of the settings file inside the configuration directory.
pub const CONFIG_FILE_NAME: &'static str = "config.toml";

/// How much the application writes to its log.
#[derive(Debug, Clone, Copy, PartialEq, Eq, Structural)]
pub enum LogLevel {
    Error,
    Warn,
    Info,
    Debug,
    Trace,
}

/// The application's settings.
#[derive(Debug, Clone, Copy, PartialEq, Eq, Structural)]
pub struct AppConfig {
    pub enabled: bool,
    pub start_with_windows: bool,
    pub retry_count: u32,
    pub retry_delay_ms: u64,
    pub write_png: bool,
    pub write_dib: bool,
    pub log_level: LogLevel,
}

/// What can go wrong while finding, reading or parsing the settings.
#[derive(Debug)]
pub enum ConfigError {
    Io(std::io::Error),
    MissingConfigDirectory,
    Parse { line: usize, message: String },
}

// ---------------------------------------------------------------------------
// Specification of the text form
// ---------------------------------------------------------------------------

/// The settings used where the text does not say otherwise.
pub open spec fn default_config() -> AppConfig {
    AppConfig {
        enabled: true,
        start_with_windows: false,
        retry_count: 5,
        retry_delay_ms: 80,
        write_png: true,
        write_dib: true,
        log_level: LogLevel::Info,
    }
}

pub open spec fn bool_text(b: bool) -> Seq<char> {
    if b {
        "true"@
    } else {
        "false"@
    }
}

pub open spec fn level_text(level: LogLevel) -> Seq<char> {
    match level {
        LogLevel::Error => "error"@,
        LogLevel::Warn => "warn"@,
        LogLevel::Info => "info"@,
        LogLevel::Debug => "debug"@,
        LogLevel::Trace => "trace"@,
    }
}

/// The boolean that a value writes.
pub open spec fn bool_value(t: Seq<char>) -> Option<bool> {
    if t == "true"@ {
        Some(true)
    } else if t == "false"@ {
        Some(false)
    } else {
        None
    }
}

/// The log level that a value writes: its name in any ASCII case, quoted or not.
pub open spec fn level_value(t: Seq<char>) -> Option<LogLevel> {
    let w = ascii_lowercase(unquote(t));
    if w == "error"@ {
        Some(LogLevel::Error)
    } else if w == "warn"@ {
        Some(LogLevel::Warn)
    } else if w == "info"@ {
        Some(LogLevel::Info)
    } else if w == "debug"@ {
        Some(LogLevel::Debug)
    } else if w == "trace"@ {
        Some(LogLevel::Trace)
    } else {
        None
    }
}

pub open spec fn bool_error(value: Seq<char>) -> Seq<char> {
    "expected boolean, got `"@ + value + "`"@
}

pub open spec fn unsigned_error(value: Seq<char>) -> Seq<char> {
    "expected unsigned integer, got `"@ + value + "`"@
}

pub open spec fn level_error(value: Seq<char>) -> Seq<char> {
    "invalid log level `"@ + value + "`"@
}

pub open spec fn unknown_key_error(key: Seq<char>) -> Seq<char> {
    "unknown key `"@ + key + "`"@
}

/// The settings after one `key = value` line, or the message that rejects it.
pub open spec fn apply_setting(config: AppConfig, key: Seq<char>, value: Seq<char>) -> Result<
    AppConfig,
    Seq<char>,
> {
    if key == "enabled"@ {
        match bool_value(value) {
            Some(b) => Ok(AppConfig { enabled: b, ..config }),
            None => Err(bool_error(value)),
        }
    } else if key == "start_with_windows"@ {
        match bool_value(value) {
            Some(b) => Ok(AppConfig { start_with_windows: b, ..config }),
            None => Err(bool_error(value)),
        }
    } else if key == "retry_count"@ {
        match unsigned_value(value, u32::MAX as nat) {
            Some(n) => Ok(AppConfig { retry_count: n as u32, ..config }),
            None => Err(unsigned_error(value)),
        }
    } else if key == "retry_delay_ms"@ {
        match unsigned_value(value, u64::MAX as nat) {
            Some(n) => Ok(AppConfig { retry_delay_ms: n as u64, ..config }),
            None => Err(unsigned_error(value)),
        }
    } else if key == "write_png"@ {
        match bool_value(value) {
            Some(b) => Ok(AppConfig { write_png: b, ..config }),
            None => Err(bool_error(value)),
        }
    } else if key == "write_dib"@ {
        match bool_value(value) {
            Some(b) => Ok(AppConfig { write_dib: b, ..config }),
            None => Err(bool_error(value)),
        }
    } else if key == "log_level"@ {
        match level_value(value) {
            Some(level) => Ok(AppConfig { log_level: level, ..config }),
            None => Err(level_error(value)),
        }
    } else {
        Err(unknown_key_error(key))
    }
}

/// The settings after one line of text: a `#` starts a comment, blank lines
/// change nothing, and any other line must be `key = value`.
pub open spec fn apply_line(config: AppConfig, raw: Seq<char>) -> Result<AppConfig, Seq<char>> {
    let line = trim(raw.take(index_of(raw, '#') as int));
    if line.len() == 0 {
        Ok(config)
    } else {
        let e = index_of(line, '=');
        if e >= line.len() {
            Err("expected key = value"@)
        } else {
            apply_setting(config, trim(line.take(e as int)), trim(line.skip(e + 1 as int)))
        }
    }
}

/// The settings after the lines `ls`, of which the first has the number
/// `number`; or the number and message of the first line that is rejected.
pub open spec fn apply_lines(config: AppConfig, ls: Seq<Seq<char>>, number: int) -> Result<
    AppConfig,
    (int, Seq<char>),
>
    decreases ls.len(),
{
    if ls.len() == 0 {
        Ok(config)
    } else {
        match apply_line(config, ls[0]) {
            Ok(next) => apply_lines(next, ls.drop_first(), number + 1),
            Err(message) => Err((number, message)),
        }
    }
}

/// What the settings text `input` means: the defaults, changed line by line.
pub open spec fn parse_config(input: Seq<char>) -> Result<AppConfig, (int, Seq<char>)> {
    apply_lines(default_config(), lines(input), 1)
}

/// One `key = value` line, without its line end.
pub open spec fn setting_line(key: Seq<char>, value: Seq<char>) -> Seq<char> {
    key + " = "@ + value
}

/// `t` between double quotes.
pub open spec fn quoted(t: Seq<char>) -> Seq<char> {
    "\""@ + t + "\""@
}

/// The lines of the text form of the settings.
pub open spec fn toml_lines(c: AppConfig) -> Seq<Seq<char>> {
    seq![
        setting_line("enabled"@, bool_text(c.enabled)),
        setting_line("start_with_windows"@, bool_text(c.start_with_windows)),
        setting_line("retry_count"@, decimal_text(c.retry_count as nat)),
        setting_line("retry_delay_ms"@, decimal_text(c.retry_delay_ms as nat)),
        setting_line("write_png"@, bool_text(c.write_png)),
        setting_line("write_dib"@, bool_text(c.write_dib)),
        setting_line("log_level"@, quoted(level_text(c.log_level))),
    ]
}

/// The lines `ls`, each ended by `\n`.
pub open spec fn join_lines(ls: Seq<Seq<char>>) -> Seq<char>
    decreases ls.len(),
{
    if ls.len() == 0 {
        Seq::empty()
    } else {
        ls[0] + "\n"@ + join_lines(ls.drop_first())
    }
}

/// The text form of the settings, one `key = value` line each.
pub open spec fn toml_text(c: AppConfig) -> Seq<char> {
    join_lines(toml_lines(c))
}

/// The error that rejects line `line` with `message`.
pub open spec fn is_parse_error(e: ConfigError, line: int, message: Seq<char>) -> bool {
    e matches ConfigError::Parse { line: l, message: m } && l == line && m@ == message
}

// ---------------------------------------------------------------------------
// Verified code
// ---------------------------------------------------------------------------

impl Default for AppConfig {
    fn default() -> (c: Self)
        ensures
            c == default_config(),
    {
        AppConfig {
            enabled: true,
            start_with_windows: false,
            retry_count: 5,
            retry_delay_ms: 80,
            write_png: true,
            write_dib: true,
            log_level: LogLevel::Info,
        }
    }
}

/// Whether two texts are equal.
pub fn text_is(a: &str, b: &str) -> (r: bool)
    ensures
        r == (a@ == b@),
{
    let va = chars_of(a);
    let vb = chars_of(b);
    let r = range_eq(&va, 0, va.len(), &vb);
    assert(va@.subrange(0, va.len() as int) =~= va@);
    r
}

/// `line` up to its first `#`.
fn strip_comment(line: &str) -> (r: &str)
    ensures
        r@ == line@.take(index_of(line@, '#') as int),
{
    let v = chars_of(line);
    let c = find_char(&v, 0, v.len(), '#');
    assert(v@.subrange(0, v.len() as int) =~= v@);
    line.substring_char(0, c)
}

/// `value` without white space at either end.
pub fn trim_text(value: &str) -> (r: &str)
    ensures
        r@ == trim(value@),
{
    let v = chars_of(value);
    let (a, b) = trim_range(&v, 0, v.len());
    assert(v@.subrange(0, v.len() as int) =~= v@);
    value.substring_char(a, b)
}

/// `value` without a surrounding pair of double quotes.
fn unquote_text(value: &str) -> (r: &str)
    ensures
        r@ == unquote(value@),
{
    let v = chars_of(value);
    let n = v.len();
    if n >= 2 && v[0] == '"' && v[n - 1] == '"' {
        value.substring_char(1, n - 1)
    } else {
        value
    }
}

/// `prefix`, then `value`, then a backquote.
fn quoted_message(prefix: &str, value: &str) -> (r: String)
    ensures
        r@ == prefix@ + value@ + "`"@,
{
    let mut message = prefix.to_owned();
    message.append(value);
    message.append("`");
    message
}

fn parse_bool(value: &str, line: usize) -> (r: Result<bool, ConfigError>)
    ensures
        match bool_value(value@) {
            Some(b) => r == Ok::<bool, ConfigError>(b),
            None => r matches Err(e) && is_parse_error(e, line as int, bool_error(value@)),
        },
{
    if text_is(value, "true") {
        Ok(true)
    } else if text_is(value, "false") {
        Ok(false)
    } else {
        Err(
            ConfigError::Parse {
                line,
                message: quoted_message("expected boolean, got `", value),
            },
        )
    }
}

fn parse_u32(value: &str, line: usize) -> (r: Result<u32, ConfigError>)
    ensures
        match unsigned_value(value@, u32::MAX as nat) {
            Some(n) => r == Ok::<u32, ConfigError>(n as u32),
            None => r matches Err(e) && is_parse_error(e, line as int, unsigned_error(value@)),
        },
{
    let v = chars_of(value);
    assert(v@.subrange(0, v.len() as int) =~= v@);
    match parse_unsigned(&v, 0, v.len(), 0xffff_ffff) {
        Some(n) => Ok(n as u32),
        None => Err(
            ConfigError::Parse {
                line,
                message: quoted_message("expected unsigned integer, got `", value),
            },
        ),
    }
}

fn parse_u64(value: &str, line: usize) -> (r: Result<u64, ConfigError>)
    ensures
        match unsigned_value(value@, u64::MAX as nat) {
            Some(n) => r == Ok::<u64, ConfigError>(n as u64),
            None => r matches Err(e) && is_parse_error(e, line as int, unsigned_error(value@)),
        },
{
    let v = chars_of(value);
    assert(v@.subrange(0, v.len() as int) =~= v@);
    match parse_unsigned(&v, 0, v.len(), 0xffff_ffff_ffff_ffff) {
        Some(n) => Ok(n),
        None => Err(
            ConfigError::Parse {
                line,
                message: quoted_message("expected unsigned integer, got `", value),
            },
        ),
    }
}

impl LogLevel {
    /// The name of the level, as the settings text and the log write it.
    pub fn as_str(self) -> (r: &'static str)
        ensures
            r@ == level_text(self),
    {
        match self {
            LogLevel::Error => "error",
            LogLevel::Warn => "warn",
            LogLevel::Info => "info",
            LogLevel::Debug => "debug",
            LogLevel::Trace => "trace",
        }
    }

    /// The level that `value` names on line `line` of the settings text.
    pub fn parse(value: &str, line: usize) -> (r: Result<LogLevel, ConfigError>)
        ensures
            match level_value(value@) {
                Some(level) => r == Ok::<LogLevel, ConfigError>(level),
                None => r matches Err(e) && is_parse_error(e, line as int, level_error(value@)),
            },
    {
        let u = chars_of(unquote_text(value));
        assert(u@.subrange(0, u.len() as int) =~= u@);
        if range_eq_ignoring_ascii_case(&u, 0, u.len(), &chars_of("error")) {
            Ok(LogLevel::Error)
        } else if range_eq_ignoring_ascii_case(&u, 0, u.len(), &chars_of("warn")) {
            Ok(LogLevel::Warn)
        } else if range_eq_ignoring_ascii_case(&u, 0, u.len(), &chars_of("info")) {
            Ok(LogLevel::Info)
        } else if range_eq_ignoring_ascii_case(&u, 0, u.len(), &chars_of("debug")) {
            Ok(LogLevel::Debug)
        } else if range_eq_ignoring_ascii_case(&u, 0, u.len(), &chars_of("trace")) {
            Ok(LogLevel::Trace)
        } else {
            Err(
                ConfigError::Parse {
                    line,
                    message: quoted_message("invalid log level `", value),
                },
            )
        }
    }
}

/// The text form of a boolean.
fn bool_str(b: bool) -> (r: &'static str)
    ensures
        r@ == bool_text(b),
{
    if b {
        "true"
    } else {
        "false"
    }
}

/// Applies the setting `key = value` of line `line` to `config`.
fn apply_setting_text(config: AppConfig, key: &str, value: &str, line: usize) -> (r: Result<
    AppConfig,
    ConfigError,
>)
    ensures
        match apply_setting(config, key@, value@) {
            Ok(c) => r == Ok::<AppConfig, ConfigError>(c),
            Err(m) => r matches Err(e) && is_parse_error(e, line as int, m),
        },
{
    let mut config = config;
    if text_is(key, "enabled") {
        config.enabled = parse_bool(value, line)?;
    } else if text_is(key, "start_with_windows") {
        config.start_with_windows = parse_bool(value, line)?;
    } else if text_is(key, "retry_count") {
        config.retry_count = parse_u32(value, line)?;
    } else if text_is(key, "retry_delay_ms") {
        config.retry_delay_ms = parse_u64(value, line)?;
    } else if text_is(key, "write_png") {
        config.write_png = parse_bool(value, line)?;
    } else if text_is(key, "write_dib") {
        config.write_dib = parse_bool(value, line)?;
    } else if text_is(key, "log_level") {
        config.log_level = LogLevel::parse(value, line)?;
    } else {
        return Err(
            ConfigError::Parse { line, message: quoted_message("unknown key `", key) },
        );
    }
    Ok(config)
}

/// Applies line `line_number` of the settings text, `raw`, to `config`.
fn apply_line_text(config: AppConfig, raw: &str, line_number: usize) -> (r: Result<
    AppConfig,
    ConfigError,
>)
    ensures
        match apply_line(config, raw@) {
            Ok(c) => r == Ok::<AppConfig, ConfigError>(c),
            Err(m) => r matches Err(e) && is_parse_error(e, line_number as int, m),
        },
{
    let line = trim_text(strip_comment(raw));
    let v = chars_of(line);
    if v.len() == 0 {
        return Ok(config);
    }
    let e = find_char(&v, 0, v.len(), '=');
    assert(v@.subrange(0, v.len() as int) =~= v@);
    if e == v.len() {
        return Err(
            ConfigError::Parse { line: line_number, message: "expected key = value".to_owned() },
        );
    }
    let key = trim_text(line.substring_char(0, e));
    let value = trim_text(line.substring_char(e + 1, v.len()));
    assert(line@.take(e as int) =~= line@.subrange(0, e as int));
    assert(line@.skip(e + 1) =~= line@.subrange(e + 1, v.len() as int));
    apply_setting_text(config, key, value, line_number)
}

impl AppConfig {
    /// Reads settings text: starting from the defaults, each `key = value`
    /// line sets one setting; `#` starts a comment and blank lines are skipped.
    /// The first line that cannot be read makes the whole text fail.
    pub fn parse(input: &str) -> (r: Result<AppConfig, ConfigError>)
        ensures
            match parse_config(input@) {
                Ok(c) => r == Ok::<AppConfig, ConfigError>(c),
                Err((n, m)) => r matches Err(e) && is_parse_error(e, n, m),
            },
    {
        let s = chars_of(input);
        let mut config = AppConfig::default();
        let mut pos: usize = 0;
        let mut done: usize = 0;
        assert(s@.skip(0) =~= s@);
        while pos < s.len()
            invariant
                pos <= s.len(),
                done <= pos,
                s@ == input@,
                parse_config(input@) == apply_lines(
                    config,
                    lines(s@.skip(pos as int)),
                    done + 1,
                ),
            decreases s.len() - pos,
        {
            let ghost t = s@.skip(pos as int);
            let nl = find_char(&s, pos, s.len(), '\n');
            assert(s@.subrange(pos as int, s.len() as int) =~= t);
            let mut hi = nl;
            let mut next = nl;
            if nl < s.len() {
                next = nl + 1;
                if nl > pos && s[nl - 1] == '\r' {
                    hi = nl - 1;
                }
            }
            proof {
                let i = index_of(t, '\n');
                let line = s@.subrange(pos as int, hi as int);
                let rest = lines(s@.skip(next as int));
                if nl < s.len() {
                    assert(t.skip(i + 1 as int) =~= s@.skip(next as int));
                    assert(t.take(i as int) =~= s@.subrange(pos as int, nl as int));
                    if nl > pos && s@[nl - 1] == '\r' {
                        assert(strip_cr(t.take(i as int)) =~= line);
                    } else {
                        assert(strip_cr(t.take(i as int)) =~= line);
                    }
                } else {
                    assert(t =~= line);
                    assert(s@.skip(next as int) =~= Seq::<char>::empty());
                    assert(rest =~= Seq::<Seq<char>>::empty());
                }
                assert(lines(t) =~= seq![line] + rest);
                assert((seq![line] + rest).drop_first() =~= rest);
            }
            let raw = input.substring_char(pos, hi);
            config = apply_line_text(config, raw, done + 1)?;
            pos = next;
            done = done + 1;
        }
        assert(s@.skip(pos as int) =~= Seq::<char>::empty());
        assert(lines(s@.skip(pos as int)) =~= Seq::<Seq<char>>::empty());
        Ok(config)
    }

    /// The settings as text, in the form that `parse` reads.
    pub fn to_toml(&self) -> (s: String)
        ensures
            s@ == toml_text(*self),
    {
        let ghost ls = toml_lines(*self);
        let mut s = String::new();
        assert(ls.skip(0) =~= ls);
        let line = setting_text("enabled", bool_str(self.enabled));
        push_line(&mut s, line.as_str(), Ghost(ls), Ghost(0));
        let line = setting_text("start_with_windows", bool_str(self.start_with_windows));
        push_line(&mut s, line.as_str(), Ghost(ls), Ghost(1));
        let line = setting_text("retry_count", decimal_string(self.retry_count as u64).as_str());
        push_line(&mut s, line.as_str(), Ghost(ls), Ghost(2));
        let line = setting_text("retry_delay_ms", decimal_string(self.retry_delay_ms).as_str());
        push_line(&mut s, line.as_str(), Ghost(ls), Ghost(3));
        let line = setting_text("write_png", bool_str(self.write_png));
        push_line(&mut s, line.as_str(), Ghost(ls), Ghost(4));
        let line = setting_text("write_dib", bool_str(self.write_dib));
        push_line(&mut s, line.as_str(), Ghost(ls), Ghost(5));
        let line = setting_text("log_level", quoted_string(self.log_level.as_str()).as_str());
        push_line(&mut s, line.as_str(), Ghost(ls), Ghost(6));
        assert(ls.skip(7) =~= Seq::<Seq<char>>::empty());
        assert(s@ + Seq::<char>::empty() =~= s@);
        s
    }
}

/// The line `key = value`.
fn setting_text(key: &str, value: &str) -> (r: String)
    ensures
        r@ == setting_line(key@, value@),
{
    let mut line = key.to_owned();
    line.append(" = ");
    line.append(value);
    line
}

/// The decimal digits of `n`.
fn decimal_string(n: u64) -> (r: String)
    ensures
        r@ == decimal_text(n as nat),
{
    let mut r = String::new();
    push_decimal(&mut r, n);
    assert(Seq::<char>::empty() + decimal_text(n as nat) =~= decimal_text(n as nat));
    r
}

/// `t` between double quotes.
fn quoted_string(t: &str) -> (r: String)
    ensures
        r@ == quoted(t@),
{
    let mut r = "\"".to_owned();
    r.append(t);
    r.append("\"");
    r
}

/// Appends line `i` of `ls` and its line end to `s`, which holds the lines before it.
fn push_line(s: &mut String, line: &str, Ghost(ls): Ghost<Seq<Seq<char>>>, Ghost(i): Ghost<int>)
    requires
        0 <= i < ls.len(),
        ls[i] == line@,
        old(s)@ + join_lines(ls.skip(i)) == join_lines(ls),
    ensures
        final(s)@ + join_lines(ls.skip(i + 1)) == join_lines(ls),
{
    let ghost before = s@;
    s.append(line);
    s.append("\n");
    proof {
        assert(ls.skip(i).drop_first() =~= ls.skip(i + 1));
        let rest = join_lines(ls.skip(i + 1));
        assert(join_lines(ls.skip(i)) == line@ + "\n"@ + rest);
        assert(before + (line@ + "\n"@ + rest) =~= before + line@ + "\n"@ + rest);
    }
}

/// The name of the application's directory inside the user's configuration directory.
pub const APP_DIR_NAME: &'static str = "ParallelsClipboardFix";

/// Where the user's configuration directory comes from.
#[derive(Debug, Clone, Copy, PartialEq, Eq, Structural)]
pub enum ConfigDirSource {
    /// The directory that `APPDATA` names.
    AppData,
    /// The directory that `XDG_CONFIG_HOME` names.
    XdgConfigHome,
    /// `.config` in the directory that `HOME` names.
    HomeConfig,
}

/// The first source that is set, in the order `APPDATA`, `XDG_CONFIG_HOME`, `HOME`.
pub open spec fn spec_config_dir_source(appdata: bool, xdg_config_home: bool, home: bool) -> Option<
    ConfigDirSource,
> {
    if appdata {
        Some(ConfigDirSource::AppData)
    } else if xdg_config_home {
        Some(ConfigDirSource::XdgConfigHome)
    } else if home {
        Some(ConfigDirSource::HomeConfig)
    } else {
        None
    }
}

/// Which source the configuration directory is taken from, given which are set.
pub fn config_dir_source(appdata: bool, xdg_config_home: bool, home: bool) -> (r: Option<
    ConfigDirSource,
>)
    ensures
        r == spec_config_dir_source(appdata, xdg_config_home, home),
{
    if appdata {
        Some(ConfigDirSource::AppData)
    } else if xdg_config_home {
        Some(ConfigDirSource::XdgConfigHome)
    } else if home {
        Some(ConfigDirSource::HomeConfig)
    } else {
        None
    }
}

/// The application's configuration directory for the values of `APPDATA`,
/// `XDG_CONFIG_HOME` and `HOME`, or `None` when none is set.
pub open spec fn spec_config_dir(
    appdata: Option<std::path::PathBuf>,
    xdg_config_home: Option<std::path::PathBuf>,
    home: Option<std::path::PathBuf>,
) -> Option<std::path::PathBuf> {
    match appdata {
        Some(a) => Some(joined_path(a, APP_DIR_NAME@)),
        None => match xdg_config_home {
            Some(x) => Some(joined_path(x, APP_DIR_NAME@)),
            None => match home {
                Some(h) => Some(joined_path(joined_path(h, ".config"@), APP_DIR_NAME@)),
                None => None,
            },
        },
    }
}

/// The application's configuration directory, from the values of `APPDATA`,
/// `XDG_CONFIG_HOME` and `HOME` (the first that is set wins; under `HOME` it
/// is inside `.config`). Without any of them there is none.
pub fn config_dir(
    appdata: Option<std::path::PathBuf>,
    xdg_config_home: Option<std::path::PathBuf>,
    home: Option<std::path::PathBuf>,
) -> (r: Result<std::path::PathBuf, ConfigError>)
    ensures
        match spec_config_dir(appdata, xdg_config_home, home) {
            Some(d) => r matches Ok(p) && p == d,
            None => r matches Err(ConfigError::MissingConfigDirectory),
        },
{
    let base = match config_dir_source(appdata.is_some(), xdg_config_home.is_some(), home.is_some()) {
        Some(ConfigDirSource::AppData) => match appdata {
            Some(p) => p,
            None => return Err(ConfigError::MissingConfigDirectory),
        },
        Some(ConfigDirSource::XdgConfigHome) => match xdg_config_home {
            Some(p) => p,
            None => return Err(ConfigError::MissingConfigDirectory),
        },
        Some(ConfigDirSource::HomeConfig) => match home {
            Some(p) => path_join(&p, ".config"),
            None => return Err(ConfigError::MissingConfigDirectory),
        },
        None => return Err(ConfigError::MissingConfigDirectory),
    };
    Ok(path_join(&base, APP_DIR_NAME))
}

/// The settings file inside the configuration directory (see `config_dir`).
pub fn default_config_path(
    appdata: Option<std::path::PathBuf>,
    xdg_config_home: Option<std::path::PathBuf>,
    home: Option<std::path::PathBuf>,
) -> (r: Result<std::path::PathBuf, ConfigError>)
    ensures
        match spec_config_dir(appdata, xdg_config_home, home) {
            Some(d) => r matches Ok(p) && p == joined_path(d, CONFIG_FILE_NAME@),
            None => r matches Err(ConfigError::MissingConfigDirectory),
        },
{
    match config_dir(appdata, xdg_config_home, home) {
        Ok(directory) => Ok(path_join(&directory, CONFIG_FILE_NAME)),
        Err(e) => Err(e),
    }
}

/// `t` starts with `prefix`.
pub open spec fn starts_with(t: Seq<char>, prefix: Seq<char>) -> bool {
    t.len() >= prefix.len() && t.take(prefix.len() as int) == prefix
}

/// The text of an error that is not an I/O error (`None` for an I/O error,
/// whose text comes from the operating system).
pub open spec fn spec_config_error_message(e: ConfigError) -> Option<Seq<char>> {
    match e {
        ConfigError::Io(_) => None,
        ConfigError::MissingConfigDirectory => Some("could not find config directory"@),
        ConfigError::Parse { line, message } => Some(
            "config parse error on line "@ + decimal_text(line as nat) + ": "@ + message@,
        ),
    }
}

impl ConfigError {
    /// The text that describes the error.
    pub fn message(&self) -> (t: String)
        ensures
            spec_config_error_message(*self) matches Some(m) ==> t@ == m,
            match self {
                ConfigError::Io(_) => starts_with(t@, "config I/O error: "@),
                ConfigError::MissingConfigDirectory => t@ == "could not find config directory"@,
                ConfigError::Parse { line, message } => t@ == "config parse error on line "@
                    + decimal_text(*line as nat) + ": "@ + message@,
            },
    {
        match self {
            ConfigError::Io(error) => {
                let mut t = "config I/O error: ".to_owned();
                let ghost prefix = t@;
                t.append(io_error_text(error).as_str());
                assert(t@.take(prefix.len() as int) =~= prefix);
                t
            },
            ConfigError::MissingConfigDirectory => "could not find config directory".to_owned(),
            ConfigError::Parse { line, message } => {
                let mut t = "config parse error on line ".to_owned();
                push_decimal(&mut t, *line as u64);
                t.append(": ");
                t.append(message.as_str());
                t
            },
        }
    }
}

} // verus!
