//! What the log keeps and how its lines read.
use vstd::prelude::*;
use vstd::string::StrSliceExecFns;
use vstd::string::StringExecFns;

use crate::config::config_dir;
use crate::config_laws::lemma_decimal_text;
use crate::config::level_text;
use crate::config::starts_with;
use crate::config::ConfigError;
use crate::config::LogLevel;
use crate::platform::io_error_text;
use crate::config::spec_config_dir;
use crate::config::spec_config_error_message;
use crate::platform::joined_path;
use crate::platform::path_join;
use crate::text::chars_of;
use crate::text::decimal_text;
use crate::text::push_decimal;

verus! {

/// The name of the log file inside the configuration directory.
pub const LOG_FILE_NAME: &'static str = "ParallelsClipboardFix.log";

/// Why the log could not be opened.
#[derive(Debug)]
pub enum LoggerError {
    Io(std::io::Error),
    Config(ConfigError),
}

/// The severity rank of a level: errors rank lowest, tracing highest.
pub open spec fn spec_level_rank(level: LogLevel) -> nat {
    match level {
        LogLevel::Error => 1,
        LogLevel::Warn => 2,
        LogLevel::Info => 3,
        LogLevel::Debug => 4,
        LogLevel::Trace => 5,
    }
}

/// Whether a log set to `configured` keeps a message of level `event`.
pub open spec fn spec_level_enabled(configured: LogLevel, event: LogLevel) -> bool {
    spec_level_rank(event) <= spec_level_rank(configured)
}

/// `t` with each carriage return and line feed turned into a space.
pub open spec fn sanitize(t: Seq<char>) -> Seq<char> {
    Seq::new(
        t.len(),
        |i: int|
            if t[i] == '\r' || t[i] == '\n' {
                ' '
            } else {
                t[i]
            },
    )
}

/// The severity rank of a level.
pub fn level_rank(level: LogLevel) -> (r: u8)
    ensures
        r == spec_level_rank(level),
{
    match level {
        LogLevel::Error => 1,
        LogLevel::Warn => 2,
        LogLevel::Info => 3,
        LogLevel::Debug => 4,
        LogLevel::Trace => 5,
    }
}

/// Whether a log set to `configured` keeps a message of level `event`.
pub fn level_enabled(configured: LogLevel, event: LogLevel) -> (r: bool)
    ensures
        r == spec_level_enabled(configured, event),
{
    level_rank(event) <= level_rank(configured)
}

/// A log level keeps its own messages and those of every more severe level;
/// errors are always kept.
pub proof fn lemma_level_enabled_order(configured: LogLevel, event: LogLevel, other: LogLevel)
    ensures
        spec_level_enabled(configured, configured),
        spec_level_enabled(configured, LogLevel::Error),
        spec_level_enabled(configured, event) && spec_level_rank(other) <= spec_level_rank(event)
            ==> spec_level_enabled(configured, other),
        spec_level_enabled(LogLevel::Trace, event),
{
}

/// The message with each line break turned into a space, so that it stays on
/// one line of the log.
pub fn sanitize_message(message: &str) -> (r: String)
    ensures
        r@ == sanitize(message@),
        r@.len() == message@.len(),
        forall|i: int| 0 <= i < r@.len() ==> #[trigger] r@[i] != '\r' && r@[i] != '\n',
{
    let v = chars_of(message);
    let mut r = String::new();
    let mut start: usize = 0;
    let mut i: usize = 0;
    while i < v.len()
        invariant
            start <= i <= v.len(),
            v@ == message@,
            r@ + v@.subrange(start as int, i as int) == sanitize(v@.take(i as int)),
            forall|k: int| start <= k < i ==> v@[k] != '\r' && v@[k] != '\n',
        decreases v.len() - i,
    {
        let ghost before = r@;
        if v[i] == '\r' || v[i] == '\n' {
            r.append(message.substring_char(start, i));
            r.append(" ");
            proof {
                reveal_strlit(" ");
                assert(r@ =~= sanitize(v@.take(i + 1)));
            }
            start = i + 1;
            i = i + 1;
            assert(v@.subrange(start as int, i as int) =~= Seq::<char>::empty());
            assert(r@ + v@.subrange(start as int, i as int) =~= r@);
        } else {
            assert(sanitize(v@.take(i + 1)) =~= sanitize(v@.take(i as int)).push(v@[i as int]));
            assert(v@.subrange(start as int, i + 1) =~= v@.subrange(start as int, i as int).push(
                v@[i as int],
            ));
            assert(before + v@.subrange(start as int, i + 1) =~= (before + v@.subrange(
                start as int,
                i as int,
            )).push(v@[i as int]));
            i = i + 1;
        }
    }
    r.append(message.substring_char(start, v.len()));
    assert(v@.take(v.len() as int) =~= v@);
    r
}

/// One line of the log, without its line end: the time in seconds since the
/// Unix epoch, the level in brackets, and the message on one line.
pub fn format_log_line(timestamp: u64, level: LogLevel, message: &str) -> (r: String)
    ensures
        r@ == decimal_text(timestamp as nat) + " ["@ + level_text(level) + "] "@ + sanitize(
            message@,
        ),
{
    let mut line = String::new();
    push_decimal(&mut line, timestamp);
    assert(Seq::<char>::empty() + decimal_text(timestamp as nat) =~= decimal_text(
        timestamp as nat,
    ));
    line.append(" [");
    line.append(level.as_str());
    line.append("] ");
    line.append(sanitize_message(message).as_str());
    line
}

/// Every log line stays on one line, whatever the message holds.
pub proof fn lemma_log_line_is_one_line(timestamp: u64, level: LogLevel, message: Seq<char>)
    ensures
        ({
            let line = decimal_text(timestamp as nat) + " ["@ + level_text(level) + "] "@
                + sanitize(message);
            forall|i: int| 0 <= i < line.len() ==> #[trigger] line[i] != '\n' && line[i] != '\r'
        }),
{
    reveal_strlit(" [");
    reveal_strlit("] ");
    reveal_strlit("error");
    reveal_strlit("warn");
    reveal_strlit("info");
    reveal_strlit("debug");
    reveal_strlit("trace");
    lemma_decimal_text(timestamp as nat);
    let d = decimal_text(timestamp as nat);
    let l = level_text(level);
    let m = sanitize(message);
    let line = d + " ["@ + l + "] "@ + m;
    assert forall|i: int| 0 <= i < line.len() implies #[trigger] line[i] != '\n' && line[i]
        != '\r' by {
        if i < d.len() {
            assert(line[i] == d[i]);
        } else if i < d.len() + 2 {
        } else if i < d.len() + 2 + l.len() {
            assert(line[i] == l[i - d.len() - 2]);
        } else if i < d.len() + 4 + l.len() {
        } else {
            assert(line[i] == m[i - d.len() - 4 - l.len()]);
        }
    }
}

/// The log file inside the configuration directory (see `config_dir`).
pub fn default_log_path(
    appdata: Option<std::path::PathBuf>,
    xdg_config_home: Option<std::path::PathBuf>,
    home: Option<std::path::PathBuf>,
) -> (r: Result<std::path::PathBuf, LoggerError>)
    ensures
        match spec_config_dir(appdata, xdg_config_home, home) {
            Some(d) => r matches Ok(p) && p == joined_path(d, LOG_FILE_NAME@),
            None => r matches Err(LoggerError::Config(ConfigError::MissingConfigDirectory)),
        },
{
    match config_dir(appdata, xdg_config_home, home) {
        Ok(directory) => Ok(path_join(&directory, LOG_FILE_NAME)),
        Err(e) => Err(LoggerError::Config(e)),
    }
}

impl LoggerError {
    /// The text that describes the error.
    pub fn message(&self) -> (t: String)
        ensures
            match self {
                LoggerError::Io(_) => starts_with(t@, "logger I/O error: "@),
                LoggerError::Config(e) => match spec_config_error_message(*e) {
                    Some(m) => t@ == "logger path error: "@ + m,
                    None => starts_with(t@, "logger path error: config I/O error: "@),
                },
            },
    {
        match self {
            LoggerError::Io(error) => {
                let mut t = "logger I/O error: ".to_owned();
                let ghost prefix = t@;
                t.append(io_error_text(error).as_str());
                assert(t@.take(prefix.len() as int) =~= prefix);
                t
            },
            LoggerError::Config(error) => {
                let mut t = "logger path error: ".to_owned();
                let detail = error.message();
                let ghost prefix = t@;
                t.append(detail.as_str());
                proof {
                    if spec_config_error_message(*error) is None {
                        reveal_strlit("logger path error: ");
                        reveal_strlit("config I/O error: ");
                        reveal_strlit("logger path error: config I/O error: ");
                        let q = "config I/O error: "@;
                        assert(detail@.take(q.len() as int) == q);
                        let whole = "logger path error: config I/O error: "@;
                        assert(whole =~= prefix + q);
                        assert(t@.take(whole.len() as int) =~= whole) by {
                            assert forall|i: int| 0 <= i < whole.len() implies t@[i] == whole[i] by {
                                if i >= prefix.len() {
                                    assert(t@[i] == detail@[i - prefix.len()]);
                                    assert(detail@.take(q.len() as int)[i - prefix.len()] == q[i - prefix.len()]);
                                }
                            }
                        }
                    }
                }
                t
            },
        }
    }
}

} // verus!
