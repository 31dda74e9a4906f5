//! Standard library types that values of this library carry but never look into.
use vstd::prelude::*;

verus! {

/// `std::io::Error`, carried by the error enums of the library.
#[verifier::external_type_specification]
#[verifier::external_body]
pub struct ExIoError(std::io::Error);

/// `std::time::Instant`, the moment of the last repair of the clipboard.
#[verifier::external_type_specification]
#[verifier::external_body]
pub struct ExInstant(std::time::Instant);

/// `Instant::now`: the present moment. Nothing is stated of it.
#[verifier::external_body]
pub fn now() -> (t: std::time::Instant) {
    std::time::Instant::now()
}

/// `Instant::elapsed`: the time that has passed since `since`. It depends on
/// the clock, so nothing is stated of it.
#[verifier::external_body]
pub fn elapsed(since: &std::time::Instant) -> (d: std::time::Duration) {
    since.elapsed()
}

/// `Duration::as_millis`: the whole milliseconds in `d`. Nothing is stated of
/// it, for `Duration` is opaque here.
#[verifier::external_body]
pub fn whole_millis(d: &std::time::Duration) -> (ms: u128) {
    d.as_millis()
}

/// What `Duration::from_millis` gives for `ms` milliseconds.
pub uninterp spec fn duration_of_millis(ms: u64) -> std::time::Duration;

/// `Duration::from_millis`: a duration of `ms` milliseconds. Its result depends
/// on `ms` alone.
#[verifier::external_body]
pub fn duration_from_millis(ms: u64) -> (d: std::time::Duration)
    ensures
        d == duration_of_millis(ms),
{
    std::time::Duration::from_millis(ms)
}

/// `std::path::PathBuf`, the paths of the settings, the log and the shortcut.
#[verifier::external_type_specification]
#[verifier::external_body]
pub struct ExPathBuf(std::path::PathBuf);

/// What `Path::join` gives for `base` and `part`.
pub uninterp spec fn joined_path(base: std::path::PathBuf, part: Seq<char>) -> std::path::PathBuf;

/// `Path::join`: `base` with `part` added as its last component. Its result
/// depends on `base` and `part` alone.
#[verifier::external_body]
pub fn path_join(base: &std::path::PathBuf, part: &str) -> (p: std::path::PathBuf)
    ensures
        p == joined_path(*base, part@),
{
    base.join(part)
}

/// The text of an I/O error, as its `Display` writes it. Nothing is stated of it.
#[verifier::external_body]
pub fn io_error_text(error: &std::io::Error) -> (t: String) {
    format!("{error}")
}

} // verus!
