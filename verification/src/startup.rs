//! Starting with Windows: where the shortcut lives, and how the results of
//! the shell's COM calls are judged.
use vstd::prelude::*;
use vstd::string::StringExecFns;

use crate::config::starts_with;
use crate::platform::io_error_text;
use crate::platform::joined_path;
use crate::platform::path_join;
use crate::wide::utf16;
use crate::wide::wide_null;

verus! {

/// The name of the shortcut in the user's Startup folder.
pub const SHORTCUT_FILE_NAME: &'static str = "ParallelsClipboardFix.lnk";

/// The description that the shortcut carries.
pub const SHORTCUT_DESCRIPTION: &'static str = "ParallelsClipboardFix";

/// The `HRESULT` of success, `S_OK`; negative results are failures.
pub const S_OK: i32 = 0;

/// Why the startup shortcut could not be managed.
#[derive(Debug)]
pub enum StartupError {
    UnsupportedPlatform,
    MissingStartupDirectory,
    InvalidPath,
    Io(std::io::Error),
    ComFailed(&'static str),
}

/// The shortcut in the Startup folder below `appdata`:
/// `Microsoft\Windows\Start Menu\Programs\Startup\ParallelsClipboardFix.lnk`.
pub open spec fn spec_startup_shortcut_path(appdata: std::path::PathBuf) -> std::path::PathBuf {
    joined_path(
        joined_path(
            joined_path(
                joined_path(joined_path(joined_path(appdata, "Microsoft"@), "Windows"@), "Start Menu"@),
                "Programs"@,
            ),
            "Startup"@,
        ),
        SHORTCUT_FILE_NAME@,
    )
}

/// The path of the shortcut in the user's Startup folder, from the value of
/// `APPDATA`: `Microsoft\Windows\Start Menu\Programs\Startup` below it.
pub fn startup_shortcut_path(appdata: Option<std::path::PathBuf>) -> (r: Result<
    std::path::PathBuf,
    StartupError,
>)
    ensures
        match appdata {
            Some(a) => r matches Ok(p) && p == spec_startup_shortcut_path(a),
            None => r matches Err(StartupError::MissingStartupDirectory),
        },
{
    match appdata {
        Some(base) => {
            let directory = path_join(&base, "Microsoft");
            let directory = path_join(&directory, "Windows");
            let directory = path_join(&directory, "Start Menu");
            let directory = path_join(&directory, "Programs");
            let directory = path_join(&directory, "Startup");
            Ok(path_join(&directory, SHORTCUT_FILE_NAME))
        },
        None => Err(StartupError::MissingStartupDirectory),
    }
}

/// The shortcut that starts the application with Windows.
#[derive(Debug)]
pub struct StartupShortcut {
    path: std::path::PathBuf,
}

impl StartupShortcut {
    pub closed spec fn spec_path(self) -> std::path::PathBuf {
        self.path
    }

    /// The shortcut in the Startup folder below the value of `APPDATA`.
    pub fn new(appdata: Option<std::path::PathBuf>) -> (r: Result<StartupShortcut, StartupError>)
        ensures
            match appdata {
                Some(a) => r matches Ok(s) && s.spec_path() == spec_startup_shortcut_path(a),
                None => r matches Err(StartupError::MissingStartupDirectory),
            },
    {
        match startup_shortcut_path(appdata) {
            Ok(path) => Ok(StartupShortcut { path }),
            Err(e) => Err(e),
        }
    }

    /// Where the shortcut lives.
    pub fn path(&self) -> (p: &std::path::PathBuf)
        ensures
            *p == self.spec_path(),
    {
        &self.path
    }
}

/// Judges the result of a COM call: a negative `HRESULT` fails with the
/// name of the operation.
pub fn hresult(result: i32, operation: &'static str) -> (r: Result<(), StartupError>)
    ensures
        result >= S_OK ==> r is Ok,
        result < S_OK ==> (r matches Err(StartupError::ComFailed(op)) && op == operation),
{
    if result < S_OK {
        Err(StartupError::ComFailed(operation))
    } else {
        Ok(())
    }
}

/// A path as a 0-ended UTF-16 text; a path that is not valid Unicode (given
/// here as `None`) cannot be handed to the Windows API.
pub fn wide_path(path: Option<&str>) -> (r: Result<Vec<u16>, StartupError>)
    ensures
        match path {
            Some(p) => r matches Ok(v) && v@ == utf16(p@).push(0),
            None => r matches Err(StartupError::InvalidPath),
        },
{
    match path {
        Some(p) => Ok(wide_null(p)),
        None => Err(StartupError::InvalidPath),
    }
}

impl StartupError {
    /// The text that describes the error.
    pub fn message(&self) -> (t: String)
        ensures
            match self {
                StartupError::UnsupportedPlatform => t@ == "startup shortcuts are Windows-only"@,
                StartupError::MissingStartupDirectory => t@
                    == "could not find the user Startup folder"@,
                StartupError::InvalidPath => t@ == "path cannot be represented for Windows APIs"@,
                StartupError::Io(_) => starts_with(t@, "startup shortcut I/O error: "@),
                StartupError::ComFailed(operation) => t@ == "startup shortcut COM call failed: "@
                    + operation@,
            },
    {
        match self {
            StartupError::UnsupportedPlatform => "startup shortcuts are Windows-only".to_owned(),
            StartupError::MissingStartupDirectory => "could not find the user Startup folder".to_owned(),
            StartupError::InvalidPath => "path cannot be represented for Windows APIs".to_owned(),
            StartupError::Io(error) => {
                let mut t = "startup shortcut I/O error: ".to_owned();
                let ghost prefix = t@;
                t.append(io_error_text(error).as_str());
                assert(t@.take(prefix.len() as int) =~= prefix);
                t
            },
            StartupError::ComFailed(operation) => {
                let mut t = "startup shortcut COM call failed: ".to_owned();
                t.append(operation);
                t
            },
        }
    }
}

} // verus!
