use std::path::PathBuf;

use parallels_clipboard_fix::startup::hresult;
use parallels_clipboard_fix::startup::startup_shortcut_path;
use parallels_clipboard_fix::startup::wide_path;
use parallels_clipboard_fix::startup::StartupError;
use parallels_clipboard_fix::startup::StartupShortcut;
use parallels_clipboard_fix::startup::SHORTCUT_FILE_NAME;

#[test]
fn shortcut_name_is_lnk() {
    assert_eq!(SHORTCUT_FILE_NAME, "ParallelsClipboardFix.lnk");
}

#[test]
fn shortcut_lives_in_startup_folder() {
    let expected = PathBuf::from("roaming")
        .join("Microsoft")
        .join("Windows")
        .join("Start Menu")
        .join("Programs")
        .join("Startup")
        .join("ParallelsClipboardFix.lnk");
    assert_eq!(startup_shortcut_path(Some(PathBuf::from("roaming"))).unwrap(), expected);
    let shortcut = StartupShortcut::new(Some(PathBuf::from("roaming"))).unwrap();
    assert_eq!(shortcut.path(), &expected);
    assert!(matches!(
        StartupShortcut::new(None),
        Err(StartupError::MissingStartupDirectory)
    ));
}

#[test]
fn negative_hresults_fail() {
    assert!(hresult(0, "op").is_ok());
    assert!(hresult(1, "op").is_ok());
    assert!(matches!(
        hresult(-2147467259, "IPersistFile::Save"),
        Err(StartupError::ComFailed("IPersistFile::Save"))
    ));
}

#[test]
fn wide_paths_end_with_zero() {
    assert_eq!(wide_path(Some("C:\\a")).unwrap(), vec![67, 58, 92, 97, 0]);
    assert!(matches!(wide_path(None), Err(StartupError::InvalidPath)));
}

#[test]
fn startup_error_messages() {
    assert_eq!(
        StartupError::ComFailed("CoInitializeEx").message(),
        "startup shortcut COM call failed: CoInitializeEx"
    );
    assert_eq!(
        StartupError::MissingStartupDirectory.message(),
        "could not find the user Startup folder"
    );
}
