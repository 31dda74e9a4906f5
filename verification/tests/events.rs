use parallels_clipboard_fix::config::AppConfig;
use parallels_clipboard_fix::events::app_event_from_watcher;
use parallels_clipboard_fix::events::handle_event;
use parallels_clipboard_fix::events::AppAction;
use parallels_clipboard_fix::events::AppEvent;
use parallels_clipboard_fix::tray::TrayCommand;
use parallels_clipboard_fix::watcher::WatcherEvent;
use parallels_clipboard_fix::wide::encode_utf16;
use parallels_clipboard_fix::wide::wide_null;

#[test]
fn watcher_reports_become_repairs() {
    assert_eq!(app_event_from_watcher(WatcherEvent::ClipboardChanged), AppEvent::ClipboardChanged);
    assert_eq!(
        app_event_from_watcher(WatcherEvent::RetryRequested { attempt: 3 }),
        AppEvent::RetryRequested
    );
    let mut config = AppConfig::default();
    assert_eq!(handle_event(&mut config, AppEvent::RetryRequested, false), AppAction::FixClipboard);
    assert_eq!(
        handle_event(&mut config, AppEvent::TrayCommand(TrayCommand::FixNow), false),
        AppAction::FixClipboardNow
    );
    assert_eq!(config, AppConfig::default());
}

#[test]
fn toggling_twice_restores_settings() {
    let mut config = AppConfig::default();
    let toggle = AppEvent::TrayCommand(TrayCommand::ToggleEnabled);
    assert_eq!(handle_event(&mut config, toggle, false), AppAction::SaveConfig);
    assert!(!config.enabled);
    assert_eq!(handle_event(&mut config, toggle, false), AppAction::SaveConfig);
    assert_eq!(config, AppConfig::default());
}

#[test]
fn startup_toggle_depends_on_shortcut() {
    let mut config = AppConfig::default();
    let toggle = AppEvent::TrayCommand(TrayCommand::ToggleStartup);
    assert_eq!(handle_event(&mut config, toggle, true), AppAction::RemoveStartupShortcut);
    assert_eq!(handle_event(&mut config, toggle, false), AppAction::InstallStartupShortcut);
    assert_eq!(
        handle_event(&mut config, AppEvent::TrayCommand(TrayCommand::Quit), false),
        AppAction::Exit
    );
}

#[test]
fn utf16_matches_std() {
    for text in ["", "abc", "héllo", "😀 smile", "\u{ffff}\u{10000}"] {
        let expected: Vec<u16> = text.encode_utf16().collect();
        assert_eq!(encode_utf16(text), expected);
    }
    assert_eq!(encode_utf16("😀"), vec![0xD83D, 0xDE00]);
    assert_eq!(wide_null("PNG"), vec![80, 78, 71, 0]);
}
