use parallels_clipboard_fix::tray::menu_entries;
use parallels_clipboard_fix::tray::tray_action;
use parallels_clipboard_fix::tray::write_tip;
use parallels_clipboard_fix::tray::MenuEntry;
use parallels_clipboard_fix::tray::MenuItemId;
use parallels_clipboard_fix::tray::TrayAction;
use parallels_clipboard_fix::tray::TrayCommand;
use parallels_clipboard_fix::tray::TrayError;
use parallels_clipboard_fix::tray::TrayState;
use parallels_clipboard_fix::tray::WM_APP_TRAY;
use parallels_clipboard_fix::tray::WM_CLOSE;
use parallels_clipboard_fix::tray::WM_COMMAND;
use parallels_clipboard_fix::tray::WM_DESTROY;
use parallels_clipboard_fix::tray::WM_NCCREATE;
use parallels_clipboard_fix::tray::WM_RBUTTONUP;

#[test]
fn maps_menu_ids_to_commands() {
    assert_eq!(
        MenuItemId::from_u16(1001).map(MenuItemId::command),
        Some(TrayCommand::FixNow)
    );
    assert_eq!(
        MenuItemId::from_u16(1004).map(MenuItemId::command),
        Some(TrayCommand::Quit)
    );
    assert_eq!(MenuItemId::from_u16(9999), None);
}

#[test]
fn menu_numbers_read_back() {
    for item in [
        MenuItemId::FixNow,
        MenuItemId::ToggleEnabled,
        MenuItemId::ToggleStartup,
        MenuItemId::Quit,
    ] {
        assert_eq!(MenuItemId::from_u16(item.number()), Some(item));
    }
    assert_eq!(MenuItemId::from_u16(1000), None);
    assert_eq!(MenuItemId::from_u16(1005), None);
}

#[test]
fn menu_labels_follow_state() {
    let menu = menu_entries(TrayState { enabled: true, start_with_windows: false });
    assert_eq!(menu.len(), 6);
    assert_eq!(menu[0], MenuEntry::Item { id: MenuItemId::FixNow, label: "Fix clipboard now" });
    assert_eq!(menu[1], MenuEntry::Separator);
    assert_eq!(menu[2], MenuEntry::Item { id: MenuItemId::ToggleEnabled, label: "Disable fixer" });
    assert_eq!(
        menu[3],
        MenuEntry::Item { id: MenuItemId::ToggleStartup, label: "Start with Windows" }
    );
    assert_eq!(menu[5], MenuEntry::Item { id: MenuItemId::Quit, label: "Quit" });
    let menu = menu_entries(TrayState { enabled: false, start_with_windows: true });
    assert_eq!(menu[2], MenuEntry::Item { id: MenuItemId::ToggleEnabled, label: "Enable fixer" });
    assert_eq!(
        menu[3],
        MenuEntry::Item { id: MenuItemId::ToggleStartup, label: "Disable start with Windows" }
    );
}

#[test]
fn tray_window_decisions() {
    assert_eq!(tray_action(WM_CLOSE, 0, 0, false), TrayAction::DestroyWindow);
    assert_eq!(tray_action(WM_DESTROY, 0, 0, true), TrayAction::TearDown);
    assert_eq!(tray_action(WM_NCCREATE, 0, 0, false), TrayAction::StoreState);
    assert_eq!(tray_action(WM_COMMAND, 1002, 0, false), TrayAction::Default);
    assert_eq!(
        tray_action(WM_APP_TRAY, 0, WM_RBUTTONUP as isize, true),
        TrayAction::ShowMenu
    );
    assert_eq!(tray_action(WM_APP_TRAY, 0, 0x0202, true), TrayAction::Default);
    assert_eq!(
        tray_action(WM_COMMAND, 0x0001_0000 + 1002, 0, true),
        TrayAction::Send(TrayCommand::ToggleEnabled)
    );
    assert_eq!(tray_action(WM_COMMAND, 7, 0, true), TrayAction::Ignore);
    assert_eq!(tray_action(0x0200, 0, 0, true), TrayAction::Default);
}

#[test]
fn tip_fits_the_buffer() {
    let mut buffer = [7_u16; 128];
    write_tip(&mut buffer, "ParallelsClipboardFix");
    let expected: Vec<u16> = "ParallelsClipboardFix".encode_utf16().collect();
    assert_eq!(&buffer[..expected.len()], &expected[..]);
    assert_eq!(buffer[expected.len()], 7);

    let long = "x".repeat(200);
    let mut buffer = [0_u16; 128];
    write_tip(&mut buffer, &long);
    assert!(buffer[..127].iter().all(|&u| u == 'x' as u16));
    assert_eq!(buffer[127], 0);
}

#[test]
fn tray_error_messages() {
    assert_eq!(TrayError::IconCreationFailed.message(), "tray icon creation failed");
}
