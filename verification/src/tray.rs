//! The tray icon: its menu, and what the tray window does with the messages it gets.
use vstd::prelude::*;

use crate::wide::encode_utf16;
use crate::wide::utf16;

verus! {

/// What the tray menu shows about the application's settings.
#[derive(Debug, Clone, Copy, PartialEq, Eq, Structural)]
pub struct TrayState {
    pub enabled: bool,
    pub start_with_windows: bool,
}

/// A command chosen from the tray menu.
#[derive(Debug, Clone, Copy, PartialEq, Eq, Structural)]
pub enum TrayCommand {
    FixNow,
    ToggleEnabled,
    ToggleStartup,
    Quit,
}

/// The menu items of the tray icon; each has a fixed numeric identifier.
#[derive(Debug, Clone, Copy, PartialEq, Eq, Structural)]
pub enum MenuItemId {
    FixNow,
    ToggleEnabled,
    ToggleStartup,
    Quit,
}

/// The numeric identifier that the menu reports for an item.
pub open spec fn spec_menu_item_number(item: MenuItemId) -> u16 {
    match item {
        MenuItemId::FixNow => 1001,
        MenuItemId::ToggleEnabled => 1002,
        MenuItemId::ToggleStartup => 1003,
        MenuItemId::Quit => 1004,
    }
}

/// The menu item that a numeric identifier stands for, if any.
pub open spec fn spec_menu_item_from_number(value: u16) -> Option<MenuItemId> {
    if value == 1001 {
        Some(MenuItemId::FixNow)
    } else if value == 1002 {
        Some(MenuItemId::ToggleEnabled)
    } else if value == 1003 {
        Some(MenuItemId::ToggleStartup)
    } else if value == 1004 {
        Some(MenuItemId::Quit)
    } else {
        None
    }
}

/// The command that a menu item stands for.
pub open spec fn spec_menu_command(item: MenuItemId) -> TrayCommand {
    match item {
        MenuItemId::FixNow => TrayCommand::FixNow,
        MenuItemId::ToggleEnabled => TrayCommand::ToggleEnabled,
        MenuItemId::ToggleStartup => TrayCommand::ToggleStartup,
        MenuItemId::Quit => TrayCommand::Quit,
    }
}

impl MenuItemId {
    /// The numeric identifier of this item.
    pub fn number(self) -> (n: u16)
        ensures
            n == spec_menu_item_number(self),
    {
        match self {
            MenuItemId::FixNow => 1001,
            MenuItemId::ToggleEnabled => 1002,
            MenuItemId::ToggleStartup => 1003,
            MenuItemId::Quit => 1004,
        }
    }

    pub fn command(self) -> (c: TrayCommand)
        ensures
            c == spec_menu_command(self),
    {
        match self {
            MenuItemId::FixNow => TrayCommand::FixNow,
            MenuItemId::ToggleEnabled => TrayCommand::ToggleEnabled,
            MenuItemId::ToggleStartup => TrayCommand::ToggleStartup,
            MenuItemId::Quit => TrayCommand::Quit,
        }
    }

    pub fn from_u16(value: u16) -> (r: Option<MenuItemId>)
        ensures
            r == spec_menu_item_from_number(value),
    {
        match value {
            1001 => Some(MenuItemId::FixNow),
            1002 => Some(MenuItemId::ToggleEnabled),
            1003 => Some(MenuItemId::ToggleStartup),
            1004 => Some(MenuItemId::Quit),
            _ => None,
        }
    }
}

/// Why the tray icon could not be started.
#[derive(Debug)]
pub enum TrayError {
    UnsupportedPlatform,
    WindowThreadFailed,
    WindowCreationFailed,
    IconCreationFailed,
}

/// The window message that closes a window (`WM_CLOSE`).
pub const WM_CLOSE: u32 = 0x0010;

/// The window message sent when a window is destroyed (`WM_DESTROY`).
pub const WM_DESTROY: u32 = 0x0002;

/// The first message a window gets, carrying its creation data (`WM_NCCREATE`).
pub const WM_NCCREATE: u32 = 0x0081;

/// The message of a chosen menu item (`WM_COMMAND`).
pub const WM_COMMAND: u32 = 0x0111;

/// The message that the tray icon sends to its window (`WM_APP + 1`).
pub const WM_APP_TRAY: u32 = 0x8000 + 1;

/// The mouse event, carried in a tray message, of a released right button.
pub const WM_RBUTTONUP: usize = 0x0205;

/// One line of the tray menu.
#[derive(Debug, Clone, Copy, PartialEq, Eq)]
pub enum MenuEntry {
    Item { id: MenuItemId, label: &'static str },
    Separator,
}

/// Whether `e` is the item `id` labelled `label`.
pub open spec fn is_item(e: MenuEntry, id: MenuItemId, label: Seq<char>) -> bool {
    e matches MenuEntry::Item { id: i, label: l } && i == id && l@ == label
}

/// The tray menu for the given state: repair now, a separator, the switch of
/// the repairs, the switch of starting with Windows, a separator, and quit.
pub fn menu_entries(state: TrayState) -> (m: Vec<MenuEntry>)
    ensures
        m.len() == 6,
        is_item(m[0], MenuItemId::FixNow, "Fix clipboard now"@),
        m[1] == MenuEntry::Separator,
        is_item(
            m[2],
            MenuItemId::ToggleEnabled,
            if state.enabled {
                "Disable fixer"@
            } else {
                "Enable fixer"@
            },
        ),
        is_item(
            m[3],
            MenuItemId::ToggleStartup,
            if state.start_with_windows {
                "Disable start with Windows"@
            } else {
                "Start with Windows"@
            },
        ),
        m[4] == MenuEntry::Separator,
        is_item(m[5], MenuItemId::Quit, "Quit"@),
{
    let mut m: Vec<MenuEntry> = Vec::new();
    m.push(MenuEntry::Item { id: MenuItemId::FixNow, label: "Fix clipboard now" });
    m.push(MenuEntry::Separator);
    m.push(
        MenuEntry::Item {
            id: MenuItemId::ToggleEnabled,
            label: if state.enabled {
                "Disable fixer"
            } else {
                "Enable fixer"
            },
        },
    );
    m.push(
        MenuEntry::Item {
            id: MenuItemId::ToggleStartup,
            label: if state.start_with_windows {
                "Disable start with Windows"
            } else {
                "Start with Windows"
            },
        },
    );
    m.push(MenuEntry::Separator);
    m.push(MenuEntry::Item { id: MenuItemId::Quit, label: "Quit" });
    m
}

/// What the tray window does with a message.
#[derive(Debug, Clone, Copy, PartialEq, Eq, Structural)]
pub enum TrayAction {
    /// Destroy the window, answering 0.
    DestroyWindow,
    /// Remove the icon, free the window's state and end the message loop, answering 0.
    TearDown,
    /// Keep the creation data as the window's state, answering 1.
    StoreState,
    /// Leave the message to the default window procedure.
    Default,
    /// Show the tray menu, answering 0.
    ShowMenu,
    /// Send the command to the application, answering 0.
    Send(TrayCommand),
    /// Nothing to do, answering 0.
    Ignore,
}

/// The action for a message, as the tray window procedure decides it.
pub open spec fn spec_tray_action(message: u32, wparam: usize, lparam: isize, has_state: bool) -> TrayAction {
    if message == WM_CLOSE {
        TrayAction::DestroyWindow
    } else if message == WM_DESTROY {
        TrayAction::TearDown
    } else if message == WM_NCCREATE {
        TrayAction::StoreState
    } else if !has_state {
        TrayAction::Default
    } else if message == WM_APP_TRAY && lparam as usize == WM_RBUTTONUP {
        TrayAction::ShowMenu
    } else if message == WM_COMMAND {
        match spec_menu_item_from_number((wparam % 65536) as u16) {
            Some(item) => TrayAction::Send(spec_menu_command(item)),
            None => TrayAction::Ignore,
        }
    } else {
        TrayAction::Default
    }
}

/// Decides what the tray window does with a message; `has_state` says whether
/// the window holds its state yet.
pub fn tray_action(message: u32, wparam: usize, lparam: isize, has_state: bool) -> (a: TrayAction)
    ensures
        a == spec_tray_action(message, wparam, lparam, has_state),
{
    if message == WM_CLOSE {
        return TrayAction::DestroyWindow;
    }
    if message == WM_DESTROY {
        return TrayAction::TearDown;
    }
    if message == WM_NCCREATE {
        return TrayAction::StoreState;
    }
    if !has_state {
        return TrayAction::Default;
    }
    if message == WM_APP_TRAY && lparam as usize == WM_RBUTTONUP {
        return TrayAction::ShowMenu;
    }
    if message == WM_COMMAND {
        let id = (wparam % 65536) as u16;
        return match MenuItemId::from_u16(id) {
            Some(item) => TrayAction::Send(item.command()),
            None => TrayAction::Ignore,
        };
    }
    TrayAction::Default
}

/// Reading an item's number back gives that item, and a number that gives an
/// item is that item's number: the numbers and the items correspond one to one.
pub proof fn lemma_menu_item_round_trip(item: MenuItemId, n: u16)
    ensures
        spec_menu_item_from_number(spec_menu_item_number(item)) == Some(item),
        spec_menu_item_from_number(n) matches Some(i) ==> spec_menu_item_number(i) == n,
        spec_menu_item_from_number(n) is Some <==> 1001 <= n <= 1004,
{
}

/// Different menu items stand for different commands.
pub proof fn lemma_menu_commands_distinct(a: MenuItemId, b: MenuItemId)
    ensures
        spec_menu_command(a) == spec_menu_command(b) ==> a == b,
{
}

/// Writes the tip text of the tray icon into `buffer`: as many UTF-16 units of
/// `value` as fit before the last unit, which stays as it was.
pub fn write_tip(buffer: &mut [u16; 128], value: &str)
    ensures
        forall|i: int|
            0 <= i < 128 ==> #[trigger] final(buffer)@[i] == if i < 127 && i < utf16(value@).len() {
                utf16(value@)[i]
            } else {
                old(buffer)@[i]
            },
{
    let units = encode_utf16(value);
    let mut i: usize = 0;
    while i < 127 && i < units.len()
        invariant
            i <= 127,
            i <= units.len(),
            units@ == utf16(value@),
            forall|k: int|
                0 <= k < 128 ==> #[trigger] buffer@[k] == if k < i {
                    units@[k]
                } else {
                    old(buffer)@[k]
                },
        decreases 127 - i,
    {
        buffer[i] = units[i];
        i = i + 1;
    }
}

impl TrayError {
    /// The text that describes the error.
    pub fn message(&self) -> (t: &'static str)
        ensures
            t@ == (match self {
                TrayError::UnsupportedPlatform => "system tray is Windows-only"@,
                TrayError::WindowThreadFailed => "tray window thread failed"@,
                TrayError::WindowCreationFailed => "tray window creation failed"@,
                TrayError::IconCreationFailed => "tray icon creation failed"@,
            }),
    {
        match self {
            TrayError::UnsupportedPlatform => "system tray is Windows-only",
            TrayError::WindowThreadFailed => "tray window thread failed",
            TrayError::WindowCreationFailed => "tray window creation failed",
            TrayError::IconCreationFailed => "tray icon creation failed",
        }
    }
}

} // verus!
