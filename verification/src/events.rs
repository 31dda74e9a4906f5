//! The application's main loop, as decisions: what each event asks for and
//! how it changes the settings.
use vstd::prelude::*;

use crate::config::AppConfig;
use crate::tray::TrayCommand;
use crate::watcher::WatcherEvent;

verus! {

/// What reaches the main loop from the watcher and the tray.
#[derive(Debug, Clone, Copy, PartialEq, Eq, Structural)]
pub enum AppEvent {
    ClipboardChanged,
    RetryRequested,
    TrayCommand(TrayCommand),
}

/// What the main loop does for an event.
#[derive(Debug, Clone, Copy, PartialEq, Eq, Structural)]
pub enum AppAction {
    /// Repair the clipboard after a change or a retry.
    FixClipboard,
    /// Repair the clipboard because the user asked for it.
    FixClipboardNow,
    /// Save the changed settings.
    SaveConfig,
    /// Remove the startup shortcut.
    RemoveStartupShortcut,
    /// Install the startup shortcut.
    InstallStartupShortcut,
    /// Leave the main loop.
    Exit,
}

/// The event that a watcher report becomes.
pub open spec fn spec_app_event(event: WatcherEvent) -> AppEvent {
    match event {
        WatcherEvent::ClipboardChanged => AppEvent::ClipboardChanged,
        WatcherEvent::RetryRequested { .. } => AppEvent::RetryRequested,
    }
}

/// What the main loop does for `event`; `startup_installed` says whether the
/// startup shortcut exists.
pub open spec fn spec_action(event: AppEvent, startup_installed: bool) -> AppAction {
    match event {
        AppEvent::ClipboardChanged => AppAction::FixClipboard,
        AppEvent::RetryRequested => AppAction::FixClipboard,
        AppEvent::TrayCommand(TrayCommand::FixNow) => AppAction::FixClipboardNow,
        AppEvent::TrayCommand(TrayCommand::ToggleEnabled) => AppAction::SaveConfig,
        AppEvent::TrayCommand(TrayCommand::ToggleStartup) => if startup_installed {
            AppAction::RemoveStartupShortcut
        } else {
            AppAction::InstallStartupShortcut
        },
        AppEvent::TrayCommand(TrayCommand::Quit) => AppAction::Exit,
    }
}

/// The settings after `event`: switching the repairs flips `enabled`, and no
/// other event changes anything.
pub open spec fn spec_config_after(config: AppConfig, event: AppEvent) -> AppConfig {
    match event {
        AppEvent::TrayCommand(TrayCommand::ToggleEnabled) => AppConfig {
            enabled: !config.enabled,
            ..config
        },
        _ => config,
    }
}

/// The event that a watcher report becomes: a change, or a retry (whatever
/// its number).
pub fn app_event_from_watcher(event: WatcherEvent) -> (e: AppEvent)
    ensures
        e == spec_app_event(event),
{
    match event {
        WatcherEvent::ClipboardChanged => AppEvent::ClipboardChanged,
        WatcherEvent::RetryRequested { .. } => AppEvent::RetryRequested,
    }
}

/// Handles one event of the main loop: changes the settings as it asks and
/// says what is to be done.
pub fn handle_event(config: &mut AppConfig, event: AppEvent, startup_installed: bool) -> (a:
    AppAction)
    ensures
        a == spec_action(event, startup_installed),
        *final(config) == spec_config_after(*old(config), event),
        event == AppEvent::ClipboardChanged || event == AppEvent::RetryRequested ==> a
            == AppAction::FixClipboard,
        a == AppAction::Exit <==> event == AppEvent::TrayCommand(TrayCommand::Quit),
{
    match event {
        AppEvent::ClipboardChanged => AppAction::FixClipboard,
        AppEvent::RetryRequested => AppAction::FixClipboard,
        AppEvent::TrayCommand(TrayCommand::FixNow) => AppAction::FixClipboardNow,
        AppEvent::TrayCommand(TrayCommand::ToggleEnabled) => {
            config.enabled = !config.enabled;
            AppAction::SaveConfig
        },
        AppEvent::TrayCommand(TrayCommand::ToggleStartup) => {
            if startup_installed {
                AppAction::RemoveStartupShortcut
            } else {
                AppAction::InstallStartupShortcut
            }
        },
        AppEvent::TrayCommand(TrayCommand::Quit) => AppAction::Exit,
    }
}

/// A clipboard change asks for a repair, the same as a retry does; only the
/// quit command ends the loop; the repair asked for from the menu is the
/// manual one; and the startup switch removes the shortcut exactly when it
/// is installed.
pub proof fn lemma_event_actions(event: AppEvent, startup_installed: bool)
    ensures
        spec_action(AppEvent::ClipboardChanged, startup_installed) == AppAction::FixClipboard,
        spec_action(AppEvent::RetryRequested, startup_installed) == AppAction::FixClipboard,
        spec_action(event, startup_installed) == AppAction::Exit <==> event == AppEvent::TrayCommand(
            TrayCommand::Quit,
        ),
        spec_action(AppEvent::TrayCommand(TrayCommand::FixNow), startup_installed)
            == AppAction::FixClipboardNow,
        spec_action(AppEvent::TrayCommand(TrayCommand::ToggleStartup), startup_installed) == (if startup_installed {
            AppAction::RemoveStartupShortcut
        } else {
            AppAction::InstallStartupShortcut
        }),
{
}

/// Switching the repairs twice gives back the settings that there were.
pub proof fn lemma_toggle_twice(config: AppConfig)
    ensures
        spec_config_after(
            spec_config_after(config, AppEvent::TrayCommand(TrayCommand::ToggleEnabled)),
            AppEvent::TrayCommand(TrayCommand::ToggleEnabled),
        ) == config,
{
}

/// Only switching the repairs changes the settings, and it changes nothing
/// but `enabled`.
pub proof fn lemma_only_toggle_changes_config(config: AppConfig, event: AppEvent)
    ensures
        event != AppEvent::TrayCommand(TrayCommand::ToggleEnabled) ==> spec_config_after(
            config,
            event,
        ) == config,
        spec_config_after(config, event).start_with_windows == config.start_with_windows,
        spec_config_after(config, event).retry_count == config.retry_count,
        spec_config_after(config, event).retry_delay_ms == config.retry_delay_ms,
        spec_config_after(config, event).write_png == config.write_png,
        spec_config_after(config, event).write_dib == config.write_dib,
        spec_config_after(config, event).log_level == config.log_level,
{
}

} // verus!
