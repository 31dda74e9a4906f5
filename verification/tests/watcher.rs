use std::time::Duration;

use parallels_clipboard_fix::config::AppConfig;
use parallels_clipboard_fix::watcher::watcher_action;
use parallels_clipboard_fix::watcher::RetrySchedule;
use parallels_clipboard_fix::watcher::RetryTimer;
use parallels_clipboard_fix::watcher::WatcherAction;
use parallels_clipboard_fix::watcher::WatcherError;
use parallels_clipboard_fix::watcher::WatcherEvent;
use parallels_clipboard_fix::watcher::WM_CLIPBOARDUPDATE;
use parallels_clipboard_fix::watcher::WM_CLOSE;
use parallels_clipboard_fix::watcher::WM_TIMER;

#[test]
fn builds_retry_schedule_from_config() {
    let config = AppConfig {
        retry_count: 3,
        retry_delay_ms: 25,
        ..AppConfig::default()
    };

    let schedule = RetrySchedule::from_config(&config);

    assert_eq!(schedule.attempts(), 3);
    assert_eq!(schedule.delay(), Duration::from_millis(25));
}

#[test]
fn creates_retry_events() {
    let config = AppConfig {
        retry_count: 2,
        ..AppConfig::default()
    };
    let schedule = RetrySchedule::from_config(&config);
    let events: Vec<_> = schedule.retry_events().into_iter().collect();

    assert_eq!(
        events,
        vec![
            WatcherEvent::RetryRequested { attempt: 1 },
            WatcherEvent::RetryRequested { attempt: 2 }
        ]
    );
}

#[test]
fn no_retries_when_count_is_zero() {
    let config = AppConfig { retry_count: 0, ..AppConfig::default() };
    let schedule = RetrySchedule::from_config(&config);
    assert!(schedule.retry_events().is_empty());
    assert!(schedule.retry_timers().is_empty());
}

#[test]
fn timers_are_due_one_delay_apart() {
    let schedule = RetrySchedule::from_config(&AppConfig::default());
    assert_eq!(schedule.delay_ms(), 80);
    assert_eq!(
        schedule.retry_timers(),
        vec![
            RetryTimer { attempt: 1, due_ms: 80 },
            RetryTimer { attempt: 2, due_ms: 160 },
            RetryTimer { attempt: 3, due_ms: 240 },
            RetryTimer { attempt: 4, due_ms: 320 },
            RetryTimer { attempt: 5, due_ms: 400 },
        ]
    );
}

#[test]
fn timer_due_times_saturate() {
    let config = AppConfig {
        retry_count: 3,
        retry_delay_ms: 3_000_000_000,
        ..AppConfig::default()
    };
    let timers = RetrySchedule::from_config(&config).retry_timers();
    assert_eq!(timers[0].due_ms, 3_000_000_000);
    assert_eq!(timers[1].due_ms, u32::MAX);
    assert_eq!(timers[2].due_ms, u32::MAX);

    let config = AppConfig { retry_count: 1, retry_delay_ms: u64::MAX, ..AppConfig::default() };
    assert_eq!(RetrySchedule::from_config(&config).retry_timers()[0].due_ms, u32::MAX);
}

#[test]
fn watcher_window_decisions() {
    assert_eq!(watcher_action(WM_CLOSE, 0, true), WatcherAction::DestroyWindow);
    assert_eq!(watcher_action(WM_CLIPBOARDUPDATE, 0, false), WatcherAction::Default);
    assert_eq!(watcher_action(WM_CLIPBOARDUPDATE, 0, true), WatcherAction::ClipboardChanged);
    assert_eq!(watcher_action(WM_TIMER, 4, true), WatcherAction::Retry { attempt: 4 });
    assert_eq!(watcher_action(0x0400, 0, true), WatcherAction::Default);
}

#[test]
fn watcher_error_messages() {
    assert_eq!(
        WatcherError::ClipboardListenerFailed.message(),
        "failed to register clipboard listener"
    );
}
