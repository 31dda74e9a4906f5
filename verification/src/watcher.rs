//! Watching the clipboard: the retries that follow each change, and what the
//! watcher window does with the messages it gets.
use vstd::prelude::*;

use crate::config::AppConfig;
use crate::platform::duration_from_millis;
use crate::platform::duration_of_millis;

verus! {

/// What the watcher reports to the application.
#[derive(Debug, Clone, Copy, PartialEq, Eq, Structural)]
pub enum WatcherEvent {
    ClipboardChanged,
    RetryRequested { attempt: u32 },
}

/// Why the clipboard watcher could not be started.
#[derive(Debug)]
pub enum WatcherError {
    UnsupportedPlatform,
    WindowThreadFailed,
    WindowCreationFailed,
    ClipboardListenerFailed,
}

/// How often, and how far apart, a repair is retried after a clipboard change.
#[derive(Debug, Clone, Copy, PartialEq, Eq, Structural)]
pub struct RetrySchedule {
    attempts: u32,
    delay_ms: u64,
}

/// One timer that requests a retry: its attempt number and when it is due,
/// in milliseconds after the change.
#[derive(Debug, Clone, Copy, PartialEq, Eq, Structural)]
pub struct RetryTimer {
    pub attempt: u32,
    pub due_ms: u32,
}

/// The delay between retries as a timer takes it: capped at `u32::MAX`.
pub open spec fn timer_step_ms(delay_ms: u64) -> nat {
    if delay_ms > u32::MAX {
        u32::MAX as nat
    } else {
        delay_ms as nat
    }
}

/// When retry `attempt` is due: `attempt` steps, capped at `u32::MAX`.
pub open spec fn retry_due_ms(delay_ms: u64, attempt: nat) -> nat {
    if timer_step_ms(delay_ms) * attempt > u32::MAX {
        u32::MAX as nat
    } else {
        timer_step_ms(delay_ms) * attempt
    }
}

impl RetrySchedule {
    pub closed spec fn spec_attempts(self) -> u32 {
        self.attempts
    }

    pub closed spec fn spec_delay_ms(self) -> u64 {
        self.delay_ms
    }

    /// The schedule that the settings ask for.
    pub fn from_config(config: &AppConfig) -> (s: RetrySchedule)
        ensures
            s.spec_attempts() == config.retry_count,
            s.spec_delay_ms() == config.retry_delay_ms,
    {
        RetrySchedule { attempts: config.retry_count, delay_ms: config.retry_delay_ms }
    }

    /// How many retries follow a change.
    pub fn attempts(&self) -> (n: u32)
        ensures
            n == self.spec_attempts(),
    {
        self.attempts
    }

    /// The time between retries.
    pub fn delay(&self) -> (d: std::time::Duration)
        ensures
            d == duration_of_millis(self.spec_delay_ms()),
    {
        duration_from_millis(self.delay_ms)
    }

    /// The time between retries, in milliseconds.
    pub fn delay_ms(&self) -> (ms: u64)
        ensures
            ms == self.spec_delay_ms(),
    {
        self.delay_ms
    }

    /// The retry requests of one change, numbered from 1.
    pub fn retry_events(&self) -> (events: Vec<WatcherEvent>)
        ensures
            events.len() == self.spec_attempts(),
            forall|i: int|
                0 <= i < events.len() ==> #[trigger] events[i] == (WatcherEvent::RetryRequested {
                    attempt: (i + 1) as u32,
                }),
    {
        let mut events: Vec<WatcherEvent> = Vec::new();
        let mut attempt: u32 = 0;
        while attempt < self.attempts
            invariant
                attempt <= self.attempts,
                events.len() == attempt,
                forall|i: int|
                    0 <= i < events.len() ==> #[trigger] events[i]
                        == (WatcherEvent::RetryRequested { attempt: (i + 1) as u32 }),
            decreases self.attempts - attempt,
        {
            attempt = attempt + 1;
            events.push(WatcherEvent::RetryRequested { attempt });
        }
        events
    }

    /// The timers to set after a change: one per retry, numbered from 1, each
    /// due one more delay after the one before (capped at `u32::MAX`).
    pub fn retry_timers(&self) -> (timers: Vec<RetryTimer>)
        ensures
            timers.len() == self.spec_attempts(),
            forall|i: int|
                0 <= i < timers.len() ==> #[trigger] timers[i] == (RetryTimer {
                    attempt: (i + 1) as u32,
                    due_ms: retry_due_ms(self.spec_delay_ms(), (i + 1) as nat) as u32,
                }),
            forall|i: int|
                0 <= i < timers.len() ==> (#[trigger] timers[i]).due_ms as int == if self.spec_delay_ms()
                    * (i + 1) > u32::MAX {
                    u32::MAX as int
                } else {
                    self.spec_delay_ms() * (i + 1)
                },
    {
        let step: u32 = if self.delay_ms > 0xffff_ffff {
            0xffff_ffff
        } else {
            self.delay_ms as u32
        };
        let mut timers: Vec<RetryTimer> = Vec::new();
        let mut attempt: u32 = 0;
        while attempt < self.attempts
            invariant
                attempt <= self.attempts,
                step == timer_step_ms(self.delay_ms),
                timers.len() == attempt,
                forall|i: int|
                    0 <= i < timers.len() ==> #[trigger] timers[i] == (RetryTimer {
                        attempt: (i + 1) as u32,
                        due_ms: retry_due_ms(self.delay_ms, (i + 1) as nat) as u32,
                    }),
            decreases self.attempts - attempt,
        {
            attempt = attempt + 1;
            assert(step as u64 * attempt as u64 <= 0xffff_ffff * 0xffff_ffff) by (nonlinear_arith)
                requires
                    step <= 0xffff_ffffu32,
                    attempt <= 0xffff_ffffu32,
            ;
            let product: u64 = step as u64 * attempt as u64;
            let due: u32 = if product > 0xffff_ffff {
                0xffff_ffff
            } else {
                product as u32
            };
            timers.push(RetryTimer { attempt, due_ms: due });
        }
        proof {
            assert forall|i: int| 0 <= i < timers.len() implies (#[trigger] timers[i]).due_ms as int
                == if self.delay_ms * (i + 1) > u32::MAX {
                u32::MAX as int
            } else {
                self.delay_ms * (i + 1)
            } by {
                lemma_retry_due(self.delay_ms, (i + 1) as nat);
            }
        }
        timers
    }
}

/// A schedule is its number of attempts and its delay: two schedules that
/// agree on both are equal, so `from_config` depends on nothing else.
pub proof fn lemma_schedule_determined(a: RetrySchedule, b: RetrySchedule)
    ensures
        a.spec_attempts() == b.spec_attempts() && a.spec_delay_ms() == b.spec_delay_ms() ==> a
            == b,
{
}

/// Retry `attempt` is due `attempt` delays after the change, capped at
/// `u32::MAX`: whatever the delay, small or large.
pub proof fn lemma_retry_due(delay_ms: u64, attempt: nat)
    ensures
        retry_due_ms(delay_ms, attempt) == if delay_ms * attempt > u32::MAX {
            u32::MAX as int
        } else {
            delay_ms * attempt
        },
{
    let step = timer_step_ms(delay_ms);
    if delay_ms > u32::MAX && attempt >= 1 {
        assert(step * attempt >= step * 1) by (nonlinear_arith)
            requires
                attempt >= 1,
        ;
        assert(delay_ms * attempt >= delay_ms * 1) by (nonlinear_arith)
            requires
                attempt >= 1,
        ;
    }
}

/// What the watcher window does with each message: it destroys itself on
/// `WM_CLOSE`, tears down on `WM_DESTROY` and keeps its creation data on
/// `WM_NCCREATE`, whatever it holds; once it holds its state it reports each
/// clipboard change and each timer as the retry of that number; every other
/// message goes to the default procedure.
pub proof fn lemma_watcher_messages(wparam: usize, has_state: bool, message: u32)
    ensures
        spec_watcher_action(0x0010, wparam, has_state) == WatcherAction::DestroyWindow,
        spec_watcher_action(0x0002, wparam, has_state) == WatcherAction::TearDown,
        spec_watcher_action(0x0081, wparam, has_state) == WatcherAction::StoreState,
        has_state ==> spec_watcher_action(0x031D, wparam, true) == WatcherAction::ClipboardChanged,
        spec_watcher_action(0x0113, wparam, true) == (WatcherAction::Retry {
            attempt: wparam as u32,
        }),
        !has_state && message != 0x0010 && message != 0x0002 && message != 0x0081
            ==> spec_watcher_action(message, wparam, false) == WatcherAction::Default,
        message != 0x0010 && message != 0x0002 && message != 0x0081 && message != 0x031D
            && message != 0x0113 ==> spec_watcher_action(message, wparam, has_state)
            == WatcherAction::Default,
{
}

/// Later retries are never due before earlier ones.
pub proof fn lemma_retry_due_monotonic(delay_ms: u64, a: nat, b: nat)
    requires
        a <= b,
    ensures
        retry_due_ms(delay_ms, a) <= retry_due_ms(delay_ms, b),
        retry_due_ms(delay_ms, a) <= u32::MAX,
{
    let step = timer_step_ms(delay_ms);
    assert(step * a <= step * b) by (nonlinear_arith)
        requires
            a <= b,
    ;
}

/// The window message that closes a window (`WM_CLOSE`).
pub const WM_CLOSE: u32 = 0x0010;

/// The window message sent when a window is destroyed (`WM_DESTROY`).
pub const WM_DESTROY: u32 = 0x0002;

/// The first message a window gets, carrying its creation data (`WM_NCCREATE`).
pub const WM_NCCREATE: u32 = 0x0081;

/// The message of a changed clipboard (`WM_CLIPBOARDUPDATE`).
pub const WM_CLIPBOARDUPDATE: u32 = 0x031D;

/// The message of an expired timer (`WM_TIMER`).
pub const WM_TIMER: u32 = 0x0113;

/// What the watcher window does with a message.
#[derive(Debug, Clone, Copy, PartialEq, Eq, Structural)]
pub enum WatcherAction {
    /// Destroy the window, answering 0.
    DestroyWindow,
    /// Stop listening to the clipboard, free the window's state and end the
    /// message loop, answering 0.
    TearDown,
    /// Keep the creation data as the window's state, answering 1.
    StoreState,
    /// Leave the message to the default window procedure.
    Default,
    /// Report the change and set the retry timers, answering 0.
    ClipboardChanged,
    /// Report retry `attempt` and stop its timer, answering 0.
    Retry { attempt: u32 },
}

/// The action for a message, as the watcher window procedure decides it.
pub open spec fn spec_watcher_action(message: u32, wparam: usize, has_state: bool) -> WatcherAction {
    if message == WM_CLOSE {
        WatcherAction::DestroyWindow
    } else if message == WM_DESTROY {
        WatcherAction::TearDown
    } else if message == WM_NCCREATE {
        WatcherAction::StoreState
    } else if !has_state {
        WatcherAction::Default
    } else if message == WM_CLIPBOARDUPDATE {
        WatcherAction::ClipboardChanged
    } else if message == WM_TIMER {
        WatcherAction::Retry { attempt: wparam as u32 }
    } else {
        WatcherAction::Default
    }
}

/// Decides what the watcher window does with a message; `has_state` says
/// whether the window holds its state yet. A timer's number is its attempt.
pub fn watcher_action(message: u32, wparam: usize, has_state: bool) -> (a: WatcherAction)
    ensures
        a == spec_watcher_action(message, wparam, has_state),
        message == WM_NCCREATE ==> a == WatcherAction::StoreState,
        message == WM_CLOSE ==> a == WatcherAction::DestroyWindow,
        message == WM_DESTROY ==> a == WatcherAction::TearDown,
        has_state && message == WM_CLIPBOARDUPDATE ==> a == WatcherAction::ClipboardChanged,
{
    if message == WM_CLOSE {
        WatcherAction::DestroyWindow
    } else if message == WM_DESTROY {
        WatcherAction::TearDown
    } else if message == WM_NCCREATE {
        WatcherAction::StoreState
    } else if !has_state {
        WatcherAction::Default
    } else if message == WM_CLIPBOARDUPDATE {
        WatcherAction::ClipboardChanged
    } else if message == WM_TIMER {
        WatcherAction::Retry { attempt: wparam as u32 }
    } else {
        WatcherAction::Default
    }
}

impl WatcherError {
    /// The text that describes the error.
    pub fn message(&self) -> (t: &'static str)
        ensures
            t@ == (match self {
                WatcherError::UnsupportedPlatform => "clipboard watcher is Windows-only"@,
                WatcherError::WindowThreadFailed => "clipboard watcher thread failed"@,
                WatcherError::WindowCreationFailed => "clipboard watcher window failed"@,
                WatcherError::ClipboardListenerFailed => "failed to register clipboard listener"@,
            }),
    {
        match self {
            WatcherError::UnsupportedPlatform => "clipboard watcher is Windows-only",
            WatcherError::WindowThreadFailed => "clipboard watcher thread failed",
            WatcherError::WindowCreationFailed => "clipboard watcher window failed",
            WatcherError::ClipboardListenerFailed => "failed to register clipboard listener",
        }
    }
}

} // verus!
