//! The state store: the inhibitor flags and error log, the countdown status,
//! and what the last state-changing operation was.
//!
//! Every operation here is one read-modify step. The caller holds the store
//! behind its lock, and after a step that returns a snapshot it publishes
//! that snapshot to the scheduler once the lock is released.

use vstd::prelude::*;
use crate::system_state::{SystemState, SystemStateView};
use crate::text::decimal;
use crate::text::decimal_text;
use crate::timer_state::TimerState;

verus! {

/// How many snapshots the notification channel keeps for a subscriber that
/// falls behind.
pub const NOTIFICATION_CAPACITY: usize = 100;

/// How often the wake-up check runs, in milliseconds.
pub const WAKE_CHECK_PERIOD_MS: u64 = 15000;

/// A point in time: seconds and nanoseconds since the Unix epoch, in UTC.
#[derive(Clone, Copy, Debug, PartialEq, Eq, Structural)]
pub struct Timestamp {
    pub seconds: i64,
    pub nanos: u32,
}

/// A change to one inhibitor flag.
pub enum StateChange {
    /// Set the manual flag.
    Coffee(bool),
    /// Set the flag of the named service.
    Service(String, bool),
}

/// The state after a change.
pub open spec fn applied(s: SystemStateView, c: StateChange) -> SystemStateView {
    match c {
        StateChange::Coffee(active) => s.with_coffee(active),
        StateChange::Service(name, active) => s.with_service(name@, active),
    }
}

/// The label of a change to the flag of service `name`.
pub open spec fn service_label(name: Seq<char>, active: bool) -> Seq<char> {
    name + if active { "-on"@ } else { "-off"@ }
}

/// The whole seconds between two readings of a monotonic clock in
/// milliseconds; none when the clock reads earlier than `start`.
pub open spec fn seconds_since(start: u64, now: u64) -> nat {
    if now >= start {
        ((now - start) / 1000) as nat
    } else {
        0
    }
}

/// A duration in seconds as text: "5h 3m 2s", "3m 2s" or "2s", giving the
/// larger units only when they are not zero.
pub open spec fn uptime_text(secs: nat) -> Seq<char> {
    let h = secs / 3600;
    let m = (secs % 3600) / 60;
    let s = secs % 60;
    if h > 0 {
        decimal(h) + "h "@ + decimal(m) + "m "@ + decimal(s) + "s"@
    } else if m > 0 {
        decimal(m) + "m "@ + decimal(s) + "s"@
    } else {
        decimal(s) + "s"@
    }
}

/// Renders a duration given in seconds.
pub fn format_uptime(secs: u64) -> (r: String)
    ensures
        r@ == uptime_text(secs as nat),
{
    let h = secs / 3600;
    let m = (secs % 3600) / 60;
    let s = secs % 60;
    let mut r: String;
    if h > 0 {
        r = decimal_text(h);
        r.append("h ");
        r.append(decimal_text(m).as_str());
        r.append("m ");
    } else if m > 0 {
        r = decimal_text(m);
        r.append("m ");
    } else {
        r = String::new();
    }
    r.append(decimal_text(s).as_str());
    r.append("s");
    r
}

/// The store.
pub struct AppState {
    /// The inhibitor flags, the error log and the was-suspended marker.
    pub system_state: SystemState,
    /// The length of the suspension countdown.
    pub timer_duration_minutes: u64,
    /// The last countdown status published.
    pub timer_state: TimerState,
    /// When the server started, on the monotonic clock in milliseconds.
    pub start_time_ms: u64,
    pub port: u16,
    pub host: String,
    /// The label of the last state-changing operation.
    pub last_action: Option<String>,
    /// When the last state-changing operation happened.
    pub last_action_time: Option<Timestamp>,
}

pub open spec fn text_of(o: Option<String>) -> Option<Seq<char>> {
    match o {
        Some(s) => Some(s@),
        None => None,
    }
}

impl AppState {
    /// Everything else is unchanged from `old`, but the system state, the
    /// countdown status and the last action.
    pub open spec fn same_settings(self, old: AppState) -> bool {
        &&& self.timer_duration_minutes == old.timer_duration_minutes
        &&& self.start_time_ms == old.start_time_ms
        &&& self.port == old.port
        &&& self.host == old.host
    }

    /// Only the system state changed.
    pub open spec fn same_but_system(self, old: AppState) -> bool {
        &&& self.same_settings(old)
        &&& self.timer_state == old.timer_state
        &&& text_of(self.last_action) == text_of(old.last_action)
        &&& self.last_action_time == old.last_action_time
    }

    /// A fresh store: nothing active, no errors, no countdown, no action yet.
    pub fn new(port: u16, host: String, timer_duration_minutes: u64, start_time_ms: u64) -> (r: Self)
        ensures
            r.system_state@ == crate::system_state::initial_system_state(),
            r.timer_duration_minutes == timer_duration_minutes,
            r.timer_state == (TimerState { active: false, remaining_seconds: None }),
            r.start_time_ms == start_time_ms,
            r.port == port,
            r.host == host,
            r.last_action is None,
            r.last_action_time is None,
    {
        AppState {
            system_state: SystemState::new(),
            timer_duration_minutes,
            timer_state: TimerState::new(),
            start_time_ms,
            port,
            host,
            last_action: None,
            last_action_time: None,
        }
    }

    /// Applies one change to the flags, records it as the last action under
    /// `action` at `now`, and returns the new state for publishing.
    pub fn update_state(&mut self, action: &str, change: StateChange, now: Timestamp) -> (r: SystemState)
        ensures
            final(self).system_state@ == applied(old(self).system_state@, change),
            r@ == final(self).system_state@,
            text_of(final(self).last_action) == Some(action@),
            final(self).last_action_time == Some(now),
            final(self).timer_state == old(self).timer_state,
            final(self).same_settings(*old(self)),
    {
        match change {
            StateChange::Coffee(active) => {
                self.system_state.set_coffee(active);
            },
            StateChange::Service(name, active) => {
                self.system_state.set_service(name.as_str(), active);
            },
        }
        self.last_action = Some(action.to_owned());
        self.last_action_time = Some(now);
        self.system_state.snapshot()
    }

    /// Sets or clears the manual flag, recorded as "coffee" or "chill".
    pub fn set_coffee(&mut self, active: bool, now: Timestamp) -> (r: SystemState)
        ensures
            final(self).system_state@ == old(self).system_state@.with_coffee(active),
            r@ == final(self).system_state@,
            text_of(final(self).last_action) == Some(if active { "coffee"@ } else { "chill"@ }),
            final(self).last_action_time == Some(now),
            final(self).timer_state == old(self).timer_state,
            final(self).same_settings(*old(self)),
    {
        let action = if active {
            "coffee"
        } else {
            "chill"
        };
        self.update_state(action, StateChange::Coffee(active), now)
    }

    /// Sets the flag of service `name`, recorded as "<name>-on" or
    /// "<name>-off".
    pub fn set_service(&mut self, name: &str, active: bool, now: Timestamp) -> (r: SystemState)
        ensures
            final(self).system_state@ == old(self).system_state@.with_service(name@, active),
            r@ == final(self).system_state@,
            text_of(final(self).last_action) == Some(service_label(name@, active)),
            final(self).last_action_time == Some(now),
            final(self).timer_state == old(self).timer_state,
            final(self).same_settings(*old(self)),
    {
        let mut action = name.to_owned();
        if active {
            action.append("-on");
        } else {
            action.append("-off");
        }
        self.update_state(action.as_str(), StateChange::Service(name.to_owned(), active), now)
    }

    /// Sets the flag of the ollama service.
    pub fn set_ollama(&mut self, active: bool, now: Timestamp) -> (r: SystemState)
        ensures
            final(self).system_state@ == old(self).system_state@.with_service("ollama"@, active),
            r@ == final(self).system_state@,
            text_of(final(self).last_action) == Some(service_label("ollama"@, active)),
            final(self).last_action_time == Some(now),
            final(self).timer_state == old(self).timer_state,
            final(self).same_settings(*old(self)),
    {
        self.set_service("ollama", active, now)
    }

    /// Appends an entry to the error log and returns the new state for
    /// publishing.
    pub fn add_error(&mut self, error: String) -> (r: SystemState)
        ensures
            final(self).system_state@ == old(self).system_state@.with_error(error@),
            r@ == final(self).system_state@,
            final(self).same_but_system(*old(self)),
    {
        self.system_state.add_error(error);
        self.system_state.snapshot()
    }

    /// Drops the log entries that mention `component`, ignoring case. Returns
    /// the new state for publishing only when the log shrank.
    pub fn clear_errors_for(&mut self, component: &str) -> (r: Option<SystemState>)
        ensures
            final(self).system_state@ == old(self).system_state@.without_errors_for(component@),
            r is Some <==> final(self).system_state@.errors.len() < old(self).system_state@.errors.len(),
            r matches Some(s) ==> s@ == final(self).system_state@,
            final(self).same_but_system(*old(self)),
    {
        let before = self.system_state.error_count();
        self.system_state.clear_errors_for(component);
        proof {
            crate::system_state::lemma_unmentioned_len(old(self).system_state@.errors, component@);
        }
        if self.system_state.error_count() != before {
            Some(self.system_state.snapshot())
        } else {
            None
        }
    }

    /// A copy of the current state.
    pub fn get_system_state(&self) -> (r: SystemState)
        ensures
            r@ == self.system_state@,
    {
        self.system_state.snapshot()
    }

    /// The current countdown status.
    pub fn get_timer_state(&self) -> (r: TimerState)
        ensures
            r == self.timer_state,
    {
        self.timer_state
    }

    /// Records a countdown status and returns it for publishing. An inactive
    /// status is stored without remaining seconds.
    pub fn update_timer_state(&mut self, active: bool, remaining_seconds: Option<u64>) -> (r: TimerState)
        ensures
            r == final(self).timer_state,
            r == (if active {
                TimerState { active: true, remaining_seconds }
            } else {
                TimerState { active: false, remaining_seconds: None }
            }),
            r.wf(),
            final(self).system_state == old(self).system_state,
            text_of(final(self).last_action) == text_of(old(self).last_action),
            final(self).last_action_time == old(self).last_action_time,
            final(self).same_settings(*old(self)),
    {
        self.timer_state = if active {
            TimerState { active: true, remaining_seconds }
        } else {
            TimerState::inactive()
        };
        self.timer_state
    }

    /// How long the server has run, as text, at the clock reading `now_ms`.
    pub fn get_uptime(&self, now_ms: u64) -> (r: String)
        ensures
            r@ == uptime_text(seconds_since(self.start_time_ms, now_ms)),
    {
        let secs: u64 = if now_ms >= self.start_time_ms {
            (now_ms - self.start_time_ms) / 1000
        } else {
            0
        };
        format_uptime(secs)
    }

    /// The last state-changing operation and when it happened.
    pub fn get_last_action(&self) -> (r: (Option<String>, Option<Timestamp>))
        ensures
            text_of(r.0) == text_of(self.last_action),
            r.1 == self.last_action_time,
    {
        let label = match &self.last_action {
            Some(a) => Some(a.clone()),
            None => None,
        };
        (label, self.last_action_time)
    }

    /// The current state, to publish again unchanged so that the scheduler
    /// decides anew.
    pub fn trigger_state_check(&self) -> (r: SystemState)
        ensures
            r@ == self.system_state@,
    {
        self.system_state.snapshot()
    }

    /// Sets the was-suspended marker.
    pub fn set_suspended(&mut self, suspended: bool)
        ensures
            final(self).system_state@ == (SystemStateView { suspended, ..old(self).system_state@ }),
            final(self).same_but_system(*old(self)),
    {
        self.system_state.set_suspended(suspended);
    }

    /// The was-suspended marker.
    pub fn is_suspended(&self) -> (r: bool)
        ensures
            r == self.system_state@.suspended,
    {
        self.system_state.is_suspended()
    }

    /// The periodic wake-up check: when the machine was suspended since the
    /// last check, clears the marker and returns the current state, to publish
    /// again so that the scheduler decides anew; otherwise changes nothing.
    pub fn wake_check(&mut self) -> (r: Option<SystemState>)
        ensures
            old(self).system_state@.suspended ==> {
                &&& final(self).system_state@ == (SystemStateView { suspended: false, ..old(self).system_state@ })
                &&& r matches Some(s) && s@ == final(self).system_state@
            },
            !old(self).system_state@.suspended ==> r is None && final(self).system_state@ == old(self).system_state@,
            final(self).same_but_system(*old(self)),
    {
        if self.system_state.is_suspended() {
            self.system_state.set_suspended(false);
            Some(self.system_state.snapshot())
        } else {
            None
        }
    }
}

} // verus!
