//! The countdown status that the scheduler publishes.

use vstd::prelude::*;

verus! {

/// Whether a suspension countdown runs, and how many whole seconds it has
/// left. The seconds are present only while the countdown runs.
#[derive(Clone, Copy, Debug, PartialEq, Eq, Structural)]
pub struct TimerState {
    pub active: bool,
    pub remaining_seconds: Option<u64>,
}

impl TimerState {
    /// An inactive status carries no remaining time.
    pub open spec fn wf(self) -> bool {
        !self.active ==> self.remaining_seconds is None
    }

    /// No countdown.
    pub fn new() -> (r: Self)
        ensures
            r == (TimerState { active: false, remaining_seconds: None }),
    {
        TimerState { active: false, remaining_seconds: None }
    }

    /// A running countdown with `remaining_seconds` left.
    pub fn active(remaining_seconds: u64) -> (r: Self)
        ensures
            r == (TimerState { active: true, remaining_seconds: Some(remaining_seconds) }),
    {
        TimerState { active: true, remaining_seconds: Some(remaining_seconds) }
    }

    /// No countdown.
    pub fn inactive() -> (r: Self)
        ensures
            r == (TimerState { active: false, remaining_seconds: None }),
    {
        TimerState { active: false, remaining_seconds: None }
    }

    /// Whether the countdown runs.
    pub fn is_active(&self) -> (r: bool)
        ensures
            r == self.active,
    {
        self.active
    }

    /// The seconds left, when the countdown runs.
    pub fn remaining_seconds(&self) -> (r: Option<u64>)
        ensures
            r == (if self.active { self.remaining_seconds } else { None }),
    {
        if self.active {
            self.remaining_seconds
        } else {
            None
        }
    }
}

impl Default for TimerState {
    fn default() -> (r: Self)
        ensures
            r == (TimerState { active: false, remaining_seconds: None }),
    {
        Self::new()
    }
}

} // verus!
