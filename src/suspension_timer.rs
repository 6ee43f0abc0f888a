//! The suspension scheduler: a state machine that arms a countdown when every
//! inhibitor has gone inactive, cancels it when one becomes active, and asks
//! for suspension when it runs out.
//!
//! The caller owns the clock and the channels. It hands each state change and
//! each one-second tick to `SuspensionTimer::handle`, publishes the status
//! that comes back, and suspends the machine when asked to.

use vstd::prelude::*;
use crate::timer_state::TimerState;

verus! {

/// Milliseconds in a minute.
pub const MILLIS_PER_MINUTE: u64 = 60000;

/// Milliseconds in a second.
pub const MILLIS_PER_SECOND: u64 = 1000;

/// Whether a countdown runs, and since when (a reading of a monotonic clock,
/// in milliseconds).
#[derive(Clone, Copy, Debug, PartialEq, Eq, Structural)]
pub enum Phase {
    Waiting,
    Armed { started: u64 },
}

/// What the scheduler reacts to. Each event carries the clock reading at
/// which it is handled.
#[derive(Clone, Copy, Debug, PartialEq, Eq, Structural)]
pub enum TimerEvent {
    /// A new snapshot of the state arrived (or was fetched after missed
    /// notifications); `all_inactive` tells whether every inhibitor is off.
    StateChanged { all_inactive: bool, now: u64 },
    /// The one-second tick of a running countdown.
    Tick { now: u64 },
}

/// What the caller must do after an event: publish a new status, if any,
/// and then suspend the machine, if asked.
#[derive(Clone, Copy, Debug, PartialEq, Eq, Structural)]
pub struct TimerStep {
    pub publish: Option<TimerState>,
    pub suspend: bool,
}

impl TimerStep {
    /// The status to publish, if any, is well formed.
    pub open spec fn well_formed(self) -> bool {
        self.publish matches Some(t) ==> t.wf()
    }
}

pub open spec fn quiet() -> TimerStep {
    TimerStep { publish: None, suspend: false }
}

pub open spec fn announce(t: TimerState) -> TimerStep {
    TimerStep { publish: Some(t), suspend: false }
}

pub open spec fn stopped() -> TimerState {
    TimerState { active: false, remaining_seconds: None }
}

pub open spec fn running(seconds: nat) -> TimerState {
    TimerState { active: true, remaining_seconds: Some(seconds as u64) }
}

/// The milliseconds that passed since `started`.
pub open spec fn elapsed(started: u64, now: u64) -> int {
    if now >= started {
        now - started
    } else {
        0
    }
}

/// One step of the scheduler, for a countdown of `duration` milliseconds.
pub open spec fn next(duration: u64, phase: Phase, e: TimerEvent) -> (Phase, TimerStep) {
    match e {
        TimerEvent::StateChanged { all_inactive, now } => {
            if !all_inactive {
                (Phase::Waiting, announce(stopped()))
            } else {
                match phase {
                    Phase::Waiting => (
                        Phase::Armed { started: now },
                        announce(running((duration / MILLIS_PER_SECOND) as nat)),
                    ),
                    Phase::Armed { .. } => (phase, quiet()),
                }
            }
        },
        TimerEvent::Tick { now } => match phase {
            Phase::Waiting => (phase, quiet()),
            Phase::Armed { started } => {
                let e = elapsed(started, now);
                if e >= duration {
                    (Phase::Waiting, TimerStep { publish: Some(stopped()), suspend: true })
                } else {
                    (phase, announce(running(((duration - e) / MILLIS_PER_SECOND as int) as nat)))
                }
            },
        },
    }
}

/// The phase after a run of events, and what each event asked for.
pub open spec fn run(duration: u64, phase: Phase, events: Seq<TimerEvent>) -> (Phase, Seq<TimerStep>)
    decreases events.len(),
{
    if events.len() == 0 {
        (phase, seq![])
    } else {
        let (p, s) = next(duration, phase, events[0]);
        let (last, rest) = run(duration, p, events.drop_first());
        (last, seq![s] + rest)
    }
}

/// How many of the steps ask for suspension.
pub open spec fn suspensions(steps: Seq<TimerStep>) -> nat
    decreases steps.len(),
{
    if steps.len() == 0 {
        0
    } else {
        (if steps[0].suspend { 1nat } else { 0nat }) + suspensions(steps.drop_first())
    }
}

/// The ticks at the given clock readings.
pub open spec fn ticks(times: Seq<u64>) -> Seq<TimerEvent> {
    times.map_values(|t: u64| TimerEvent::Tick { now: t })
}

/// The countdown scheduler: its configured length and its phase.
pub struct SuspensionTimer {
    pub duration_ms: u64,
    pub phase: Phase,
}

impl SuspensionTimer {
    /// A waiting scheduler with a countdown of `duration_minutes`.
    pub fn new(duration_minutes: u64) -> (r: Self)
        requires
            duration_minutes * MILLIS_PER_MINUTE <= u64::MAX,
        ensures
            r.duration_ms == duration_minutes * MILLIS_PER_MINUTE,
            r.phase == Phase::Waiting,
    {
        SuspensionTimer { duration_ms: duration_minutes * MILLIS_PER_MINUTE, phase: Phase::Waiting }
    }

    /// Whether a countdown runs.
    pub fn is_armed(&self) -> (r: bool)
        ensures
            r == (self.phase is Armed),
    {
        match self.phase {
            Phase::Waiting => false,
            Phase::Armed { .. } => true,
        }
    }

    /// Handles one event: a snapshot where every inhibitor is off arms a
    /// countdown when none runs; one where some inhibitor is on cancels it; a
    /// tick of a running countdown either reports the whole seconds left or,
    /// once the full length has passed, ends the countdown and asks for
    /// suspension.
    pub fn handle(&mut self, e: TimerEvent) -> (r: TimerStep)
        ensures
            (final(self).phase, r) == next(old(self).duration_ms, old(self).phase, e),
            final(self).duration_ms == old(self).duration_ms,
            r.well_formed(),
    {
        match e {
            TimerEvent::StateChanged { all_inactive, now } => {
                if !all_inactive {
                    self.phase = Phase::Waiting;
                    TimerStep { publish: Some(TimerState::inactive()), suspend: false }
                } else {
                    match self.phase {
                        Phase::Waiting => {
                            self.phase = Phase::Armed { started: now };
                            TimerStep {
                                publish: Some(TimerState::active(self.duration_ms / MILLIS_PER_SECOND)),
                                suspend: false,
                            }
                        },
                        Phase::Armed { .. } => TimerStep { publish: None, suspend: false },
                    }
                }
            },
            TimerEvent::Tick { now } => match self.phase {
                Phase::Waiting => TimerStep { publish: None, suspend: false },
                Phase::Armed { started } => {
                    let passed: u64 = if now >= started {
                        now - started
                    } else {
                        0
                    };
                    if passed >= self.duration_ms {
                        self.phase = Phase::Waiting;
                        TimerStep { publish: Some(TimerState::inactive()), suspend: true }
                    } else {
                        let left = (self.duration_ms - passed) / MILLIS_PER_SECOND;
                        TimerStep { publish: Some(TimerState::active(left)), suspend: false }
                    }
                },
            },
        }
    }
}

/// Every status that a run of the scheduler publishes is well formed: an
/// inactive status never carries remaining seconds.
pub proof fn lemma_published_statuses_well_formed(duration: u64, phase: Phase, events: Seq<TimerEvent>)
    ensures
        forall|i: int| 0 <= i < run(duration, phase, events).1.len() ==>
            (#[trigger] run(duration, phase, events).1[i]).well_formed(),
    decreases events.len(),
{
    if events.len() > 0 {
        let (p, s) = next(duration, phase, events[0]);
        lemma_published_statuses_well_formed(duration, p, events.drop_first());
        let steps = run(duration, phase, events).1;
        assert forall|i: int| 0 <= i < steps.len() implies (#[trigger] steps[i]).well_formed() by {
            if i > 0 {
                assert(steps[i] == run(duration, p, events.drop_first()).1[i - 1]);
            }
        }
    }
}

/// A waiting scheduler stays waiting, and never asks for suspension, as long
/// as no snapshot with every inhibitor off arrives.
pub proof fn lemma_waiting_stays_quiet(duration: u64, events: Seq<TimerEvent>)
    requires
        forall|i: int| 0 <= i < events.len() ==>
            !(#[trigger] events[i] matches TimerEvent::StateChanged { all_inactive: true, .. }),
    ensures
        run(duration, Phase::Waiting, events).0 == Phase::Waiting,
        suspensions(run(duration, Phase::Waiting, events).1) == 0,
        forall|i: int| 0 <= i < run(duration, Phase::Waiting, events).1.len() ==>
            !(#[trigger] run(duration, Phase::Waiting, events).1[i]).suspend,
    decreases events.len(),
{
    if events.len() > 0 {
        let rest = events.drop_first();
        assert(!(events[0] matches TimerEvent::StateChanged { all_inactive: true, .. }));
        assert forall|i: int| 0 <= i < rest.len() implies
            !(#[trigger] rest[i] matches TimerEvent::StateChanged { all_inactive: true, .. }) by {
            assert(rest[i] == events[i + 1]);
        }
        lemma_waiting_stays_quiet(duration, rest);
        let steps = run(duration, Phase::Waiting, events).1;
        assert(steps.drop_first() =~= run(duration, Phase::Waiting, rest).1);
        assert forall|i: int| 0 <= i < steps.len() implies !(#[trigger] steps[i]).suspend by {
            if i > 0 {
                assert(steps[i] == run(duration, Phase::Waiting, rest).1[i - 1]);
            }
        }
    }
}

/// Cancellation: when a snapshot with some inhibitor on reaches a running
/// countdown, the scheduler publishes an inactive status at once, and asks
/// for no suspension afterwards until every inhibitor is off again.
pub proof fn lemma_cancellation(duration: u64, started: u64, events: Seq<TimerEvent>)
    requires
        events.len() > 0,
        events[0] matches TimerEvent::StateChanged { all_inactive: false, .. },
        forall|i: int| 1 <= i < events.len() ==>
            !(#[trigger] events[i] matches TimerEvent::StateChanged { all_inactive: true, .. }),
    ensures
        run(duration, Phase::Armed { started }, events).1[0] == announce(stopped()),
        run(duration, Phase::Armed { started }, events).0 == Phase::Waiting,
        suspensions(run(duration, Phase::Armed { started }, events).1) == 0,
{
    let rest = events.drop_first();
    assert forall|i: int| 0 <= i < rest.len() implies
        !(#[trigger] rest[i] matches TimerEvent::StateChanged { all_inactive: true, .. }) by {
        assert(rest[i] == events[i + 1]);
    }
    lemma_waiting_stays_quiet(duration, rest);
    let steps = run(duration, Phase::Armed { started }, events).1;
    assert(steps.drop_first() =~= run(duration, Phase::Waiting, rest).1);
}

proof fn lemma_run_len(duration: u64, phase: Phase, events: Seq<TimerEvent>)
    ensures
        run(duration, phase, events).1.len() == events.len(),
    decreases events.len(),
{
    if events.len() > 0 {
        lemma_run_len(duration, next(duration, phase, events[0]).0, events.drop_first());
    }
}

proof fn lemma_ticks_drop_first(times: Seq<u64>)
    requires
        times.len() > 0,
    ensures
        ticks(times).drop_first() == ticks(times.drop_first()),
        ticks(times)[0] == (TimerEvent::Tick { now: times[0] }),
{
    assert(ticks(times).drop_first() =~= ticks(times.drop_first()));
}

proof fn lemma_countdown_runs_out(duration: u64, started: u64, times: Seq<u64>) -> (k: int)
    requires
        times.len() > 0,
        started <= times[0] <= started + duration + MILLIS_PER_SECOND,
        forall|i: int| 0 <= i < times.len() - 1 ==>
            #[trigger] times[i] <= times[i + 1] <= times[i] + MILLIS_PER_SECOND,
        times[times.len() - 1] >= started + duration,
    ensures
        0 <= k < times.len(),
        run(duration, Phase::Armed { started }, ticks(times)).1[k].suspend,
        started + duration <= times[k] <= started + duration + MILLIS_PER_SECOND,
        suspensions(run(duration, Phase::Armed { started }, ticks(times)).1) == 1,
        run(duration, Phase::Armed { started }, ticks(times)).0 == Phase::Waiting,
    decreases times.len(),
{
    let rest = times.drop_first();
    lemma_ticks_drop_first(times);
    let steps = run(duration, Phase::Armed { started }, ticks(times)).1;
    if times[0] - started >= duration {
        let evs = ticks(rest);
        assert forall|i: int| 0 <= i < evs.len() implies
            !(#[trigger] evs[i] matches TimerEvent::StateChanged { all_inactive: true, .. }) by {}
        lemma_waiting_stays_quiet(duration, evs);
        assert(steps.drop_first() =~= run(duration, Phase::Waiting, evs).1);
        0
    } else {
        assert(times.len() > 1);
        assert(times[0] <= times[1]);
        assert forall|i: int| 0 <= i < rest.len() - 1 implies
            #[trigger] rest[i] <= rest[i + 1] <= rest[i] + MILLIS_PER_SECOND by {
            assert(rest[i] == times[i + 1]);
            assert(rest[i + 1] == times[i + 2]);
        }
        let j = lemma_countdown_runs_out(duration, started, rest);
        lemma_run_len(duration, Phase::Armed { started }, ticks(rest));
        assert(steps.drop_first() =~= run(duration, Phase::Armed { started }, ticks(rest)).1);
        assert(steps[j + 1] == run(duration, Phase::Armed { started }, ticks(rest)).1[j]);
        j + 1
    }
}

/// Liveness: once a countdown is armed at `started`, ticks that come at
/// least once a second, starting within a second of arming and lasting until
/// the full length has passed, lead to exactly one request to suspend, made
/// at a tick no more than one second after the deadline; the scheduler is
/// then waiting again.
pub proof fn lemma_liveness(duration: u64, started: u64, times: Seq<u64>)
    requires
        times.len() > 0,
        started <= times[0] <= started + MILLIS_PER_SECOND,
        forall|i: int| 0 <= i < times.len() - 1 ==>
            #[trigger] times[i] <= times[i + 1] <= times[i] + MILLIS_PER_SECOND,
        times[times.len() - 1] >= started + duration,
    ensures
        suspensions(run(duration, Phase::Armed { started }, ticks(times)).1) == 1,
        exists|k: int| 0 <= k < times.len()
            && (#[trigger] run(duration, Phase::Armed { started }, ticks(times)).1[k]).suspend
            && started + duration <= times[k] <= started + duration + MILLIS_PER_SECOND,
        run(duration, Phase::Armed { started }, ticks(times)).0 == Phase::Waiting,
{
    let k = lemma_countdown_runs_out(duration, started, times);
    assert(run(duration, Phase::Armed { started }, ticks(times)).1[k].suspend);
}

/// A snapshot with every inhibitor off does not restart a running
/// countdown: it changes nothing and publishes nothing.
pub proof fn lemma_no_restart_while_armed(duration: u64, started: u64, now: u64)
    ensures
        next(duration, Phase::Armed { started }, TimerEvent::StateChanged { all_inactive: true, now })
            == (Phase::Armed { started }, quiet()),
{
}

} // verus!
