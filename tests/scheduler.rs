use order_coffee::app_state::{AppState, Timestamp};
use order_coffee::suspension_timer::{Phase, SuspensionTimer, TimerEvent, TimerStep};
use order_coffee::system_state::SystemState;
use order_coffee::timer_state::TimerState;

fn changed(all_inactive: bool, now: u64) -> TimerEvent {
    TimerEvent::StateChanged { all_inactive, now }
}

fn tick(now: u64) -> TimerEvent {
    TimerEvent::Tick { now }
}

#[test]
fn arms_on_all_inactive_and_suspends_once_after_a_minute() {
    let mut state = SystemState::new();
    state.coffee = false;
    state.set_service("ollama", false);
    let mut t = SuspensionTimer::new(1);
    let step = t.handle(changed(state.all_inactive(), 0));
    assert_eq!(step, TimerStep { publish: Some(TimerState::active(60)), suspend: false });
    let mut suspends = 0;
    let mut when = 0;
    let mut now = 0;
    while now <= 70_000 {
        let step = t.handle(tick(now));
        if let Some(status) = step.publish {
            assert!(status.active || status.remaining_seconds.is_none());
        }
        if step.suspend {
            suspends += 1;
            when = now;
        }
        now += 1000;
    }
    assert_eq!(suspends, 1);
    assert_eq!(when, 60_000);
    assert_eq!(t.phase, Phase::Waiting);
}

#[test]
fn activation_cancels_the_countdown() {
    let mut t = SuspensionTimer::new(1);
    t.handle(changed(true, 0));
    for s in 0..=10u64 {
        let step = t.handle(tick(s * 1000));
        assert!(!step.suspend);
    }
    let step = t.handle(changed(false, 10_000));
    assert_eq!(step, TimerStep { publish: Some(TimerState::inactive()), suspend: false });
    assert!(!t.is_armed());
    for s in 10..200u64 {
        let step = t.handle(tick(s * 1000));
        assert!(!step.suspend);
        assert_eq!(step.publish, None);
    }
}

#[test]
fn ticks_report_whole_seconds_left() {
    let mut t = SuspensionTimer::new(10);
    t.handle(changed(true, 1_000));
    assert_eq!(t.handle(tick(1_000)).publish, Some(TimerState::active(600)));
    assert_eq!(t.handle(tick(2_500)).publish, Some(TimerState::active(598)));
    assert_eq!(t.handle(tick(600_999)).publish, Some(TimerState::active(0)));
    let last = t.handle(tick(601_000));
    assert!(last.suspend);
    assert_eq!(last.publish, Some(TimerState::inactive()));
}

#[test]
fn inactive_snapshot_while_armed_does_not_restart() {
    let mut t = SuspensionTimer::new(1);
    t.handle(changed(true, 0));
    let step = t.handle(changed(true, 30_000));
    assert_eq!(step, TimerStep { publish: None, suspend: false });
    assert_eq!(t.phase, Phase::Armed { started: 0 });
    assert!(t.handle(tick(60_000)).suspend);
}

#[test]
fn active_snapshot_while_waiting_publishes_inactive() {
    let mut t = SuspensionTimer::new(1);
    let step = t.handle(changed(false, 0));
    assert_eq!(step.publish, Some(TimerState::inactive()));
    assert_eq!(t.phase, Phase::Waiting);
    assert_eq!(t.handle(tick(120_000)), TimerStep { publish: None, suspend: false });
}

#[test]
fn zero_length_countdown_suspends_at_first_tick() {
    let mut t = SuspensionTimer::new(0);
    assert_eq!(t.handle(changed(true, 5)).publish, Some(TimerState::active(0)));
    assert!(t.handle(tick(5)).suspend);
}

#[test]
fn rearms_after_suspension() {
    let mut t = SuspensionTimer::new(1);
    t.handle(changed(true, 0));
    assert!(t.handle(tick(60_000)).suspend);
    let step = t.handle(changed(true, 70_000));
    assert_eq!(step.publish, Some(TimerState::active(60)));
    assert_eq!(t.phase, Phase::Armed { started: 70_000 });
}

#[test]
fn largest_duration_is_accepted() {
    let t = SuspensionTimer::new(u64::MAX / 60_000);
    assert_eq!(t.duration_ms, (u64::MAX / 60_000) * 60_000);
}

#[test]
fn coffee_activation_at_ten_seconds_cancels_countdown() {
    let mut store = AppState::new(20553, "0.0.0.0".to_string(), 1, 0);
    let mut t = SuspensionTimer::new(store.timer_duration_minutes);
    let snapshot = store.trigger_state_check();
    let armed = t.handle(changed(snapshot.all_inactive(), 0));
    assert_eq!(armed.publish, Some(TimerState::active(60)));
    for s in 0..10u64 {
        assert!(!t.handle(tick(s * 1000)).suspend);
    }
    let snapshot = store.set_coffee(true, Timestamp { seconds: 10, nanos: 0 });
    let step = t.handle(changed(snapshot.all_inactive(), 10_000));
    let status = step.publish.unwrap();
    assert!(!status.active);
    let stored = store.update_timer_state(status.active, status.remaining_seconds);
    assert_eq!(stored, TimerState::inactive());
    for s in 10..300u64 {
        assert!(!t.handle(tick(s * 1000)).suspend);
    }
}

#[test]
fn store_snapshot_arms_one_minute_countdown_and_suspends_once() {
    let store = AppState::new(20553, "0.0.0.0".to_string(), 1, 0);
    let snapshot = store.get_system_state();
    assert!(!snapshot.coffee && !snapshot.get_service("ollama"));
    let mut t = SuspensionTimer::new(1);
    assert_eq!(t.handle(changed(snapshot.all_inactive(), 0)).publish, Some(TimerState::active(60)));
    let suspends = (0..=90u64).filter(|s| t.handle(tick(s * 1000)).suspend).count();
    assert_eq!(suspends, 1);
}
