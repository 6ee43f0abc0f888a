use order_coffee::app_state::{format_uptime, AppState, StateChange, Timestamp};
use order_coffee::system_state::{InhibitorSet, SystemState};
use order_coffee::text::decimal_text;
use order_coffee::timer_state::TimerState;

fn at(seconds: i64) -> Timestamp {
    Timestamp { seconds, nanos: 0 }
}

fn store() -> AppState {
    AppState::new(20553, "0.0.0.0".to_string(), 10, 5_000)
}

#[test]
fn new_state_has_ollama_off_and_nothing_active() {
    let s = SystemState::new();
    assert!(!s.coffee);
    assert!(!s.get_service("ollama"));
    assert!(s.all_inactive());
    assert!(!s.any_active());
    assert!(!s.is_suspended());
    assert!(s.errors.is_empty());
    assert_eq!(s.services.to_vec(), vec![("ollama".to_string(), false)]);
}

#[test]
fn unset_name_reads_inactive() {
    let s = SystemState::new();
    assert!(!s.get_service("never-set"));
}

#[test]
fn last_value_set_wins() {
    let mut s = SystemState::new();
    s.set_service("ollama", true);
    s.set_service("comfy-safe", true);
    s.set_service("ollama", false);
    s.set_service("comfy-safe", false);
    s.set_service("comfy-safe", true);
    assert!(!s.get_service("ollama"));
    assert!(s.get_service("comfy-safe"));
    assert!(!s.get_service("comfy-unsafe"));
    assert_eq!(s.services.to_vec().len(), 2);
}

#[test]
fn coffee_or_service_makes_state_active() {
    let mut s = SystemState::new();
    s.coffee = true;
    assert!(s.any_active());
    s.coffee = false;
    s.set_service("comfy-unsafe", true);
    assert!(s.any_active());
    assert!(!s.all_inactive());
}

#[test]
fn inhibitor_set_insert_and_get() {
    let mut set = InhibitorSet::new();
    assert!(!set.any_active());
    set.insert("a", true);
    set.insert("b", false);
    assert!(set.get("a"));
    assert!(!set.get("b"));
    assert!(set.any_active());
    set.insert("a", false);
    assert!(!set.any_active());
    let copy = set.snapshot();
    assert_eq!(copy.to_vec(), set.to_vec());
}

#[test]
fn clear_errors_ignores_case() {
    let mut s = SystemState::new();
    s.add_error("OLLAMA service failed to start".to_string());
    s.add_error("System suspension failed: boom".to_string());
    s.add_error("comfy-safe down".to_string());
    s.clear_errors_for("Ollama");
    assert_eq!(
        s.errors,
        vec!["System suspension failed: boom".to_string(), "comfy-safe down".to_string()]
    );
}

#[test]
fn store_clear_errors_publishes_only_when_log_shrinks() {
    let mut st = store();
    let snap = st.add_error("ollama broke".to_string());
    assert_eq!(snap.errors, vec!["ollama broke".to_string()]);
    assert!(st.clear_errors_for("comfy-safe").is_none());
    assert_eq!(st.get_system_state().errors.len(), 1);
    let cleared = st.clear_errors_for("OLLAMA");
    assert!(cleared.is_some());
    assert!(cleared.unwrap().errors.is_empty());
    assert!(st.clear_errors_for("ollama").is_none());
}

#[test]
fn set_twice_same_snapshot_as_once() {
    let mut once = store();
    let a = once.set_service("x", true, at(1));
    let mut twice = store();
    twice.set_service("x", true, at(1));
    let b = twice.set_service("x", true, at(2));
    assert_eq!(a.services.to_vec(), b.services.to_vec());
    assert_eq!(a.coffee, b.coffee);
    assert_eq!(a.errors, b.errors);
    assert_eq!(once.get_last_action().0, twice.get_last_action().0);
    assert_eq!(twice.get_last_action().1, Some(at(2)));
}

#[test]
fn set_coffee_records_labels() {
    let mut st = store();
    assert_eq!(st.get_last_action(), (None, None));
    let s = st.set_coffee(true, at(7));
    assert!(s.coffee);
    assert_eq!(st.get_last_action(), (Some("coffee".to_string()), Some(at(7))));
    let s = st.set_coffee(false, at(8));
    assert!(!s.coffee);
    assert_eq!(st.get_last_action().0, Some("chill".to_string()));
}

#[test]
fn set_ollama_records_labels() {
    let mut st = store();
    let s = st.set_ollama(true, at(3));
    assert!(s.get_service("ollama"));
    assert_eq!(st.get_last_action().0, Some("ollama-on".to_string()));
    st.set_ollama(false, at(4));
    assert_eq!(st.get_last_action().0, Some("ollama-off".to_string()));
    assert!(st.get_system_state().all_inactive());
}

#[test]
fn update_state_applies_change() {
    let mut st = store();
    let s = st.update_state("custom", StateChange::Service("comfy-safe".to_string(), true), at(9));
    assert!(s.get_service("comfy-safe"));
    assert_eq!(st.get_last_action().0, Some("custom".to_string()));
    let s = st.update_state("manual", StateChange::Coffee(true), at(10));
    assert!(s.coffee);
}

#[test]
fn timer_status_inactive_drops_seconds() {
    let mut st = store();
    assert_eq!(st.get_timer_state(), TimerState::inactive());
    let t = st.update_timer_state(true, Some(42));
    assert_eq!(t, TimerState::active(42));
    let t = st.update_timer_state(false, Some(42));
    assert_eq!(t, TimerState { active: false, remaining_seconds: None });
    assert_eq!(st.get_timer_state(), TimerState::new());
}

#[test]
fn timer_state_accessors() {
    let t = TimerState::active(5);
    assert!(t.is_active());
    assert_eq!(t.remaining_seconds(), Some(5));
    let odd = TimerState { active: false, remaining_seconds: Some(3) };
    assert_eq!(odd.remaining_seconds(), None);
    assert_eq!(TimerState::default(), TimerState::new());
}

#[test]
fn uptime_formats() {
    assert_eq!(format_uptime(0), "0s");
    assert_eq!(format_uptime(59), "59s");
    assert_eq!(format_uptime(61), "1m 1s");
    assert_eq!(format_uptime(3600), "1h 0m 0s");
    assert_eq!(format_uptime(3 * 3600 + 25 * 60 + 7), "3h 25m 7s");
}

#[test]
fn store_uptime_counts_from_start() {
    let st = store();
    assert_eq!(st.get_uptime(5_000 + 125_900), "2m 5s");
    assert_eq!(st.get_uptime(1_000), "0s");
}

#[test]
fn decimal_rendering() {
    assert_eq!(decimal_text(0), "0");
    assert_eq!(decimal_text(7), "7");
    assert_eq!(decimal_text(20553), "20553");
    assert_eq!(decimal_text(u64::MAX), "18446744073709551615");
}

#[test]
fn suspended_marker_and_wake_check() {
    let mut st = store();
    assert!(!st.is_suspended());
    assert!(st.wake_check().is_none());
    st.set_suspended(true);
    assert!(st.is_suspended());
    let snap = st.wake_check();
    assert!(snap.is_some());
    assert!(!snap.unwrap().is_suspended());
    assert!(!st.is_suspended());
    assert!(st.wake_check().is_none());
}

#[test]
fn trigger_state_check_returns_current_state() {
    let mut st = store();
    st.set_coffee(true, at(1));
    let s = st.trigger_state_check();
    assert!(s.coffee);
    assert!(s.get_service("ollama") == false);
}

#[test]
fn status_reports_everything() {
    let mut st = store();
    st.set_coffee(true, at(11));
    st.update_timer_state(true, Some(30));
    let r = st.status(5_000 + 3_661_000);
    assert!(r.states.coffee);
    assert!(r.timer_active);
    assert_eq!(r.timer_remaining_seconds, Some(30));
    assert_eq!(r.uptime, "1h 1m 1s");
    assert_eq!(r.port, 20553);
    assert_eq!(r.host, "0.0.0.0");
    assert_eq!(r.last_action, Some("coffee".to_string()));
    assert_eq!(r.last_action_time, Some(at(11)));
}
