use order_coffee::config::Config;
use order_coffee::responses::{start_report, stop_report, ApiResponse, HealthResponse};
use order_coffee::app_state::Timestamp;
use order_coffee::services::{initial_sync, Progress, ServiceCall, ServiceConfig, ServiceStart, Stage};
use order_coffee::system_state::SystemState;

fn fail(d: &str) -> Result<(), String> {
    Err(d.to_string())
}

#[test]
fn descriptors_by_name() {
    let o = ServiceConfig::from_name("ollama").unwrap();
    assert_eq!(o.service_name, "ollama.service");
    assert_eq!(o.process_name.as_deref(), Some("ollama"));
    assert!(o.recovery_enabled);
    let u = ServiceConfig::from_name("comfy-unsafe").unwrap();
    assert_eq!(u.service_name, "comfy-unsafe.service");
    assert_eq!(u.process_name.as_deref(), Some("comfy-unsafe"));
    let s = ServiceConfig::from_name("comfy-safe").unwrap();
    assert_eq!(s.service_name, "comfy-safe.service");
    assert_eq!(s.process_name.as_deref(), Some("comfy-safe"));
    assert!(ServiceConfig::from_name("ollama.service").is_none());
    assert!(ServiceConfig::from_name("").is_none());
    assert!(ServiceConfig::from_name("Ollama").is_none());
}

#[test]
fn plain_start_success_needs_no_recovery() {
    let (mut m, call) = ServiceStart::begin(&ServiceConfig::ollama());
    assert_eq!(call, ServiceCall::Start);
    assert_eq!(m.advance(Ok(())), Progress::Succeeded { recovered: false });
    assert_eq!(m.stage, Stage::Finished);
}

#[test]
fn failed_start_recovered_by_first_step() {
    let (mut m, call) = ServiceStart::begin(&ServiceConfig::ollama());
    let mut calls = vec![call];
    let outcomes = vec![fail("start failed"), Ok(()), Ok(()), Ok(())];
    let mut end = None;
    for o in outcomes {
        match m.advance(o) {
            Progress::Next(c) => calls.push(c),
            done => {
                end = Some(done);
                break;
            }
        }
    }
    assert_eq!(end, Some(Progress::Succeeded { recovered: true }));
    assert_eq!(
        calls,
        vec![ServiceCall::Start, ServiceCall::ForceTerminate, ServiceCall::Cooldown, ServiceCall::Start]
    );
    assert!(!calls.contains(&ServiceCall::ReloadManager));
    assert!(!calls.contains(&ServiceCall::Restart));
}

#[test]
fn escalation_runs_both_steps_in_order_then_fails() {
    let (mut m, call) = ServiceStart::begin(&ServiceConfig::comfy_safe());
    let mut calls = vec![call];
    let outcomes = vec![fail("a"), fail("no pkill"), Ok(()), fail("b"), Ok(()), fail("c")];
    let mut end = None;
    for o in outcomes {
        match m.advance(o) {
            Progress::Next(c) => calls.push(c),
            done => {
                end = Some(done);
                break;
            }
        }
    }
    assert_eq!(end, Some(Progress::Failed));
    assert_eq!(
        calls,
        vec![
            ServiceCall::Start,
            ServiceCall::ForceTerminate,
            ServiceCall::Cooldown,
            ServiceCall::Start,
            ServiceCall::ReloadManager,
            ServiceCall::Restart,
        ]
    );
    assert_eq!(
        m.failure_text(),
        "All comfy-safe.service service recovery attempts failed: a; no pkill; b; c"
    );
}

#[test]
fn restart_success_ends_recovery() {
    let (mut m, _) = ServiceStart::begin(&ServiceConfig::ollama());
    assert_eq!(m.advance(fail("x")), Progress::Next(ServiceCall::ForceTerminate));
    assert_eq!(m.advance(Ok(())), Progress::Next(ServiceCall::Cooldown));
    assert_eq!(m.advance(Ok(())), Progress::Next(ServiceCall::Start));
    assert_eq!(m.advance(fail("y")), Progress::Next(ServiceCall::ReloadManager));
    assert_eq!(m.advance(fail("z")), Progress::Next(ServiceCall::Restart));
    assert_eq!(m.advance(Ok(())), Progress::Succeeded { recovered: true });
}

#[test]
fn no_pattern_skips_force_termination() {
    let config = ServiceConfig {
        service_name: "plain.service".to_string(),
        process_name: None,
        recovery_enabled: true,
    };
    let (mut m, _) = ServiceStart::begin(&config);
    assert_eq!(m.advance(fail("x")), Progress::Next(ServiceCall::Cooldown));
    let (r, first) = ServiceStart::begin_recovery(&config);
    assert_eq!(first, ServiceCall::Cooldown);
    assert_eq!(r.stage, Stage::CoolingDown);
}

#[test]
fn recovery_disabled_fails_with_start_diagnostic() {
    let config = ServiceConfig {
        service_name: "plain.service".to_string(),
        process_name: Some("plain".to_string()),
        recovery_enabled: false,
    };
    let (mut m, _) = ServiceStart::begin(&config);
    assert_eq!(m.advance(fail("systemctl start failed: nope")), Progress::Failed);
    assert_eq!(m.failure_text(), "systemctl start failed: nope");
}

#[test]
fn begin_recovery_starts_with_force_termination() {
    let (m, first) = ServiceStart::begin_recovery(&ServiceConfig::comfy_unsafe());
    assert_eq!(first, ServiceCall::ForceTerminate);
    assert_eq!(m.stage, Stage::Terminating);
}

#[test]
fn initial_sync_decisions() {
    assert_eq!(initial_sync(Some(true), false), Some(ServiceCall::Stop));
    assert_eq!(initial_sync(Some(false), true), Some(ServiceCall::Start));
    assert_eq!(initial_sync(Some(false), false), None);
    assert_eq!(initial_sync(Some(true), true), None);
    assert_eq!(initial_sync(None, false), None);
}

#[test]
fn start_report_success_and_failure() {
    let r = start_report("ollama", &Ok(false));
    assert!(r.active);
    assert_eq!(r.action, "ollama-on");
    assert_eq!(r.error, None);
    assert_eq!(r.status, "active");
    assert_eq!(r.message, "ollama service started");
    let r = start_report("ollama", &Ok(true));
    assert_eq!(r.message, "ollama service started after recovery");
    let r = start_report("ollama", &Err("boom".to_string()));
    assert!(!r.active);
    assert_eq!(r.action, "ollama-off");
    assert_eq!(r.status, "error");
    assert_eq!(r.message, "ollama service failed to start: boom");
    assert_eq!(r.error, Some("ollama service failed to start: boom".to_string()));
}

#[test]
fn stop_report_cases() {
    let r = stop_report("comfy-safe", &Ok(()), &None);
    assert!(!r.active);
    assert_eq!(r.action, "comfy-safe-off");
    assert_eq!(r.status, "inactive");
    assert_eq!(r.message, "comfy-safe service stopped");
    assert_eq!(r.error, None);
    let r = stop_report("comfy-safe", &fail("busy"), &Some(Ok(())));
    assert_eq!(r.message, "comfy-safe service stop attempted");
    assert_eq!(r.error, None);
    let r = stop_report("comfy-safe", &fail("busy"), &Some(fail("no pkill")));
    assert_eq!(r.error, Some("comfy-safe service stop failed: busy".to_string()));
    let r = stop_report("comfy-safe", &fail("busy"), &None);
    assert_eq!(r.error, None);
}

#[test]
fn responses_carry_status() {
    let ts = Timestamp { seconds: 100, nanos: 5 };
    let a = ApiResponse::active("m".to_string(), SystemState::new(), ts);
    assert_eq!(a.status, "active");
    assert_eq!(a.message, "m");
    assert_eq!(a.timestamp, ts);
    assert_eq!(ApiResponse::inactive("m".to_string(), SystemState::new(), ts).status, "inactive");
    assert_eq!(ApiResponse::error("m".to_string(), SystemState::new(), ts).status, "error");
    let h = HealthResponse::ok(ts);
    assert_eq!(h.status, "ok");
    assert_eq!(h.version, "2.0.0");
}

#[test]
fn config_address_and_log_level() {
    let mut c = Config { port: 20553, host: "0.0.0.0".to_string(), timer: 10, verbose: false };
    assert_eq!(c.address(), "0.0.0.0:20553");
    assert_eq!(c.log_level(), "info");
    c.verbose = true;
    c.port = 0;
    assert_eq!(c.address(), "0.0.0.0:0");
    assert_eq!(c.log_level(), "debug");
}
