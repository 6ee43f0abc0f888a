//! The bodies that the HTTP layer sends back, and the decisions about what a
//! service start or stop leaves in the store and says to the client.

use vstd::prelude::*;
use crate::app_state::{service_label, text_of, uptime_text, seconds_since, AppState, Timestamp};
use crate::system_state::SystemState;

verus! {

/// The answer to a request that changes state.
pub struct ApiResponse {
    /// "active", "inactive" or "error".
    pub status: String,
    pub message: String,
    pub timestamp: Timestamp,
    pub states: SystemState,
}

impl ApiResponse {
    pub fn new(status: String, message: String, states: SystemState, timestamp: Timestamp) -> (r: Self)
        ensures
            r.status == status,
            r.message == message,
            r.states == states,
            r.timestamp == timestamp,
    {
        ApiResponse { status, message, timestamp, states }
    }

    pub fn active(message: String, states: SystemState, timestamp: Timestamp) -> (r: Self)
        ensures
            r.status@ == "active"@,
            r.message == message,
            r.states == states,
            r.timestamp == timestamp,
    {
        Self::new("active".to_owned(), message, states, timestamp)
    }

    pub fn inactive(message: String, states: SystemState, timestamp: Timestamp) -> (r: Self)
        ensures
            r.status@ == "inactive"@,
            r.message == message,
            r.states == states,
            r.timestamp == timestamp,
    {
        Self::new("inactive".to_owned(), message, states, timestamp)
    }

    pub fn error(message: String, states: SystemState, timestamp: Timestamp) -> (r: Self)
        ensures
            r.status@ == "error"@,
            r.message == message,
            r.states == states,
            r.timestamp == timestamp,
    {
        Self::new("error".to_owned(), message, states, timestamp)
    }
}

/// The answer to a status request.
pub struct StatusResponse {
    pub states: SystemState,
    pub timer_active: bool,
    pub timer_remaining_seconds: Option<u64>,
    pub uptime: String,
    pub port: u16,
    pub host: String,
    pub last_action: Option<String>,
    pub last_action_time: Option<Timestamp>,
}

impl AppState {
    /// Everything a status request reports, at the clock reading `now_ms`.
    pub fn status(&self, now_ms: u64) -> (r: StatusResponse)
        ensures
            r.states@ == self.system_state@,
            r.timer_active == self.timer_state.active,
            r.timer_remaining_seconds == self.timer_state.remaining_seconds,
            r.uptime@ == uptime_text(seconds_since(self.start_time_ms, now_ms)),
            r.port == self.port,
            r.host@ == self.host@,
            text_of(r.last_action) == text_of(self.last_action),
            r.last_action_time == self.last_action_time,
    {
        let (last_action, last_action_time) = self.get_last_action();
        StatusResponse {
            states: self.get_system_state(),
            timer_active: self.timer_state.active,
            timer_remaining_seconds: self.timer_state.remaining_seconds,
            uptime: self.get_uptime(now_ms),
            port: self.port,
            host: self.host.clone(),
            last_action,
            last_action_time,
        }
    }
}

/// The answer to a health check.
pub struct HealthResponse {
    pub status: String,
    pub timestamp: Timestamp,
    pub version: String,
}

impl HealthResponse {
    pub fn ok(timestamp: Timestamp) -> (r: Self)
        ensures
            r.status@ == "ok"@,
            r.timestamp == timestamp,
            r.version@ == "2.0.0"@,
    {
        HealthResponse { status: "ok".to_owned(), timestamp, version: "2.0.0".to_owned() }
    }
}

/// What a finished service start or stop leaves in the store and says to the
/// client: the value its flag takes (recorded under `action`), the error to
/// append to the log, if any, and the status and message of the answer.
pub struct ServiceReport {
    pub active: bool,
    pub action: String,
    pub error: Option<String>,
    pub status: String,
    pub message: String,
}

/// The report of a service start: `result` is `Ok(recovered)` when the
/// service runs, with `recovered` telling whether recovery was needed, or
/// `Err(diagnostic)` when it could not be started. A failed start forces
/// the flag off and appends an error.
pub fn start_report(service_name: &str, result: &Result<bool, String>) -> (r: ServiceReport)
    ensures
        r.active == result is Ok,
        r.action@ == service_label(service_name@, result is Ok),
        match result {
            Ok(recovered) => {
                &&& r.error is None
                &&& r.status@ == "active"@
                &&& r.message@ == service_name@ + if *recovered {
                    " service started after recovery"@
                } else {
                    " service started"@
                }
            },
            Err(d) => {
                &&& r.error matches Some(e) && e@ == service_name@ + " service failed to start: "@ + d@
                &&& r.status@ == "error"@
                &&& r.message@ == service_name@ + " service failed to start: "@ + d@
            },
        },
{
    let ok = result.is_ok();
    let mut action = service_name.to_owned();
    if ok {
        action.append("-on");
    } else {
        action.append("-off");
    }
    let mut message = service_name.to_owned();
    match result {
        Ok(recovered) => {
            if *recovered {
                message.append(" service started after recovery");
            } else {
                message.append(" service started");
            }
            ServiceReport { active: true, action, error: None, status: "active".to_owned(), message }
        },
        Err(d) => {
            message.append(" service failed to start: ");
            message.append(d.as_str());
            let error = Some(message.clone());
            ServiceReport { active: false, action, error, status: "error".to_owned(), message }
        },
    }
}

/// The report of a service stop: `stop` is the outcome of the stop itself,
/// and `kill` that of the force-termination tried after a failed stop, if
/// one was tried. The flag always goes off; an error is appended only when
/// both the stop and the force-termination failed.
pub fn stop_report(service_name: &str, stop: &Result<(), String>, kill: &Option<Result<(), String>>) -> (r: ServiceReport)
    ensures
        !r.active,
        r.action@ == service_label(service_name@, false),
        r.status@ == "inactive"@,
        match stop {
            Ok(_) => {
                &&& r.error is None
                &&& r.message@ == service_name@ + " service stopped"@
            },
            Err(d) => {
                &&& r.message@ == service_name@ + " service stop attempted"@
                &&& match kill {
                    Some(Err(_)) => r.error matches Some(e) && e@ == service_name@ + " service stop failed: "@ + d@,
                    _ => r.error is None,
                }
            },
        },
{
    let mut action = service_name.to_owned();
    action.append("-off");
    let mut message = service_name.to_owned();
    match stop {
        Ok(_) => {
            message.append(" service stopped");
            ServiceReport { active: false, action, error: None, status: "inactive".to_owned(), message }
        },
        Err(d) => {
            message.append(" service stop attempted");
            let error = match kill {
                Some(Err(_)) => {
                    let mut e = service_name.to_owned();
                    e.append(" service stop failed: ");
                    e.append(d.as_str());
                    Some(e)
                },
                _ => None,
            };
            ServiceReport { active: false, action, error, status: "inactive".to_owned(), message }
        },
    }
}

} // verus!
