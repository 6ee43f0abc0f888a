//! Keeps a machine awake while named inhibitors are active, and arms a
//! countdown that suspends the machine once every inhibitor has gone inactive.
//!
//! The library holds the logic: the state store, the suspension scheduler, the
//! wake-up check and the service recovery protocol, each as plain values and
//! step functions. Channels, clocks, processes and HTTP stay with the caller.

pub mod system_state;
pub mod text;
pub mod app_state;
pub mod config;
pub mod responses;
pub mod services;
pub mod suspension_timer;
pub mod timer_state;

pub use app_state::AppState;
pub use config::Config;
