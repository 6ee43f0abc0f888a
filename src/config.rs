//! The server's settings.

use vstd::prelude::*;
use crate::text::{decimal, decimal_text};

verus! {

/// Where to listen, how long the countdown runs, and how much to log.
pub struct Config {
    /// The port to bind to.
    pub port: u16,
    /// The host address to bind to.
    pub host: String,
    /// The suspension countdown, in minutes.
    pub timer: u64,
    /// Log at debug level.
    pub verbose: bool,
}

impl Config {
    /// The address to bind to, "host:port".
    pub fn address(&self) -> (r: String)
        ensures
            r@ == self.host@ + ":"@ + decimal(self.port as nat),
    {
        let mut r = self.host.clone();
        r.append(":");
        r.append(decimal_text(self.port as u64).as_str());
        r
    }

    /// The log level: "debug" when verbose, else "info".
    pub fn log_level(&self) -> (r: &'static str)
        ensures
            r@ == if self.verbose { "debug"@ } else { "info"@ },
    {
        if self.verbose {
            "debug"
        } else {
            "info"
        }
    }
}

} // verus!
