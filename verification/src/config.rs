//! Runtime configuration of the server: one immutable value, loaded from a
//! JSON file at startup by the surrounding program and passed into every
//! connection's execution unit. No ambient globals.

use vstd::prelude::*;

verus! {

/// The configuration snapshot a running server is given.
#[derive(Debug, Clone)]
pub struct Config {
    /// Base directory of the storage gateway.
    pub storage_path: String,
    /// Address the listening socket binds to.
    pub bind_address: String,
    /// Base URL of the coordinator.
    pub scotty_url: String,
    /// Where crash and error telemetry is sent.
    pub sentry_dsn: String,
    /// Log verbosity of the surrounding program.
    pub log_level: String,
}

} // verus!
