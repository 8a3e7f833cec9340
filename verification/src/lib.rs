//! Exporter core for a mobile-account usage portal: normalizes locale-formatted
//! usage text, extracts typed values from portal HTML pages, keeps the last
//! observed values in a mergeable telemetry state, renders them in a plain-text
//! metrics exposition format, and decides the polling state machine's moves.

use vstd::prelude::*;

pub mod client;
pub mod poller;
pub mod render;
pub mod state;
pub mod text;

verus! {

/// Runtime configuration for the exporter: portal credentials, the polling
/// interval in seconds, and the port the metrics endpoint listens on.
/// Credentials are opaque secrets: nothing in the library renders or logs
/// them.
#[derive(Clone)]
pub struct Config {
    pub username: String,
    pub password: String,
    pub interval: u64,
    pub listen_port: u16,
}

/// Polling interval, in seconds, used when none is configured.
pub fn default_interval() -> (r: u64)
    ensures
        r == 600,
{
    600
}

/// Listen port used when none is configured.
pub fn default_listen_port() -> (r: u16)
    ensures
        r == 8080,
{
    8080
}

} // verus!
