//! Configuration options for the Urbit HTTP API client.

use vstd::prelude::*;
use std::time::Duration;

verus! {

/// A span of `secs` whole seconds (`Duration::from_secs`).
pub uninterp spec fn seconds(secs: u64) -> Duration;

/// `Duration::from_secs`: claims that the result is the span of `secs` seconds.
#[verifier::external_body]
fn duration_from_secs(secs: u64) -> (d: Duration)
    ensures
        d == seconds(secs),
{
    Duration::from_secs(secs)
}

#[derive(Debug)]
pub struct Config {
    /// The interval to wait before attempting to reconnect to a dropped SSE connection.
    pub reconnect_interval: Duration,
    /// Optional timeout for HTTP requests.
    pub timeout: Option<Duration>,
    /// Enable debug logging.
    pub debug: bool,
}

impl Clone for Config {
    fn clone(&self) -> (r: Self)
        ensures
            r == *self,
    {
        Config { reconnect_interval: self.reconnect_interval, timeout: self.timeout, debug: self.debug }
    }
}

impl Default for Config {
    /// Five seconds between reconnections, no request timeout, no debug logging.
    fn default() -> (r: Self)
        ensures
            r.reconnect_interval == seconds(5),
            r.timeout is None,
            !r.debug,
    {
        Config { reconnect_interval: duration_from_secs(5), timeout: None, debug: false }
    }
}

} // verus!
