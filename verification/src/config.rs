//! Application configuration defaults.

use vstd::prelude::*;

verus! {

use vstd::string::StringExecFns;

/// Connection settings shared by the service's processes.
#[derive(Debug, Clone)]
pub struct Config {
    pub redis_host: String,
    pub timeout_seconds: u64,
}

impl Config {
    /// The default configuration: a local store and a 30 second
    /// timeout.
    pub fn new() -> (r: Self)
        ensures
            r.redis_host@ == "localhost:6379"@,
            r.timeout_seconds == 30,
    {
        Config { redis_host: String::from_str("localhost:6379"), timeout_seconds: 30 }
    }
}

} // verus!
