//! The immutable configuration snapshot of one run.
//!
//! The orchestrator resolves it once and copies it into every worker; the
//! defaults here are what a run uses when a flag is absent or does not
//! parse.

use vstd::prelude::*;
use vstd::string::StringExecFns;

verus! {

/// Payload length a run uses when none is given. The codec caps what it
/// copies at the fixed payload size, so the effective default payload is
/// 1021 bytes.
pub const DEFAULT_LENGTH: usize = 1024;

/// Run duration in seconds when none is given.
pub const DEFAULT_DURATION: u64 = 60;

/// Worker count when none is given.
pub const DEFAULT_NUMBER: u32 = 10000;

/// One run's configuration: target address, payload length in bytes,
/// run duration in seconds, and how many workers to spawn.
pub struct RunConfig {
    pub address: String,
    pub length: usize,
    pub duration: u64,
    pub number: u32,
}

impl RunConfig {
    /// A configuration with everything given.
    pub fn new(address: String, length: usize, duration: u64, number: u32) -> (c: Self)
        ensures
            c.address@ == address@,
            c.length == length,
            c.duration == duration,
            c.number == number,
    {
        RunConfig { address, length, duration, number }
    }
}

impl Default for RunConfig {
    /// The configuration of a run started without any flags.
    fn default() -> (c: Self)
        ensures
            c.address@ == "192.168.31.237:8080"@,
            c.length == DEFAULT_LENGTH,
            c.duration == DEFAULT_DURATION,
            c.number == DEFAULT_NUMBER,
    {
        RunConfig {
            address: String::from_str("192.168.31.237:8080"),
            length: DEFAULT_LENGTH,
            duration: DEFAULT_DURATION,
            number: DEFAULT_NUMBER,
        }
    }
}

} // verus!
