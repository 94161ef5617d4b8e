//! Verified core of a fixed-frame echo load generator.
//!
//! The library holds the wire codec for 1024-byte frames, the per-connection
//! worker state machine, and the result aggregation that turns per-worker
//! counts into a run report. Socket I/O, threads and argument parsing live
//! outside the library and drive it through plain values.

pub mod codec;
pub mod config;
pub mod report;
pub mod worker;
