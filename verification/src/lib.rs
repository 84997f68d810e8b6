//! Core of a host telemetry monitor: a periodic sampler turns sensor
//! readings into immutable snapshots, a broadcast hub fans each snapshot out
//! to every live subscriber, and a hysteresis fan controller converts
//! temperature readings into a bounded actuation signal.
//!
//! All sensor access, actuation, and transport I/O live outside this crate;
//! the functions here take plain readings as arguments and return the
//! decisions (snapshots to publish, the next fan speed, whether to actuate).

use vstd::prelude::*;

pub mod fan;
pub mod gpu;
pub mod hub;
pub mod sampler;
pub mod snapshot;

verus! {

/// Command-line options consumed by the surrounding program: where the web
/// server listens and whether GPU temperature reporting is enabled.
pub struct ArgParser {
    pub host: String,
    pub port: String,
    pub show_gpu_temp: bool,
}

} // verus!
