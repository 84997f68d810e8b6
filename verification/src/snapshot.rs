//! The immutable telemetry values produced once per sampling cycle.
//!
//! A `ResourceSnapshot` carries the per-core CPU utilization and the memory
//! figures; a `TemperatureSnapshot` carries whichever of the CPU
//! temperature, GPU temperature and fan speed were obtained that cycle.
//! CPU utilization is stored in hundredths of a percent (0 to 10000) and
//! temperatures in whole degrees Celsius, so every field is a plain integer.

use vstd::prelude::*;

use crate::fan::{MAX_FAN_PERCENTAGE, MIN_FAN_PERCENTAGE};

verus! {

/// Largest per-core utilization value: 100%, in hundredths of a percent.
pub const MAX_CPU_USAGE: u32 = 10000;

/// Per-cycle host load: one utilization value per logical core, and the
/// memory usage in bytes.
#[derive(Debug, PartialEq)]
pub struct ResourceSnapshot {
    /// Per-core utilization, in hundredths of a percent, ordered by core.
    pub cpu_usage: Vec<u32>,
    /// Bytes of memory in use.
    pub mem_used: u64,
    /// Bytes of memory installed.
    pub mem_total: u64,
}

/// The mathematical value of a `ResourceSnapshot`.
pub struct ResourceSnapshotView {
    pub cpu_usage: Seq<u32>,
    pub mem_used: u64,
    pub mem_total: u64,
}

impl ResourceSnapshotView {
    /// Invariant: memory in use never exceeds memory installed, and each
    /// core's utilization is at most 100%.
    pub open spec fn wf(self) -> bool {
        &&& self.mem_used <= self.mem_total
        &&& forall|i: int| 0 <= i < self.cpu_usage.len() ==> #[trigger] self.cpu_usage[i]
            <= MAX_CPU_USAGE
    }
}

impl View for ResourceSnapshot {
    type V = ResourceSnapshotView;

    open spec fn view(&self) -> ResourceSnapshotView {
        ResourceSnapshotView {
            cpu_usage: self.cpu_usage@,
            mem_used: self.mem_used,
            mem_total: self.mem_total,
        }
    }
}

impl ResourceSnapshot {
    /// Builds the per-cycle load snapshot from fresh readings.
    pub fn new(cpu_usage: Vec<u32>, mem_used: u64, mem_total: u64) -> (s: ResourceSnapshot)
        requires
            mem_used <= mem_total,
            forall|i: int| 0 <= i < cpu_usage@.len() ==> #[trigger] cpu_usage@[i] <= MAX_CPU_USAGE,
        ensures
            s@ == (ResourceSnapshotView { cpu_usage: cpu_usage@, mem_used, mem_total }),
            s@.wf(),
    {
        ResourceSnapshot { cpu_usage, mem_used, mem_total }
    }
}

impl Clone for ResourceSnapshot {
    /// A clone carries the same mathematical value.
    fn clone(&self) -> (res: Self)
        ensures
            res@ == self@,
    {
        let cpu_usage = self.cpu_usage.clone();
        proof {
            assert(cpu_usage@ =~= self.cpu_usage@);
        }
        ResourceSnapshot { cpu_usage, mem_used: self.mem_used, mem_total: self.mem_total }
    }
}

/// Per-cycle thermal and control state. A field is `None` when the
/// corresponding reading or decision was not obtained that cycle; the GPU
/// temperature and the fan speed are only ever populated alongside a valid
/// CPU reading.
#[derive(Clone, Copy, Debug, PartialEq)]
pub struct TemperatureSnapshot {
    /// CPU temperature in whole degrees Celsius.
    pub cpu_temp: Option<i32>,
    /// Average GPU temperature in whole degrees Celsius, as the devices
    /// report it: unsigned.
    pub gpu_temp: Option<u32>,
    /// Fan duty cycle commanded this cycle, in percent.
    pub fan_speed: Option<i32>,
}

impl TemperatureSnapshot {
    /// Invariant: the GPU temperature and the fan speed appear only together
    /// with a CPU temperature, and a published fan speed is within the valid
    /// duty-cycle range.
    pub open spec fn wf(self) -> bool {
        &&& (self.gpu_temp is Some || self.fan_speed is Some) ==> self.cpu_temp is Some
        &&& self.fan_speed matches Some(v) ==> MIN_FAN_PERCENTAGE <= v <= MAX_FAN_PERCENTAGE
    }
}

/// One telemetry sample, as published on the hub's two channels.
#[derive(Debug, PartialEq)]
pub enum Snapshot {
    Ressource(ResourceSnapshot),
    Temperature(TemperatureSnapshot),
}

/// The mathematical value of a `Snapshot`.
pub enum SnapshotView {
    Ressource(ResourceSnapshotView),
    Temperature(TemperatureSnapshot),
}

impl View for Snapshot {
    type V = SnapshotView;

    open spec fn view(&self) -> SnapshotView {
        match self {
            Snapshot::Ressource(r) => SnapshotView::Ressource(r@),
            Snapshot::Temperature(t) => SnapshotView::Temperature(*t),
        }
    }
}

impl Clone for Snapshot {
    /// A clone carries the same mathematical value.
    fn clone(&self) -> (res: Self)
        ensures
            res@ == self@,
    {
        match self {
            Snapshot::Ressource(r) => Snapshot::Ressource(r.clone()),
            Snapshot::Temperature(t) => Snapshot::Temperature(*t),
        }
    }
}

} // verus!
