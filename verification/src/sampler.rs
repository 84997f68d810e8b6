//! The per-cycle decisions of the telemetry sampler.
//!
//! The surrounding program owns the loop: each cycle it gathers raw sensor
//! readings, hands them to `run_cycle`, performs the returned actuation (if
//! any) and sleeps for the fixed cadence. Everything decided from the
//! readings — what is published on which channel, whether the controller
//! runs, the next fan speed, whether to actuate — happens here.
//!
//! Failure semantics: a failed CPU-temperature read skips the cycle's
//! temperature publication and the controller; a failed GPU read (or zero
//! devices) still publishes the CPU temperature alone but disables the
//! controller for the cycle. Nothing here ever terminates the loop — the
//! next cycle is the retry.

use vstd::prelude::*;

use crate::fan::{
    liquidctl_modify_fan_speed, next_speed, MAX_FAN_PERCENTAGE, MIN_FAN_PERCENTAGE,
};
use crate::gpu::{get_gpu_avg_temp, mean_of, SensorError};
use crate::hub::{publish_effect, Hub};
use crate::snapshot::{
    ResourceSnapshot, ResourceSnapshotView, Snapshot, SnapshotView, TemperatureSnapshot,
    MAX_CPU_USAGE,
};

verus! {

/// Configuration the core consumes: whether GPU temperatures are reported
/// and whether the fan controller is active.
#[derive(Clone, Copy, Debug)]
pub struct Config {
    pub show_gpu_temp: bool,
    pub enable_fan_control: bool,
}

/// Process-lifetime state owned exclusively by the sampler: the speed the
/// controller last commanded.
#[derive(Clone, Copy, Debug, PartialEq, Eq, Structural)]
pub struct ControllerState {
    pub last_speed: i32,
}

impl ControllerState {
    /// Invariant: the retained speed is always within the valid duty-cycle
    /// range.
    pub open spec fn wf(self) -> bool {
        MIN_FAN_PERCENTAGE <= self.last_speed <= MAX_FAN_PERCENTAGE
    }
}

/// One cycle's raw readings, as the sensor adapter hands them in: CPU
/// utilization per core in hundredths of a percent, memory in bytes,
/// temperatures in whole degrees Celsius (the GPU as one reading per
/// device, not yet averaged). A failed read arrives as the error it failed
/// with.
pub struct SensorReadings {
    pub cpu_usage: Vec<u32>,
    pub mem_used: u64,
    pub mem_total: u64,
    pub cpu_temp: Result<i32, SensorError>,
    pub gpu_temps: Result<Vec<u32>, SensorError>,
}

impl SensorReadings {
    /// What the sensor adapter guarantees of its readings: utilization is a
    /// percentage, memory in use fits in memory installed, and there are at
    /// most as many GPU readings as 32-bit device indices.
    pub open spec fn wf(self) -> bool {
        &&& self.mem_used <= self.mem_total
        &&& forall|i: int|
            0 <= i < self.cpu_usage@.len() ==> #[trigger] self.cpu_usage@[i] <= MAX_CPU_USAGE
        &&& (self.gpu_temps matches Ok(ts) ==> ts@.len() <= u32::MAX)
    }
}

/// The load snapshot a cycle publishes: exactly the readings.
pub open spec fn resource_view_of(r: SensorReadings) -> ResourceSnapshotView {
    ResourceSnapshotView { cpu_usage: r.cpu_usage@, mem_used: r.mem_used, mem_total: r.mem_total }
}

/// The GPU temperature of the cycle: the mean of the per-device readings,
/// present only when GPU reporting is enabled, the read succeeded and at
/// least one device was enumerated.
pub open spec fn cycle_gpu_temp(config: Config, r: SensorReadings) -> Option<u32> {
    if config.show_gpu_temp {
        match r.gpu_temps {
            Ok(ts) => if ts@.len() > 0 {
                Some(mean_of(ts@) as u32)
            } else {
                None
            },
            Err(_) => None,
        }
    } else {
        None
    }
}

/// Whether the fan controller runs this cycle: fan control is enabled and
/// both temperatures were obtained.
pub open spec fn fan_engaged(config: Config, r: SensorReadings) -> bool {
    &&& config.enable_fan_control
    &&& r.cpu_temp is Ok
    &&& cycle_gpu_temp(config, r) is Some
}

/// The speed retained after the cycle: the controller's decision when it
/// ran, the previous speed otherwise.
pub open spec fn cycle_new_speed(config: Config, r: SensorReadings, last_speed: int) -> int {
    if fan_engaged(config, r) {
        next_speed(r.cpu_temp->Ok_0 as int, cycle_gpu_temp(config, r)->Some_0 as int, last_speed)
    } else {
        last_speed
    }
}

/// The temperature snapshot a cycle publishes when the CPU read succeeded:
/// the CPU temperature, the GPU mean if obtained, and the commanded speed if
/// the controller ran.
pub open spec fn cycle_temp_snapshot(config: Config, r: SensorReadings, last_speed: int)
    -> TemperatureSnapshot {
    TemperatureSnapshot {
        cpu_temp: Some(r.cpu_temp->Ok_0),
        gpu_temp: cycle_gpu_temp(config, r),
        fan_speed: if fan_engaged(config, r) {
            Some(cycle_new_speed(config, r, last_speed) as i32)
        } else {
            None
        },
    }
}

/// Law: every temperature snapshot a cycle publishes is well-formed — the
/// GPU temperature and the fan speed only appear alongside a CPU
/// temperature, and a published fan speed is within the valid range.
pub proof fn lemma_cycle_snapshot_wf(config: Config, r: SensorReadings, last_speed: int)
    ensures
        cycle_temp_snapshot(config, r, last_speed).wf(),
{
}

/// The explicit startup phase: the retained speed starts at the floor, and
/// when fan control is enabled the caller must initialize the fan hardware
/// and issue the returned baseline actuation before the loop starts.
pub fn startup(config: &Config) -> (r: (ControllerState, Option<i32>))
    ensures
        r.0.wf(),
        r.0.last_speed == MIN_FAN_PERCENTAGE,
        r.1 == if config.enable_fan_control {
            Some(MIN_FAN_PERCENTAGE)
        } else {
            None::<i32>
        },
{
    let state = ControllerState { last_speed: MIN_FAN_PERCENTAGE };
    if config.enable_fan_control {
        (state, Some(MIN_FAN_PERCENTAGE))
    } else {
        (state, None)
    }
}

/// One sampling cycle.
///
/// The load snapshot is published unconditionally on the resource channel.
/// When the CPU temperature was read, a temperature snapshot is published;
/// when additionally fan control is enabled and a GPU mean was obtained, the
/// controller picks the next speed, the state retains it, and the returned
/// actuation says whether (and to what) the caller must set the fan — `None`
/// exactly when the speed did not change. A failed CPU read leaves the
/// temperature channel and the state untouched.
pub fn run_cycle(
    hub: &mut Hub,
    state: &mut ControllerState,
    config: &Config,
    readings: &SensorReadings,
) -> (actuation: Option<i32>)
    requires
        old(hub).wf(),
        old(state).wf(),
        readings.wf(),
    ensures
        final(hub).wf(),
        final(state).wf(),
        publish_effect(
            old(hub).ressource,
            final(hub).ressource,
            SnapshotView::Ressource(resource_view_of(*readings)),
        ),
        match readings.cpu_temp {
            Err(_) => final(hub).temperature == old(hub).temperature && *final(state) == *old(
                state,
            ) && actuation is None,
            Ok(_) => {
                &&& publish_effect(
                    old(hub).temperature,
                    final(hub).temperature,
                    SnapshotView::Temperature(
                        cycle_temp_snapshot(*config, *readings, old(state).last_speed as int),
                    ),
                )
                &&& final(state).last_speed as int == cycle_new_speed(
                    *config,
                    *readings,
                    old(state).last_speed as int,
                )
                &&& actuation == if final(state).last_speed != old(state).last_speed {
                    Some(final(state).last_speed)
                } else {
                    None::<i32>
                }
            },
        },
{
    let cpu_usage = readings.cpu_usage.clone();
    proof {
        assert(cpu_usage@ =~= readings.cpu_usage@);
    }
    let rs = ResourceSnapshot::new(cpu_usage, readings.mem_used, readings.mem_total);
    let rsnap = Snapshot::Ressource(rs);
    proof {
        assert(rsnap@ == SnapshotView::Ressource(resource_view_of(*readings)));
    }
    hub.ressource.publish(&rsnap);
    match readings.cpu_temp {
        Err(_) => None,
        Ok(cpu_temp) => {
            let gpu_avg: Option<u32> = if config.show_gpu_temp {
                match &readings.gpu_temps {
                    Ok(ts) => match get_gpu_avg_temp(ts) {
                        Ok(avg) => Some(avg),
                        Err(_) => None,
                    },
                    Err(_) => None,
                }
            } else {
                None
            };
            proof {
                assert(gpu_avg == cycle_gpu_temp(*config, *readings));
            }
            let mut fan_field: Option<i32> = None;
            let mut actuation: Option<i32> = None;
            if config.enable_fan_control {
                if let Some(g) = gpu_avg {
                    let ns = liquidctl_modify_fan_speed(cpu_temp, g, state.last_speed);
                    if ns != state.last_speed {
                        actuation = Some(ns);
                    }
                    state.last_speed = ns;
                    fan_field = Some(ns);
                }
            }
            let ts = TemperatureSnapshot {
                cpu_temp: Some(cpu_temp),
                gpu_temp: gpu_avg,
                fan_speed: fan_field,
            };
            proof {
                assert(ts == cycle_temp_snapshot(*config, *readings, old(state).last_speed as int));
            }
            let tsnap = Snapshot::Temperature(ts);
            hub.temperature.publish(&tsnap);
            actuation
        },
    }
}

} // verus!
