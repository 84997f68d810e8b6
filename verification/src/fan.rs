//! Adaptive fan-speed control: a three-state hysteresis controller
//! (increase / hold / decrease) with saturation.
//!
//! Whichever of CPU and GPU is proportionally hotter — the larger
//! temperature-to-target ratio — drives the decision. One step above the
//! target plus the hysteresis width raises the speed, at or below the target
//! lowers it, and inside the band the speed is held, so the controller does
//! not oscillate around a single threshold. The result is always clamped to
//! the valid duty-cycle range.
//!
//! Temperatures are whole degrees Celsius; speeds are percentage points.

use vstd::prelude::*;

verus! {

/// Width of the hysteresis band above the target temperature, in degrees.
pub const DELTA_TEMP: i32 = 5;
/// Step by which the fan speed is raised or lowered, in percentage points.
pub const DELTA_SPEED: i32 = 4;
/// CPU temperature the controller steers towards, in degrees Celsius.
pub const TARGET_CORE_TEMP: i32 = 55;
/// GPU temperature the controller steers towards, in degrees Celsius.
pub const TARGET_GPU_TEMP: i32 = 65;
/// Lowest duty cycle the controller ever commands, in percent.
pub const MIN_FAN_PERCENTAGE: i32 = 20;
/// Highest duty cycle the controller ever commands, in percent.
pub const MAX_FAN_PERCENTAGE: i32 = 70;

/// The GPU drives the decision exactly when its temperature-to-target ratio
/// is strictly larger than the CPU's; ties favor the CPU. The comparison
/// `cpu / 55 < gpu / 65` is written cross-multiplied so it is exact.
pub open spec fn gpu_drives(cpu_temp: int, gpu_temp: int) -> bool {
    cpu_temp * (TARGET_GPU_TEMP as int) < gpu_temp * (TARGET_CORE_TEMP as int)
}

/// The temperature the decision is based on: the driving sensor's reading.
pub open spec fn source_temp(cpu_temp: int, gpu_temp: int) -> int {
    if gpu_drives(cpu_temp, gpu_temp) {
        gpu_temp
    } else {
        cpu_temp
    }
}

/// The target paired with the driving sensor's reading.
pub open spec fn target_temp(cpu_temp: int, gpu_temp: int) -> int {
    if gpu_drives(cpu_temp, gpu_temp) {
        TARGET_GPU_TEMP as int
    } else {
        TARGET_CORE_TEMP as int
    }
}

/// Saturation to the valid duty-cycle range.
pub open spec fn clamp_speed(speed: int) -> int {
    if speed <= MIN_FAN_PERCENTAGE as int {
        MIN_FAN_PERCENTAGE as int
    } else if speed >= MAX_FAN_PERCENTAGE as int {
        MAX_FAN_PERCENTAGE as int
    } else {
        speed
    }
}

/// The speed before saturation: one step up above the hysteresis band, one
/// step down at or below the target, unchanged inside the band.
pub open spec fn raw_next_speed(cpu_temp: int, gpu_temp: int, last_speed: int) -> int {
    let source = source_temp(cpu_temp, gpu_temp);
    let target = target_temp(cpu_temp, gpu_temp);
    if source > target + DELTA_TEMP {
        last_speed + DELTA_SPEED
    } else if source <= target {
        last_speed - DELTA_SPEED
    } else {
        last_speed
    }
}

/// The controller's full decision: hysteresis step, then saturation.
pub open spec fn next_speed(cpu_temp: int, gpu_temp: int, last_speed: int) -> int {
    clamp_speed(raw_next_speed(cpu_temp, gpu_temp, last_speed))
}

/// The decision half of the speed-adjustment routine: computes the clamped
/// next speed from the two temperatures and the previous speed. Issuing the
/// actuation command when the result differs from `last_speed` is the
/// caller's job.
pub fn liquidctl_modify_fan_speed(cpu_temp: i32, gpu_temp: u32, last_speed: i32) -> (new_speed:
    i32)
    ensures
        new_speed as int == next_speed(cpu_temp as int, gpu_temp as int, last_speed as int),
        MIN_FAN_PERCENTAGE <= new_speed <= MAX_FAN_PERCENTAGE,
{
    let cpu_cross: i64 = (cpu_temp as i64) * 65;
    let gpu_cross: i64 = (gpu_temp as i64) * 55;
    let gpu_driving: bool = cpu_cross < gpu_cross;
    proof {
        assert(cpu_cross as int == cpu_temp as int * (TARGET_GPU_TEMP as int));
        assert(gpu_cross as int == gpu_temp as int * (TARGET_CORE_TEMP as int));
    }
    let source: i64 = if gpu_driving {
        gpu_temp as i64
    } else {
        cpu_temp as i64
    };
    let target: i64 = if gpu_driving {
        TARGET_GPU_TEMP as i64
    } else {
        TARGET_CORE_TEMP as i64
    };
    let last: i64 = last_speed as i64;
    let raw: i64 = if source > target + (DELTA_TEMP as i64) {
        last + (DELTA_SPEED as i64)
    } else if source <= target {
        last - (DELTA_SPEED as i64)
    } else {
        last
    };
    if raw <= MIN_FAN_PERCENTAGE as i64 {
        MIN_FAN_PERCENTAGE
    } else if raw >= MAX_FAN_PERCENTAGE as i64 {
        MAX_FAN_PERCENTAGE
    } else {
        raw as i32
    }
}

/// Law: the commanded speed stays within the valid duty-cycle range for
/// every input, in particular for every previous speed already in range.
pub proof fn lemma_speed_always_in_range(cpu_temp: int, gpu_temp: int, last_speed: int)
    ensures
        MIN_FAN_PERCENTAGE as int <= next_speed(cpu_temp, gpu_temp, last_speed)
            <= MAX_FAN_PERCENTAGE as int,
{
}

/// Law: at or below the target temperature the speed never rises — it falls
/// by one step, or sits at the floor — and from a reachable speed it stays
/// reachable.
pub proof fn lemma_speed_decreases_at_or_below_target(cpu_temp: int, gpu_temp: int, last_speed: int)
    requires
        source_temp(cpu_temp, gpu_temp) <= target_temp(cpu_temp, gpu_temp),
        MIN_FAN_PERCENTAGE as int <= last_speed <= MAX_FAN_PERCENTAGE as int,
    ensures
        next_speed(cpu_temp, gpu_temp, last_speed) <= last_speed,
        next_speed(cpu_temp, gpu_temp, last_speed) == if last_speed - DELTA_SPEED
            <= MIN_FAN_PERCENTAGE as int {
            MIN_FAN_PERCENTAGE as int
        } else {
            last_speed - DELTA_SPEED
        },
{
}

/// Law: above the target temperature plus the hysteresis width the speed
/// never falls — it rises by one step, or sits at the ceiling.
pub proof fn lemma_speed_increases_above_band(cpu_temp: int, gpu_temp: int, last_speed: int)
    requires
        source_temp(cpu_temp, gpu_temp) > target_temp(cpu_temp, gpu_temp) + DELTA_TEMP,
        MIN_FAN_PERCENTAGE as int <= last_speed <= MAX_FAN_PERCENTAGE as int,
    ensures
        next_speed(cpu_temp, gpu_temp, last_speed) >= last_speed,
        next_speed(cpu_temp, gpu_temp, last_speed) == if last_speed + DELTA_SPEED
            >= MAX_FAN_PERCENTAGE as int {
            MAX_FAN_PERCENTAGE as int
        } else {
            last_speed + DELTA_SPEED
        },
{
}

/// The speed after `k` consecutive controller evaluations with the same
/// temperatures, starting from `last_speed`.
pub open spec fn iterated_speed(cpu_temp: int, gpu_temp: int, last_speed: int, k: nat) -> int
    decreases k,
{
    if k == 0 {
        last_speed
    } else {
        next_speed(cpu_temp, gpu_temp, iterated_speed(cpu_temp, gpu_temp, last_speed, (k - 1) as nat))
    }
}

/// Law: with the driving temperature exactly at its target, repeated
/// evaluation drives the speed down to the floor — after at most
/// `last_speed - MIN_FAN_PERCENTAGE` evaluations it is exactly the minimum —
/// and holds it there forever after.
pub proof fn lemma_repeated_evaluation_reaches_minimum(
    cpu_temp: int,
    gpu_temp: int,
    last_speed: int,
    k: nat,
)
    requires
        source_temp(cpu_temp, gpu_temp) == target_temp(cpu_temp, gpu_temp),
        MIN_FAN_PERCENTAGE as int <= last_speed <= MAX_FAN_PERCENTAGE as int,
    ensures
        MIN_FAN_PERCENTAGE as int <= iterated_speed(cpu_temp, gpu_temp, last_speed, k)
            <= MAX_FAN_PERCENTAGE as int,
        iterated_speed(cpu_temp, gpu_temp, last_speed, k) <= if last_speed - k
            <= MIN_FAN_PERCENTAGE as int {
            MIN_FAN_PERCENTAGE as int
        } else {
            last_speed - k
        },
    decreases k,
{
    if k > 0 {
        lemma_repeated_evaluation_reaches_minimum(cpu_temp, gpu_temp, last_speed, (k - 1) as nat);
    }
}

/// Law: with the driving temperature exactly at its target, each evaluation
/// lowers the speed by one step until it reaches the floor, and the floor is
/// a fixed point: once at the minimum the speed stays there.
pub proof fn lemma_speed_settles_at_minimum(cpu_temp: int, gpu_temp: int, last_speed: int)
    requires
        source_temp(cpu_temp, gpu_temp) == target_temp(cpu_temp, gpu_temp),
        MIN_FAN_PERCENTAGE as int <= last_speed <= MAX_FAN_PERCENTAGE as int,
    ensures
        next_speed(cpu_temp, gpu_temp, last_speed) == if last_speed - DELTA_SPEED
            <= MIN_FAN_PERCENTAGE as int {
            MIN_FAN_PERCENTAGE as int
        } else {
            last_speed - DELTA_SPEED
        },
        last_speed > MIN_FAN_PERCENTAGE as int ==> next_speed(cpu_temp, gpu_temp, last_speed)
            < last_speed,
        next_speed(cpu_temp, gpu_temp, MIN_FAN_PERCENTAGE as int) == MIN_FAN_PERCENTAGE as int,
{
}

} // verus!
