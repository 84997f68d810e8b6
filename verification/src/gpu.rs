//! Reduction of per-device GPU temperature readings to a single value.
//!
//! The surrounding program enumerates the GPU devices and reads one
//! temperature per device; this module turns that list into the arithmetic
//! mean the controller and the snapshots use. An empty list — no device, or
//! no driver — is reported as `Unavailable`, never a division by zero.

use vstd::prelude::*;
use vstd::arithmetic::div_mod::{lemma_div_is_ordered, lemma_div_multiples_vanish};

verus! {

/// Why a sensor reading is missing for a cycle. Every variant is recovered
/// from locally: the affected publication is skipped or partially populated
/// and the next cycle retries.
#[derive(Clone, Copy, Debug, PartialEq, Eq, Structural)]
pub enum SensorError {
    /// No thermal zone, no GPU device, or no driver.
    Unavailable,
    /// A transient read error.
    QueryFailed,
    /// The fan-speed command could not be issued.
    ActuationFailed,
}

/// Sum of a sequence of integers.
pub open spec fn sum_of(s: Seq<int>) -> int
    decreases s.len(),
{
    if s.len() == 0 {
        0
    } else {
        sum_of(s.drop_last()) + s.last()
    }
}

/// The arithmetic mean (rounded down) of a non-empty sequence of readings.
pub open spec fn mean_of(s: Seq<u32>) -> int {
    sum_of(s.map_values(|t: u32| t as int)) / s.len() as int
}

proof fn lemma_sum_push(s: Seq<int>, x: int)
    ensures
        sum_of(s.push(x)) == sum_of(s) + x,
{
    assert(s.push(x).drop_last() =~= s);
}

proof fn lemma_sum_bounded(s: Seq<int>, bound: int)
    requires
        forall|i: int| 0 <= i < s.len() ==> 0 <= #[trigger] s[i] <= bound,
    ensures
        0 <= sum_of(s) <= s.len() * bound,
    decreases s.len(),
{
    if s.len() > 0 {
        lemma_sum_bounded(s.drop_last(), bound);
        assert((s.len() - 1) * bound + bound == s.len() * bound) by (nonlinear_arith);
    }
}

/// Mean of the per-device GPU temperatures of one cycle, in whole degrees
/// Celsius. Zero enumerated devices is `Unavailable`, exactly as a missing
/// driver is.
///
/// The list length is bounded because device indices are 32-bit.
pub fn get_gpu_avg_temp(temps: &Vec<u32>) -> (r: Result<u32, SensorError>)
    requires
        temps@.len() <= u32::MAX,
    ensures
        match r {
            Ok(avg) => temps@.len() > 0 && avg as int == mean_of(temps@),
            Err(e) => temps@.len() == 0 && e == SensorError::Unavailable,
        },
{
    let n = temps.len();
    if n == 0 {
        return Err(SensorError::Unavailable);
    }
    let mut sum: u64 = 0;
    let mut i: usize = 0;
    while i < n
        invariant
            n == temps@.len(),
            0 <= i <= n,
            n <= u32::MAX,
            sum as int == sum_of(temps@.subrange(0, i as int).map_values(|t: u32| t as int)),
            sum <= i * (u32::MAX as int),
        decreases n - i,
    {
        proof {
            let prefix = temps@.subrange(0, i as int).map_values(|t: u32| t as int);
            let next = temps@.subrange(0, i + 1).map_values(|t: u32| t as int);
            assert(next =~= prefix.push(temps@[i as int] as int));
            lemma_sum_push(prefix, temps@[i as int] as int);
            assert((i + 1) * (u32::MAX as int) == i * (u32::MAX as int) + u32::MAX)
                by (nonlinear_arith);
        }
        sum = sum + (temps[i] as u64);
        i = i + 1;
    }
    proof {
        assert(temps@.subrange(0, n as int) =~= temps@);
        let all = temps@.map_values(|t: u32| t as int);
        lemma_sum_bounded(all, u32::MAX as int);
        lemma_div_is_ordered(sum as int, n * (u32::MAX as int), n as int);
        lemma_div_multiples_vanish(u32::MAX as int, n as int);
        lemma_div_is_ordered(0, sum as int, n as int);
    }
    let avg: u64 = sum / (n as u64);
    Ok(avg as u32)
}

} // verus!
