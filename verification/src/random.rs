//! The random choices of the simulation: how long each process takes, and how
//! long each worker waits before it begins.

use rand::rngs::ThreadRng;
use rand::Rng;
use vstd::prelude::*;

verus! {

/// Process durations are at least this many milliseconds,
pub const MIN_TOTAL_MS: u64 = 2000;

/// and fewer than this many.
pub const MAX_TOTAL_MS: u64 = 8000;

/// A worker begins within this many milliseconds.
pub const MAX_START_DELAY_MS: u64 = 200;

/// The generator of `rand` that belongs to the calling thread.
#[verifier::external_type_specification]
#[verifier::external_body]
pub struct ExThreadRng(ThreadRng);

/// `rand::thread_rng`, which hands out the calling thread's generator, seeded by
/// the system. Nothing is claimed of the generator; where the system can give no
/// seed, the function panics.
pub assume_specification[ rand::thread_rng ]() -> ThreadRng;

/// A random number from `low` up to, and without, `high`.
///
/// Calls `rand::Rng::gen_range` on the range `low..high`, which panics on an
/// empty range, and where the generator is due a new seed and the system gives
/// none. Trusted: the number lies in the range. Which number it is, and
/// what becomes of the generator, is left to chance and not stated.
#[verifier::external_body]
fn gen_range(rng: &mut ThreadRng, low: u64, high: u64) -> (r: u64)
    requires
        low < high,
    ensures
        low <= r < high,
{
    rng.gen_range(low..high)
}

/// `total_ms` is a duration that a process may be given.
pub open spec fn is_duration(total_ms: u64) -> bool {
    MIN_TOTAL_MS <= total_ms < MAX_TOTAL_MS
}

/// A random duration for each of `num_procs` processes.
pub fn random_totals(num_procs: usize) -> (totals: Vec<u64>)
    ensures
        totals@.len() == num_procs,
        forall|i: int| 0 <= i < num_procs ==> is_duration(#[trigger] totals@[i]),
{
    let mut rng = rand::thread_rng();
    let mut totals: Vec<u64> = Vec::new();
    for i in 0..num_procs
        invariant
            totals@.len() == i,
            forall|j: int| 0 <= j < i ==> is_duration(#[trigger] totals@[j]),
    {
        totals.push(gen_range(&mut rng, MIN_TOTAL_MS, MAX_TOTAL_MS));
    }
    totals
}

/// A random number of milliseconds for a worker to wait before it begins.
pub fn random_start_delay_ms() -> (d: u64)
    ensures
        d < MAX_START_DELAY_MS,
{
    let mut rng = rand::thread_rng();
    gen_range(&mut rng, 0, MAX_START_DELAY_MS)
}

} // verus!
