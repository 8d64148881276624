//! The enemy spawn cadence: each time the spawn timer runs out it is given a
//! new random duration. Spawning itself is left open.
use vstd::prelude::*;

verus! {

/// Shortest duration the spawn timer is given, in microseconds.
pub const SPAWN_MIN_US: u64 = 1_500_000;

/// Bound on the durations the spawn timer is given (not reached), in microseconds.
pub const SPAWN_MAX_US: u64 = 3_500_000;

/// Duration of the spawn timer at the start of a run: it runs out on the first frame.
pub const FIRST_SPAWN_US: u64 = 0;

/// Relies on `rand::Rng::gen_range` on `thread_rng()`: for a non-empty half-open
/// range of `u64` it returns a value inside it (it panics only on an empty range).
#[verifier::external_body]
fn random_in(low: u64, high: u64) -> (r: u64)
    requires
        low < high,
    ensures
        low <= r < high,
{
    rand::Rng::gen_range(&mut rand::thread_rng(), low..high)
}

/// What to do once the spawn timer has been advanced by the frame: if it ran out
/// in this frame, the new duration to give it, drawn uniformly from
/// `SPAWN_MIN_US..SPAWN_MAX_US`; otherwise nothing.
pub fn spawn_step(timer_finished: bool) -> (next: Option<u64>)
    ensures
        next is Some <==> timer_finished,
        next matches Some(d) ==> SPAWN_MIN_US <= d < SPAWN_MAX_US,
{
    if timer_finished {
        Some(random_in(SPAWN_MIN_US, SPAWN_MAX_US))
    } else {
        None
    }
}

} // verus!
