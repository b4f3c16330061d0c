//! The random numbers the game draws, taken from `rand`'s thread-local
//! generator.

use rand::rngs::ThreadRng;
use rand::Rng;
use vstd::prelude::*;

verus! {

/// `rand::rngs::ThreadRng`, carried through opaquely.
#[verifier::external_type_specification]
#[verifier::external_body]
pub struct ExThreadRng(ThreadRng);

/// Calls `rand::thread_rng()`: a handle on the thread-local generator.
/// Nothing is stated of its state.
#[verifier::external_body]
pub(crate) fn thread_rng() -> ThreadRng {
    rand::thread_rng()
}

/// Calls `Rng::gen_range(low..high)` on `i32`. The documentation promises
/// a value in the half-open range `[low, high)` and a panic on an empty
/// range, which `requires` leaves out. Which value comes is chance.
#[verifier::external_body]
pub(crate) fn gen_range_i32(rng: &mut ThreadRng, low: i32, high: i32) -> (r: i32)
    requires
        low < high,
    ensures
        low <= r < high,
{
    rng.gen_range(low..high)
}

} // verus!
