//! The random source used to jitter spawned particles.

use vstd::prelude::*;
use rand::Rng;

verus! {

/// The thread-local generator of the `rand` crate; opaque to the proofs.
#[verifier::external_type_specification]
#[verifier::external_body]
pub struct ExThreadRng(rand::rngs::ThreadRng);

/// Calls `rand::thread_rng`. Nothing is claimed of the generator it hands
/// back: its state depends on the operating system's entropy. (The `rand`
/// source panics there only when the operating system cannot seed it.)
#[verifier::external_body]
pub(crate) fn thread_rng() -> rand::rngs::ThreadRng {
    rand::thread_rng()
}

/// Calls `Rng::gen_range(low..high)` on `i32`. The `rand` source asserts
/// that the range is not empty (so `low < high` is required) and samples
/// uniformly from the half-open range: the result lies in `[low, high)`.
/// Which value comes out is chance, and is not stated.
#[verifier::external_body]
pub(crate) fn gen_range_i32(rng: &mut rand::rngs::ThreadRng, low: i32, high: i32) -> (r: i32)
    requires
        low < high,
    ensures
        low <= r < high,
{
    rng.gen_range(low..high)
}

} // verus!
