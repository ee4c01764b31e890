//! The random draws of a match, taken from `rand`'s thread-local generator.
//! Each draw depends on chance, so these items state only what holds of every
//! outcome; the logic that uses a draw is verified for every value of it.

use vstd::prelude::*;
use rand::Rng;

verus! {

/// `rand::rngs::ThreadRng`, carried through opaquely.
#[verifier::external_type_specification]
#[verifier::external_body]
pub struct ExThreadRng(rand::rngs::ThreadRng);

/// Calls `rand::thread_rng`, which hands out a handle to the thread-local
/// generator. Nothing is claimed of the handle.
#[verifier::external_body]
pub(crate) fn thread_rng() -> rand::rngs::ThreadRng {
    rand::thread_rng()
}

/// Calls `Rng::gen_range(low..high)` on a `usize` range. `rand` documents that
/// the value lies in the half-open range and panics on an empty range, which
/// `requires` rules out. Which value of the range comes back is left open.
#[verifier::external_body]
pub(crate) fn gen_range_exclusive(rng: &mut rand::rngs::ThreadRng, low: usize, high: usize) -> (r: usize)
    requires
        low < high,
    ensures
        low <= r < high,
{
    rng.gen_range(low..high)
}

/// Calls `Rng::gen_range(low..=high)` on a `usize` range. `rand` documents that
/// the value lies in the closed range and panics on an empty range, which
/// `requires` rules out. Which value of the range comes back is left open.
#[verifier::external_body]
pub(crate) fn gen_range_inclusive(rng: &mut rand::rngs::ThreadRng, low: usize, high: usize) -> (r: usize)
    requires
        low <= high,
    ensures
        low <= r <= high,
{
    rng.gen_range(low..=high)
}

/// Calls `Rng::gen::<u64>()`, which `rand` defines as the generator's next
/// 64 random bits. Any value can come back, so nothing is claimed of it.
#[verifier::external_body]
pub(crate) fn gen_u64(rng: &mut rand::rngs::ThreadRng) -> u64 {
    rng.gen::<u64>()
}

} // verus!
