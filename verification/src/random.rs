//! The random source: the thread-local generator of `rand`, and uniform samples
//! drawn from it.

use rand::rngs::ThreadRng;
use rand::Rng;
use vstd::prelude::*;

verus! {

/// `rand::rngs::ThreadRng`, carried through every generator as an opaque value.
#[verifier::external_type_specification]
#[verifier::external_body]
pub struct ExThreadRng(ThreadRng);

/// Calls `rand::rng`, which hands out a handle to the thread-local generator.
/// Nothing is claimed of the handle.
#[verifier::external_body]
pub(crate) fn thread_rng() -> ThreadRng {
    rand::rng()
}

/// Calls `Rng::random_range` on the half-open range `low..high`. The call
/// panics on an empty range, which `requires` leaves out; of the value it
/// returns the contract claims only that it lies in the range, which holds of
/// every outcome.
#[verifier::external_body]
pub(crate) fn random_range(rng: &mut ThreadRng, low: i64, high: i64) -> (value: i64)
    requires
        low < high,
    ensures
        low <= value < high,
{
    rng.random_range(low..high)
}

/// A uniform sample from `low..high`, or `None` where the range is empty.
pub fn sample(rng: &mut ThreadRng, low: i64, high: i64) -> (value: Option<i64>)
    ensures
        value is Some <==> low < high,
        value matches Some(v) ==> low <= v < high,
{
    if low < high {
        Some(random_range(rng, low, high))
    } else {
        None
    }
}

/// A uniform sample from `low..high` among the bytes.
pub fn sample_u8(rng: &mut ThreadRng, low: u8, high: u8) -> (value: u8)
    requires
        low < high,
    ensures
        low <= value < high,
{
    let value: i64 = random_range(rng, low as i64, high as i64);
    value as u8
}

/// A uniform sample from `low..high` among the unsigned numbers.
pub fn sample_u32(rng: &mut ThreadRng, low: u32, high: u32) -> (value: u32)
    requires
        low < high,
    ensures
        low <= value < high,
{
    let value: i64 = random_range(rng, low as i64, high as i64);
    value as u32
}

} // verus!
