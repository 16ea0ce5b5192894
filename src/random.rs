use rand::distributions::{Distribution, Uniform};
use vstd::prelude::*;

verus! {

/// Relies on rand's `Uniform::from(low..high)` sampled with `thread_rng()`:
/// the value lies in the half-open range `[low, high)`. `Uniform::new`
/// panics when `low >= high`, which `requires` leaves out.
#[verifier::external_body]
pub(crate) fn sample_uniform(low: i32, high: i32) -> (r: i32)
    requires
        low < high,
    ensures
        low <= r < high,
{
    Uniform::from(low..high).sample(&mut rand::thread_rng())
}

} // verus!
