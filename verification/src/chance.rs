//! Random draws, for delays that should not fall into a pattern.
use vstd::prelude::*;

use rand::Rng;

verus! {

/// Calls `rand::thread_rng().gen_range(lower..=upper)`: a number from
/// `lower` to `upper`, inclusive; which one is a matter of chance. The crate
/// panics on an empty range, which `requires` leaves out.
#[verifier::external_body]
pub(crate) fn random_between(lower: u64, upper: u64) -> (r: u64)
    requires
        lower <= upper,
    ensures
        lower <= r <= upper,
{
    rand::thread_rng().gen_range(lower..=upper)
}

} // verus!
