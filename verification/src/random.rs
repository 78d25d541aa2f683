//! The one source of chance: where hazards appear.

use rand::Rng;
use vstd::prelude::*;

verus! {

/// Draws a number from `low..high`.
///
/// Calls `Rng::random_range` of the `rand` crate on the generator that
/// `rand::rng` hands out for the current thread. The range must not be
/// empty, for `random_range` panics on an empty one. All that is claimed of
/// the number drawn is that it lies in the range. The generator takes its
/// seed from the operating system; where that fails, `rand` panics, and no
/// argument can prevent it.
#[verifier::external_body]
pub(crate) fn roll_between(low: i64, high: i64) -> (roll: i64)
    requires
        low < high,
    ensures
        low <= roll < high,
{
    rand::rng().random_range(low..high)
}

} // verus!
