//! The simulation's source of chance. Every rule that depends on chance
//! exists twice: once taking the outcome as an argument, proved for every
//! outcome, and once drawing the outcome here.

use rand::Rng;
use vstd::prelude::*;

verus! {

/// Draws an integer from `low..high` by `rand::Rng::gen_range` on
/// `rand::thread_rng()`. Trusted: the draw lies in the range. The range must
/// not be empty, as `gen_range` panics on an empty one.
#[verifier::external_body]
pub(crate) fn random_in_range(low: i32, high: i32) -> (r: i32)
    requires
        low < high,
    ensures
        low <= r < high,
{
    rand::thread_rng().gen_range(low..high)
}

/// Draws a truth value by `rand::Rng::gen_ratio` on `rand::thread_rng()`,
/// true with probability `numerator / denominator`. Trusted: a chance of zero
/// never comes true and a full chance always does. `gen_ratio` panics on a
/// zero denominator and on a numerator above the denominator.
#[verifier::external_body]
pub(crate) fn random_chance(numerator: u32, denominator: u32) -> (r: bool)
    requires
        denominator > 0,
        numerator <= denominator,
    ensures
        numerator == 0 ==> !r,
        numerator == denominator ==> r,
{
    rand::thread_rng().gen_ratio(numerator, denominator)
}

} // verus!
