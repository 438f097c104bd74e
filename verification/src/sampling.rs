//! Random choices of the sampling routines, as far as they are choices
//! among whole numbers.

use vstd::prelude::*;
use rand::Rng;

verus! {

/// Number of points on the spiral from which random directions are drawn.
pub const NUMBER_POINTS: usize = 100_000_000;

/// Calls `rand::Rng::gen_range` on the generator of the thread,
/// `rand::thread_rng`, with the range from 0 up to, not including, `bound`.
/// The range is not empty, as `gen_range` demands, and the number drawn
/// lies in it; which number is drawn is left open. This is taken on trust
/// from the crate. The generator stops the program where the system
/// cannot seed it.
#[verifier::external_body]
fn random_below(bound: usize) -> (i: usize)
    requires
        bound > 0,
    ensures
        i < bound,
{
    rand::thread_rng().gen_range(0..bound)
}

/// Draws the index of a point of the spiral: every direction that the
/// sampler hands out is the direction of one of `NUMBER_POINTS` points
/// laid out on the unit sphere, and this picks which.
pub fn spiral_index() -> (i: usize)
    ensures
        i < NUMBER_POINTS,
{
    random_below(NUMBER_POINTS)
}

} // verus!
