//! The source of random draws.

use rand::Rng;
use vstd::prelude::*;

verus! {

/// Draws a number below `bound` from the thread's random generator, by
/// `rand::thread_rng` and `rand::Rng::gen_range` on the range `0..bound`.
/// Trusted: the draw lies in that range, as `gen_range` documents; which
/// number comes is left open. `gen_range` panics on an empty range, which
/// `bound > 0` rules out. The generator is seeded from the operating system
/// when a thread first asks for it, and nothing is claimed of a system that
/// has no randomness to give.
#[verifier::external_body]
pub(crate) fn uniform_below(bound: u32) -> (draw: u32)
    requires
        bound > 0,
    ensures
        draw < bound,
{
    rand::thread_rng().gen_range(0..bound)
}

} // verus!
