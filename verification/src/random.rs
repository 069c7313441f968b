//! The one place the simulation touches randomness: the vertical-offset draw
//! consumed by each spawn-timer firing.

use vstd::prelude::*;

use crate::world::DRAW_BOUND;

verus! {

/// Relies on rand::thread_rng and rand::Rng::gen_range: a draw from the
/// thread-local generator, uniform over the half-open range it is given and
/// always inside it, so the result is below `DRAW_BOUND`. Nothing further is
/// promised of a random value.
#[verifier::external_body]
pub(crate) fn random_spawn_draw() -> (draw: u64)
    ensures
        draw < DRAW_BOUND,
{
    rand::Rng::gen_range(&mut rand::thread_rng(), 0..DRAW_BOUND)
}

} // verus!
