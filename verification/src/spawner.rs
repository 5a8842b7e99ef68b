//! Where the next pipe enters: a random draw.

use vstd::prelude::*;
use rand::rngs::ThreadRng;
use rand::Rng;
use crate::pipe::{valid_spawn_offset, SPAWN_SPREAD};

verus! {

/// `rand::rngs::ThreadRng`, the handle of the calling thread's generator.
/// Nothing is known of what a value holds.
#[verifier::external_type_specification]
#[verifier::external_body]
pub struct ExThreadRng(rand::rngs::ThreadRng);

/// Calls `rand::thread_rng`, which hands out the calling thread's generator,
/// seeded from the system on first use. Nothing is claimed of it.
#[verifier::external_body]
fn thread_generator() -> ThreadRng {
    rand::thread_rng()
}

/// Calls `rand::Rng::gen_range` on the half-open range from `low` to `high`.
/// It refuses an empty range, and what it draws from any other lies in the
/// range; which value comes is left open.
#[verifier::external_body]
fn draw_between(rng: &mut ThreadRng, low: i64, high: i64) -> (drawn: i64)
    requires
        low < high,
    ensures
        low <= drawn < high,
{
    rng.gen_range(low..high)
}

/// Draws the vertical offset of the next pipe. Which offset comes is left to
/// the generator: what holds of every draw is that it lies in the spread.
pub fn random_spawn_offset() -> (offset: i64)
    ensures
        valid_spawn_offset(offset as int),
{
    let mut rng = thread_generator();
    draw_between(&mut rng, -SPAWN_SPREAD, SPAWN_SPREAD)
}

} // verus!
