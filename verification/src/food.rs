//! Food spawner: places the food on a uniformly random arena cell,
//! driven by its own timer, independent of the movement tick.

use vstd::prelude::*;
use crate::arena::{Position, ARENA_WIDTH, ARENA_HEIGHT, spec_in_bounds};
use crate::world::World;

verus! {

/// The food entity: at most one is active, at the cell it occupies.
#[derive(Clone, Copy, PartialEq, Eq, Structural, Debug)]
pub struct Food {
    pub position: Position,
}

/// Relies on rand::random_range over the range `0..bound`: its
/// documentation promises a value uniformly sampled from the given
/// range, so the result is below `bound`. The call panics only on an
/// empty range, which the precondition excludes.
#[verifier::external_body]
fn random_below(bound: u32) -> (r: u32)
    requires
        bound > 0,
    ensures
        r < bound,
{
    rand::random_range(0..bound)
}

/// Food-spawn tick: sample a uniformly random cell of the arena and
/// place the food there. At most one food is ever active — a spawn
/// while one exists replaces it. The sample is not re-rolled when it
/// lands on the snake; the snake simply eats the food on reaching that
/// cell.
pub fn spawn_snake_food(w: &mut World)
    ensures
        final(w).head == old(w).head,
        final(w).body == old(w).body,
        final(w).last_tail == old(w).last_tail,
        (final(w).food matches Some(f) && spec_in_bounds(f.position)),
        old(w).wf() ==> final(w).wf(),
{
    let x = random_below(ARENA_WIDTH);
    let y = random_below(ARENA_HEIGHT);
    w.food = Some(Food { position: Position { x: x as i32, y: y as i32 } });
}

} // verus!
