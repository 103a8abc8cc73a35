//! Grid model: the fixed-size discrete coordinate space and its
//! occupancy-free bounds query.

use vstd::prelude::*;

verus! {

/// Number of cells along the horizontal axis of the arena.
pub const ARENA_WIDTH: u32 = 10;

/// Number of cells along the vertical axis of the arena.
pub const ARENA_HEIGHT: u32 = 10;

/// One discrete grid coordinate. A position outside
/// `[0, ARENA_WIDTH) x [0, ARENA_HEIGHT)` is representable on purpose:
/// the movement step produces such a position when the snake walks off
/// the arena, and that is what signals a boundary death.
#[derive(Clone, Copy, PartialEq, Eq, Structural, Debug)]
pub struct Position {
    pub x: i32,
    pub y: i32,
}

/// A position is valid when it lies within the arena bounds.
pub open spec fn spec_in_bounds(p: Position) -> bool {
    0 <= p.x < ARENA_WIDTH && 0 <= p.y < ARENA_HEIGHT
}

/// Whether `p` lies inside the arena. Pure query; the grid has no
/// mutable state.
pub fn in_bounds(p: Position) -> (r: bool)
    ensures
        r == spec_in_bounds(p),
{
    p.x >= 0 && p.y >= 0 && p.x < ARENA_WIDTH as i32 && p.y < ARENA_HEIGHT as i32
}

} // verus!
