//! Snake state: movement directions, the ordered body, and the event
//! values the simulation step emits.

use vstd::prelude::*;
use crate::arena::Position;

verus! {

/// The four headings the snake can travel in.
#[derive(Clone, Copy, PartialEq, Eq, Structural, Debug)]
pub enum MovementDirection {
    Left,
    Right,
    Up,
    Down,
}

/// The 180-degree opposite of a heading, at the specification level.
pub open spec fn spec_reverse(d: MovementDirection) -> MovementDirection {
    match d {
        MovementDirection::Left => MovementDirection::Right,
        MovementDirection::Right => MovementDirection::Left,
        MovementDirection::Up => MovementDirection::Down,
        MovementDirection::Down => MovementDirection::Up,
    }
}

impl MovementDirection {
    /// The 180-degree opposite of this heading.
    pub fn reverse_direction(self) -> (r: Self)
        ensures
            r == spec_reverse(self),
    {
        match self {
            Self::Left => Self::Right,
            Self::Right => Self::Left,
            Self::Up => Self::Down,
            Self::Down => Self::Up,
        }
    }
}

/// Where a head at `p` travelling in `d` arrives after one step. The
/// casts are exact whenever `p` lies in the arena: a one-cell offset
/// from an in-bounds coordinate cannot leave `i32`.
pub open spec fn spec_step(p: Position, d: MovementDirection) -> Position {
    match d {
        MovementDirection::Left => (Position { x: (p.x - 1) as i32, y: p.y }),
        MovementDirection::Right => (Position { x: (p.x + 1) as i32, y: p.y }),
        MovementDirection::Up => (Position { x: p.x, y: (p.y + 1) as i32 }),
        MovementDirection::Down => (Position { x: p.x, y: (p.y - 1) as i32 }),
    }
}

/// Advance `p` one cell in direction `d`. There is no wrap-around:
/// stepping off the arena yields an out-of-bounds position, which the
/// movement step turns into a boundary death.
pub fn step_position(p: Position, d: MovementDirection) -> (r: Position)
    requires
        crate::arena::spec_in_bounds(p),
    ensures
        r == spec_step(p, d),
{
    match d {
        MovementDirection::Left => Position { x: p.x - 1, y: p.y },
        MovementDirection::Right => Position { x: p.x + 1, y: p.y },
        MovementDirection::Up => Position { x: p.x, y: p.y + 1 },
        MovementDirection::Down => Position { x: p.x, y: p.y - 1 },
    }
}

/// Marker for one unit of the snake's body, head included.
#[derive(Clone, Copy, Debug)]
pub struct SnakeSegment;

/// The ordered body of the snake: one cell per segment, head first,
/// tail last.
#[derive(Debug)]
pub struct SnakeBody(pub Vec<Position>);

impl View for SnakeBody {
    type V = Seq<Position>;

    open spec fn view(&self) -> Seq<Position> {
        self.0@
    }
}

/// The last body segment's cell, captured before the most recent move.
/// Growth places the appended segment there: duplicating the post-move
/// tail instead would stack it on the second-to-last segment.
#[derive(Clone, Copy, Debug)]
pub struct LastBodySegmentPosition(pub Option<Position>);

/// Event: the head reached the food on this tick, so one segment is
/// owed to the tail.
#[derive(Clone, Copy, Debug)]
pub struct GrowthEvent;

/// Why the snake died on a tick.
#[derive(Clone, Copy, PartialEq, Eq, Structural, Debug)]
pub enum DeathReason {
    /// The new head cell left the arena.
    Boundary,
    /// The new head cell landed on a pre-move body cell.
    SelfCollision,
}

/// Event: the snake died on this tick and the world must be reset.
/// Several causes in one tick collapse into a single signal.
#[derive(Clone, Copy, PartialEq, Eq, Structural, Debug)]
pub struct SnakeDies {
    pub reason: DeathReason,
}

/// The snake's head: carries the committed movement direction.
#[derive(Clone, Copy, PartialEq, Eq, Structural, Debug)]
pub struct SnakeHead {
    pub movement_direction: MovementDirection,
}

} // verus!
