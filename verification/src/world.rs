//! The world state and the per-tick simulation step: movement, boundary
//! and self-collision detection, food consumption, growth, and the full
//! reset that follows a death.

use vstd::prelude::*;
use crate::arena::{Position, spec_in_bounds, in_bounds};
use crate::food::Food;
use crate::snake::{
    MovementDirection, SnakeBody, SnakeHead, SnakeDies, GrowthEvent, DeathReason,
    LastBodySegmentPosition, spec_reverse, spec_step, step_position,
};

verus! {

/// The whole simulation state, owned by the simulation loop and handed
/// to each step function explicitly.
#[derive(Debug)]
pub struct World {
    /// The snake's head, carrying the committed heading.
    pub head: SnakeHead,
    /// The body cells, head first.
    pub body: SnakeBody,
    /// The tail cell recorded before the most recent move.
    pub last_tail: LastBodySegmentPosition,
    /// The active food, if any.
    pub food: Option<Food>,
}

impl World {
    /// The heading committed for the next movement step.
    pub open spec fn spec_heading(self) -> MovementDirection {
        self.head.movement_direction
    }

    /// Well-formed world: at least two segments, every segment inside
    /// the arena, and any food or recorded tail cell inside the arena.
    pub open spec fn wf(self) -> bool {
        &&& self.body@.len() >= 2
        &&& (forall|i: int| 0 <= i < self.body@.len() ==> spec_in_bounds(#[trigger] self.body@[i]))
        &&& (self.food matches Some(f) ==> spec_in_bounds(f.position))
        &&& (self.last_tail.0 matches Some(p) ==> spec_in_bounds(p))
    }
}

/// The cell both initial segments occupy at spawn.
pub open spec fn spawn_cell() -> Position {
    Position { x: 3, y: 3 }
}

/// The world state `spawn_snake` produces: a two-segment snake on the
/// spawn cell, default heading Up, no food, no recorded tail cell.
pub open spec fn is_initial(w: World) -> bool {
    &&& w.body@ == seq![spawn_cell(), spawn_cell()]
    &&& w.head.movement_direction == MovementDirection::Up
    &&& w.food is None
    &&& w.last_tail.0 is None
}

/// Append one body segment at `position` as the new tail.
pub fn spawn_snake_body_segment(body: &mut SnakeBody, position: Position)
    ensures
        final(body)@ == old(body)@.push(position),
{
    body.0.push(position);
}

/// Create the initial world: a snake of two segments on the spawn cell,
/// default heading Up, and no food.
pub fn spawn_snake() -> (w: World)
    ensures
        is_initial(w),
        w.wf(),
{
    let mut body = SnakeBody(Vec::new());
    body.0.push(Position { x: 3, y: 3 });
    spawn_snake_body_segment(&mut body, Position { x: 3, y: 3 });
    proof {
        assert(body@ =~= seq![spawn_cell(), spawn_cell()]);
    }
    World {
        head: SnakeHead { movement_direction: MovementDirection::Up },
        body,
        last_tail: LastBodySegmentPosition(None),
        food: None,
    }
}

/// Commit the polled directional intent for the next movement step.
/// `None` stands for no direction key being down, which keeps the
/// current heading. A 180-degree reversal request is rejected, never
/// queued: the heading stays as it was and no error is raised, since
/// player input is best-effort. Later intents before the next tick
/// simply overwrite earlier ones: last write wins.
pub fn snake_input(w: &mut World, look_direction: Option<MovementDirection>)
    ensures
        final(w).body == old(w).body,
        final(w).food == old(w).food,
        final(w).last_tail == old(w).last_tail,
        (match look_direction {
            Some(d) => {
                if d == spec_reverse(old(w).spec_heading()) {
                    final(w).spec_heading() == old(w).spec_heading()
                } else {
                    final(w).spec_heading() == d
                }
            },
            None => final(w).spec_heading() == old(w).spec_heading(),
        }),
{
    let look = match look_direction {
        Some(d) => d,
        None => w.head.movement_direction,
    };
    if look != w.head.movement_direction.reverse_direction() {
        w.head.movement_direction = look;
    }
}

/// Copy the cells of `v` into a fresh vector.
fn copy_positions(v: &Vec<Position>) -> (r: Vec<Position>)
    ensures
        r@ == v@,
{
    let mut r: Vec<Position> = Vec::new();
    let mut i: usize = 0;
    while i < v.len()
        invariant
            0 <= i <= v.len(),
            r@ == v@.take(i as int),
        decreases v.len() - i,
    {
        r.push(v[i]);
        proof {
            assert(v@.take(i as int).push(v@[i as int]) =~= v@.take(i as int + 1));
        }
        i += 1;
    }
    proof {
        assert(r@ =~= v@);
    }
    r
}

/// Whether any cell of `v` equals `c`.
fn contains_position(v: &Vec<Position>, c: Position) -> (r: bool)
    ensures
        r == v@.contains(c),
{
    let mut i: usize = 0;
    while i < v.len()
        invariant
            0 <= i <= v.len(),
            forall|j: int| 0 <= j < i ==> v@[j] != c,
        decreases v.len() - i,
    {
        if v[i] == c {
            return true;
        }
        i += 1;
    }
    false
}

/// The body after one movement step: the head advances one cell in
/// `d`, and every other segment takes the pre-move cell of its
/// predecessor — a simultaneous shift over a snapshot of the prior
/// positions, never a chained segment-by-segment mutation.
pub open spec fn spec_shifted(prior: Seq<Position>, d: MovementDirection) -> Seq<Position>
    recommends
        prior.len() >= 1,
{
    seq![spec_step(prior[0], d)] + prior.drop_last()
}

/// The death signal one movement step on body `prior` with heading `d`
/// raises: a boundary death when the new head cell leaves the arena,
/// a self-collision death when it lands on any pre-move body cell, and
/// none otherwise. Both causes collapse into a single signal, the
/// boundary check coming first.
pub open spec fn spec_death(prior: Seq<Position>, d: MovementDirection) -> Option<SnakeDies> {
    let nh = spec_step(prior[0], d);
    if !spec_in_bounds(nh) {
        Some(SnakeDies { reason: DeathReason::Boundary })
    } else if prior.contains(nh) {
        Some(SnakeDies { reason: DeathReason::SelfCollision })
    } else {
        None
    }
}

/// One movement step: snapshot the prior body cells, record the prior
/// tail cell for a possible growth later in the tick, advance the head
/// one cell in the committed heading, and shift every other segment to
/// its predecessor's pre-move cell. Returns the death signal, if any;
/// the caller resets the world in that case. Advancing never changes
/// the body's length. Because the self-collision check runs against
/// the pre-move cells, moving onto the cell the tail just vacated is a
/// death, while the head cell itself is always safely left behind.
pub fn snake_movement(w: &mut World) -> (death: Option<SnakeDies>)
    requires
        old(w).wf(),
    ensures
        final(w).head == old(w).head,
        final(w).food == old(w).food,
        final(w).last_tail.0 == Some(old(w).body@.last()),
        final(w).body@ == spec_shifted(old(w).body@, old(w).spec_heading()),
        final(w).body@.len() == old(w).body@.len(),
        death == spec_death(old(w).body@, old(w).spec_heading()),
        death is None ==> final(w).wf(),
{
    let prior = copy_positions(&w.body.0);
    let n = prior.len();
    w.last_tail = LastBodySegmentPosition(Some(prior[n - 1]));

    let new_head = step_position(prior[0], w.head.movement_direction);

    let mut shifted: Vec<Position> = Vec::new();
    shifted.push(new_head);
    let mut i: usize = 0;
    while i < n - 1
        invariant
            0 <= i <= n - 1,
            n == prior@.len(),
            n >= 2,
            shifted@ == seq![new_head] + prior@.take(i as int),
        decreases n - 1 - i,
    {
        shifted.push(prior[i]);
        proof {
            assert((seq![new_head] + prior@.take(i as int)).push(prior@[i as int])
                =~= seq![new_head] + prior@.take(i as int + 1));
        }
        i += 1;
    }
    proof {
        assert(prior@.take(n - 1 as int) =~= prior@.drop_last());
    }
    w.body = SnakeBody(shifted);

    let death: Option<SnakeDies> = if !in_bounds(new_head) {
        Some(SnakeDies { reason: DeathReason::Boundary })
    } else if contains_position(&prior, new_head) {
        Some(SnakeDies { reason: DeathReason::SelfCollision })
    } else {
        None
    };
    death
}

/// Food check, run after the movement step: when the active food sits
/// on the new head cell, the food is destroyed and a growth event is
/// owed. At most one growth event can arise per tick: there is one
/// head cell, checked once.
pub fn eat_food(w: &mut World) -> (growth: Option<GrowthEvent>)
    requires
        old(w).body@.len() >= 1,
    ensures
        final(w).head == old(w).head,
        final(w).body == old(w).body,
        final(w).last_tail == old(w).last_tail,
        (match old(w).food {
            Some(f) => {
                if f.position == old(w).body@[0] {
                    final(w).food is None && growth is Some
                } else {
                    final(w).food == old(w).food && growth is None
                }
            },
            None => final(w).food == old(w).food && growth is None,
        }),
{
    let head_pos = w.body.0[0];
    match w.food {
        Some(f) => {
            if f.position == head_pos {
                w.food = None;
                return Some(GrowthEvent);
            }
        }
        None => {}
    }
    None
}

/// Growth, run last in the tick: a growth event appends exactly one
/// segment at the tail cell recorded before the move. The precondition
/// demands that cell to be on record whenever an event is handed in,
/// which every tick that emits one guarantees.
pub fn snake_growth(w: &mut World, growth: Option<GrowthEvent>)
    requires
        growth is Some ==> old(w).last_tail.0 is Some,
    ensures
        final(w).head == old(w).head,
        final(w).food == old(w).food,
        final(w).last_tail == old(w).last_tail,
        growth is Some ==> final(w).body@ == old(w).body@.push(old(w).last_tail.0->0),
        growth is None ==> final(w).body == old(w).body,
        old(w).wf() ==> final(w).wf(),
{
    if growth.is_some() {
        let cell = w.last_tail.0.unwrap();
        spawn_snake_body_segment(&mut w.body, cell);
    }
}

/// How one movement tick ended, handed back to the host.
#[derive(Clone, Copy, PartialEq, Eq, Structural, Debug)]
pub enum Outcome {
    /// The snake moved; nothing else happened.
    Normal,
    /// The snake moved onto the food and grew by one segment.
    Ate,
    /// The snake left the arena or hit itself; the world was reset.
    Died(DeathReason),
}

/// The outcome one movement tick on world `w` must classify: death
/// when the new head cell leaves the arena or lands on a pre-move body
/// cell (in that order of precedence), eating when it lands on the
/// active food, and a normal move otherwise.
pub open spec fn spec_outcome(w: World) -> Outcome {
    let nh = spec_step(w.body@[0], w.spec_heading());
    if !spec_in_bounds(nh) {
        Outcome::Died(DeathReason::Boundary)
    } else if w.body@.contains(nh) {
        Outcome::Died(DeathReason::SelfCollision)
    } else if w.food matches Some(f) && f.position == nh {
        Outcome::Ate
    } else {
        Outcome::Normal
    }
}

/// One whole movement tick, in its fixed order: move and shift the
/// snake, then either reset on a death, or check the food and grow.
/// A death skips the food and growth steps for that tick. The
/// guarantees, by outcome: a deadly tick leaves the freshly spawned
/// initial world; an eating tick destroys the food, grows the body by
/// exactly one segment, and places the new tail on the pre-move tail
/// cell; a normal tick only shifts the body. After every tick the
/// world is well-formed again — in particular the head cell is inside
/// the arena, never left out of bounds.
pub fn tick_movement(w: &mut World) -> (o: Outcome)
    requires
        old(w).wf(),
    ensures
        o == spec_outcome(*old(w)),
        final(w).wf(),
        spec_in_bounds(final(w).body@[0]),
        o matches Outcome::Died(_) ==> is_initial(*final(w)),
        o is Ate ==> {
            let prior = old(w).body@;
            let nh = spec_step(prior[0], old(w).spec_heading());
            &&& final(w).body@ == seq![nh] + prior
            &&& final(w).body@.len() == prior.len() + 1
            &&& final(w).body@.last() == prior.last()
            &&& final(w).food is None
            &&& final(w).head == old(w).head
            &&& final(w).last_tail.0 == Some(prior.last())
        },
        o is Normal ==> {
            let prior = old(w).body@;
            &&& final(w).body@ == spec_shifted(prior, old(w).spec_heading())
            &&& final(w).body@.len() == prior.len()
            &&& final(w).food == old(w).food
            &&& final(w).head == old(w).head
            &&& final(w).last_tail.0 == Some(prior.last())
        },
{
    let ghost prior = w.body@;
    let ghost nh = spec_step(prior[0], old(w).spec_heading());
    let death = snake_movement(w);
    match death {
        Some(sd) => {
            snake_die(w, death);
            Outcome::Died(sd.reason)
        },
        None => {
            let growth = eat_food(w);
            snake_growth(w, growth);
            proof {
                if growth is Some {
                    assert((seq![nh] + prior.drop_last()).push(prior.last())
                        =~= seq![nh] + prior);
                }
            }
            match growth {
                Some(_) => Outcome::Ate,
                None => Outcome::Normal,
            }
        },
    }
}

/// Read-only view for the rendering host: the body cells head first,
/// and the active food cell if any. The host may only read the world
/// this way; all mutation goes through the step functions.
pub fn snapshot(w: &World) -> (r: (Vec<Position>, Option<Position>))
    ensures
        r.0@ == w.body@,
        (match w.food {
            Some(f) => r.1 == Some(f.position),
            None => r.1 is None,
        }),
{
    let cells = copy_positions(&w.body.0);
    let food_cell = match w.food {
        Some(f) => Some(f.position),
        None => None,
    };
    (cells, food_cell)
}

/// Lifecycle step: a death signal despawns every segment and any
/// active food and re-runs the spawn, restoring the initial world
/// whatever the pre-death state was. Without a signal nothing changes.
pub fn snake_die(w: &mut World, death: Option<SnakeDies>)
    ensures
        death is Some ==> is_initial(*final(w)) && final(w).wf(),
        death is None ==> *final(w) == *old(w),
{
    if death.is_some() {
        *w = spawn_snake();
    }
}

} // verus!
