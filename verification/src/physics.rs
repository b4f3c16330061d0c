//! Moving entities by their velocity inside the arena.

use vstd::prelude::*;

use crate::components::{Direction, Position, Velocity};
use crate::geometry::{point_offset, point_wf, Point, POS_MAX, POS_MIN};

verus! {

/// Half the width of the arena in which entities may still move outward.
pub const ARENA_HALF_WIDTH: i32 = 387i32;

/// Half the height of the arena in which entities may still move outward.
pub const ARENA_HALF_HEIGHT: i32 = 282i32;

/// Where one physics step takes a point: it moves `speed` units in its
/// direction, unless it already stands at or beyond the arena's edge on
/// that side.
pub open spec fn physics_step(p: Point, v: Velocity) -> Point {
    match v.direction {
        Direction::Left => if p.x > -ARENA_HALF_WIDTH {
            point_offset(p, -v.speed, 0)
        } else {
            p
        },
        Direction::Right => if p.x < ARENA_HALF_WIDTH {
            point_offset(p, v.speed as int, 0)
        } else {
            p
        },
        Direction::Up => if p.y > -ARENA_HALF_HEIGHT {
            point_offset(p, 0, -v.speed)
        } else {
            p
        },
        Direction::Down => if p.y < ARENA_HALF_HEIGHT {
            point_offset(p, 0, v.speed as int)
        } else {
            p
        },
    }
}

/// The step does not negate a speed of `i32::MIN`, which has no `i32`
/// negation.
pub open spec fn physics_step_defined(p: Point, v: Velocity) -> bool {
    match v.direction {
        Direction::Left => p.x > -ARENA_HALF_WIDTH ==> v.speed != i32::MIN,
        Direction::Up => p.y > -ARENA_HALF_HEIGHT ==> v.speed != i32::MIN,
        _ => true,
    }
}

/// The box around the arena that entities with speeds up to `s` never leave.
pub open spec fn in_arena(p: Point, s: int) -> bool {
    &&& -ARENA_HALF_WIDTH - s <= p.x <= ARENA_HALF_WIDTH + s
    &&& -ARENA_HALF_HEIGHT - s <= p.y <= ARENA_HALF_HEIGHT + s
}

/// The physics system: moves every entity that has a position and a velocity.
#[derive(Clone, Copy, Debug, Default)]
pub struct Physics;

impl Physics {
    /// Moves one entity by its velocity.
    pub fn step(pos: &mut Position, vel: &Velocity)
        requires
            physics_step_defined(old(pos).0, *vel),
        ensures
            final(pos).0 == physics_step(old(pos).0, *vel),
    {
        match vel.direction {
            Direction::Left => {
                if pos.0.x > -ARENA_HALF_WIDTH {
                    pos.0 = pos.0.offset(-vel.speed, 0);
                }
            },
            Direction::Right => {
                if pos.0.x < ARENA_HALF_WIDTH {
                    pos.0 = pos.0.offset(vel.speed, 0);
                }
            },
            Direction::Up => {
                if pos.0.y > -ARENA_HALF_HEIGHT {
                    pos.0 = pos.0.offset(0, -vel.speed);
                }
            },
            Direction::Down => {
                if pos.0.y < ARENA_HALF_HEIGHT {
                    pos.0 = pos.0.offset(0, vel.speed);
                }
            },
        }
    }

    /// Moves each entity `positions[i]` by `velocities[i]`.
    pub fn run(&mut self, positions: &mut Vec<Position>, velocities: &Vec<Velocity>)
        requires
            old(positions).len() == velocities.len(),
            forall|i: int|
                0 <= i < velocities.len() ==> physics_step_defined(
                    #[trigger] old(positions)[i].0,
                    velocities[i],
                ),
        ensures
            final(positions).len() == old(positions).len(),
            forall|i: int|
                0 <= i < velocities.len() ==> #[trigger] final(positions)[i].0 == physics_step(
                    old(positions)[i].0,
                    velocities[i],
                ),
    {
        let n = positions.len();
        let mut i: usize = 0;
        while i < n
            invariant
                n == positions.len(),
                n == velocities.len(),
                n == old(positions).len(),
                0 <= i <= n,
                forall|j: int|
                    0 <= j < n ==> physics_step_defined(
                        #[trigger] old(positions)[j].0,
                        velocities[j],
                    ),
                forall|j: int|
                    0 <= j < i ==> #[trigger] positions[j].0 == physics_step(
                        old(positions)[j].0,
                        velocities[j],
                    ),
                forall|j: int| i <= j < n ==> #[trigger] positions[j] == old(positions)[j],
            decreases n - i,
        {
            let mut pos = positions[i];
            Physics::step(&mut pos, &velocities[i]);
            positions.set(i, pos);
            i = i + 1;
        }
    }
}

/// An entity whose speed lies in `[0, s]` stays in the box `in_arena(_, s)`
/// around the arena once it is in it.
pub proof fn lemma_physics_stays_in_arena(p: Point, v: Velocity, s: int)
    requires
        0 <= v.speed <= s,
        in_arena(p, s),
    ensures
        in_arena(physics_step(p, v), s),
{
}

/// How a step moves an entity, for every direction: it moves exactly
/// `speed` units along its direction when it stands strictly inside the
/// arena's edge on that side (whatever its place towards the other sides),
/// keeps the other coordinate, and does not move at all when it stands at or
/// beyond that edge. This holds whenever the moved coordinate stays within
/// the clamping bounds.
pub proof fn lemma_physics_moves(p: Point, v: Velocity)
    requires
        point_wf(p),
        POS_MIN <= p.x - v.speed <= POS_MAX,
        POS_MIN <= p.x + v.speed <= POS_MAX,
        POS_MIN <= p.y - v.speed <= POS_MAX,
        POS_MIN <= p.y + v.speed <= POS_MAX,
    ensures
        v.direction == Direction::Right && p.x < 387 ==> physics_step(p, v) == (Point {
            x: (p.x + v.speed) as i32,
            y: p.y,
        }),
        v.direction == Direction::Right && p.x >= 387 ==> physics_step(p, v) == p,
        v.direction == Direction::Left && p.x > -387 ==> physics_step(p, v) == (Point {
            x: (p.x - v.speed) as i32,
            y: p.y,
        }),
        v.direction == Direction::Left && p.x <= -387 ==> physics_step(p, v) == p,
        v.direction == Direction::Down && p.y < 282 ==> physics_step(p, v) == (Point {
            x: p.x,
            y: (p.y + v.speed) as i32,
        }),
        v.direction == Direction::Down && p.y >= 282 ==> physics_step(p, v) == p,
        v.direction == Direction::Up && p.y > -282 ==> physics_step(p, v) == (Point {
            x: p.x,
            y: (p.y - v.speed) as i32,
        }),
        v.direction == Direction::Up && p.y <= -282 ==> physics_step(p, v) == p,
{
}

/// An entity at rest (speed 0) does not move.
pub proof fn lemma_physics_rest(p: Point, v: Velocity)
    requires
        v.speed == 0,
        point_wf(p),
    ensures
        physics_step(p, v) == p,
{
}

/// A step changes only the coordinate along the entity's direction.
pub proof fn lemma_physics_axis(p: Point, v: Velocity)
    requires
        point_wf(p),
    ensures
        (v.direction == Direction::Left || v.direction == Direction::Right) ==> physics_step(
            p,
            v,
        ).y == p.y,
        (v.direction == Direction::Up || v.direction == Direction::Down) ==> physics_step(
            p,
            v,
        ).x == p.x,
{
}

} // verus!
