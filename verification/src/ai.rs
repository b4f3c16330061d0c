//! The enemy AI: now and then an enemy starts walking in a random direction.

use vstd::prelude::*;

use crate::components::{Direction, Velocity};
use crate::random::{gen_range_i32, thread_rng};

verus! {

/// Out of this many AI steps, one on average makes an enemy change course.
pub const TURN_ODDS: i32 = 10i32;

/// The direction that a roll in `0..4` stands for.
pub open spec fn direction_of_roll(roll: int) -> Direction {
    if roll == 0 {
        Direction::Up
    } else if roll == 1 {
        Direction::Down
    } else if roll == 2 {
        Direction::Left
    } else {
        Direction::Right
    }
}

/// The velocity after one AI decision: on a `chance` roll of 0 the enemy
/// starts moving at its movement speed in the direction `dir_roll` stands
/// for; otherwise nothing changes.
pub open spec fn ai_decision(v: Velocity, chance: int, dir_roll: int) -> Velocity {
    if chance == 0 {
        Velocity { speed: v.mo_speed, direction: direction_of_roll(dir_roll), mo_speed: v.mo_speed }
    } else {
        v
    }
}

/// `after` is the outcome of one AI decision on `before` for some pair of
/// rolls that the generator can give.
pub open spec fn ai_outcome(before: Velocity, after: Velocity) -> bool {
    exists|c: int, d: int|
        0 <= c < TURN_ODDS && 0 <= d < 4 && after == #[trigger] ai_decision(before, c, d)
}

/// The AI system for the entities marked as enemies.
#[derive(Clone, Copy, Debug, Default)]
pub struct AI;

impl AI {
    /// The direction for a roll in `0..4`.
    pub fn direction_from_roll(roll: i32) -> (d: Direction)
        requires
            0 <= roll < 4,
        ensures
            d == direction_of_roll(roll as int),
    {
        match roll {
            0 => Direction::Up,
            1 => Direction::Down,
            2 => Direction::Left,
            _ => Direction::Right,
        }
    }

    /// One AI decision on an enemy's velocity, given the two rolls: the
    /// roll in `0..TURN_ODDS` and, when that roll is 0, the direction roll.
    pub fn decide(vel: &mut Velocity, chance: i32, dir_roll: i32)
        requires
            chance == 0 ==> 0 <= dir_roll < 4,
        ensures
            *final(vel) == ai_decision(*old(vel), chance as int, dir_roll as int),
    {
        if chance == 0 {
            vel.speed = vel.mo_speed;
            vel.direction = AI::direction_from_roll(dir_roll);
        }
    }

    /// Runs the AI on each enemy's velocity: each draws a roll in
    /// `0..TURN_ODDS`, and on 0 a direction roll in `0..4`.
    pub fn run(&mut self, velocities: &mut Vec<Velocity>)
        ensures
            final(velocities).len() == old(velocities).len(),
            forall|i: int|
                0 <= i < old(velocities).len() ==> ai_outcome(
                    old(velocities)[i],
                    #[trigger] final(velocities)[i],
                ),
    {
        let mut rng = thread_rng();
        let n = velocities.len();
        let mut i: usize = 0;
        let ghost mut rolls: Seq<(int, int)> = Seq::empty();
        while i < n
            invariant
                n == velocities.len(),
                n == old(velocities).len(),
                0 <= i <= n,
                rolls.len() == i,
                forall|j: int|
                    0 <= j < i ==> 0 <= #[trigger] rolls[j].0 < TURN_ODDS && 0 <= rolls[j].1 < 4
                        && velocities[j] == ai_decision(old(velocities)[j], rolls[j].0, rolls[j].1),
                forall|j: int| i <= j < n ==> #[trigger] velocities[j] == old(velocities)[j],
            decreases n - i,
        {
            let chance = gen_range_i32(&mut rng, 0, TURN_ODDS);
            let mut dir_roll: i32 = 0;
            if chance == 0 {
                dir_roll = gen_range_i32(&mut rng, 0, 4);
            }
            let mut vel = velocities[i];
            AI::decide(&mut vel, chance, dir_roll);
            velocities.set(i, vel);
            proof {
                rolls = rolls.push((chance as int, dir_roll as int));
            }
            i = i + 1;
        }
        assert forall|i: int| 0 <= i < n implies ai_outcome(
            old(velocities)[i],
            #[trigger] velocities[i],
        ) by {
            assert(velocities[i] == ai_decision(old(velocities)[i], rolls[i].0, rolls[i].1));
        }
    }
}

/// The AI never changes an enemy's movement speed, and leaves it either
/// as it was or walking at that movement speed.
pub proof fn lemma_ai_keeps_movement_speed(v: Velocity, chance: int, dir_roll: int)
    ensures
        ai_decision(v, chance, dir_roll).mo_speed == v.mo_speed,
        ai_decision(v, chance, dir_roll) == v || ai_decision(v, chance, dir_roll).speed
            == v.mo_speed,
{
}

/// What one decision does, over every velocity: on a chance roll of 0 the
/// enemy starts walking at its movement speed, Up on a direction roll of 0,
/// Down on 1, Left on 2 and Right on 3; any other chance roll leaves it as
/// it was. Distinct direction rolls give distinct directions, so each
/// direction is the outcome of exactly one roll.
pub proof fn lemma_ai_decision_directions(v: Velocity, chance: int, d1: int, d2: int)
    ensures
        ai_decision(v, 0, 0) == (Velocity { speed: v.mo_speed, direction: Direction::Up, mo_speed: v.mo_speed }),
        ai_decision(v, 0, 1) == (Velocity { speed: v.mo_speed, direction: Direction::Down, mo_speed: v.mo_speed }),
        ai_decision(v, 0, 2) == (Velocity { speed: v.mo_speed, direction: Direction::Left, mo_speed: v.mo_speed }),
        ai_decision(v, 0, 3) == (Velocity { speed: v.mo_speed, direction: Direction::Right, mo_speed: v.mo_speed }),
        chance != 0 ==> ai_decision(v, chance, d1) == v,
        0 <= d1 < 4 && 0 <= d2 < 4 && d1 != d2 ==> ai_decision(v, 0, d1).direction != ai_decision(
            v,
            0,
            d2,
        ).direction,
{
}

/// Every direction is reachable: the four rolls give four different
/// directions.
pub proof fn lemma_direction_rolls_cover_all(d: Direction)
    ensures
        exists|r: int| 0 <= r < 4 && #[trigger] direction_of_roll(r) == d,
{
    match d {
        Direction::Up => assert(direction_of_roll(0) == d),
        Direction::Down => assert(direction_of_roll(1) == d),
        Direction::Left => assert(direction_of_roll(2) == d),
        Direction::Right => assert(direction_of_roll(3) == d),
    }
}

} // verus!
