//! The component values that entities of the game carry.

use vstd::prelude::*;

use crate::geometry::{Point, Rect};

verus! {

/// One of the four directions an entity can face or move in.
#[derive(Clone, Copy, Debug, PartialEq, Eq, Structural)]
pub enum Direction {
    Up,
    Down,
    Left,
    Right,
}

/// Marks the entity that the keyboard steers.
#[derive(Clone, Copy, Debug, Default)]
pub struct KeyboardControlled;

/// Marks an entity steered by the enemy AI.
#[derive(Clone, Copy, Debug, Default)]
pub struct Enemy;

/// Current position of an entity.
#[derive(Clone, Copy, Debug, PartialEq, Eq, Structural)]
pub struct Position(pub Point);

/// Current speed and direction of an entity; `mo_speed` is the speed it
/// moves at once it starts moving.
#[derive(Clone, Copy, Debug, PartialEq, Eq, Structural)]
pub struct Velocity {
    pub speed: i32,
    pub direction: Direction,
    pub mo_speed: i32,
}

/// Hit points of the player.
#[derive(Clone, Copy, Debug, PartialEq, Eq, Structural)]
pub struct Health {
    pub health: i32,
}

/// A region of one of the loaded spritesheets.
#[derive(Clone, Copy, Debug, PartialEq, Eq, Structural)]
pub struct Sprite {
    pub spritesheet: usize,
    pub region: Rect,
}

/// The walking frames of a character, one list per direction.
#[derive(Debug)]
pub struct MovementAnimation {
    pub current_frame: usize,
    pub up_frames: Vec<Sprite>,
    pub down_frames: Vec<Sprite>,
    pub left_frames: Vec<Sprite>,
    pub right_frames: Vec<Sprite>,
}

} // verus!
