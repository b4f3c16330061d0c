//! Game logic of a small top-down arena game: movement, enemy AI,
//! collisions, sprite animation frames and the input state machine.
//! Rendering, windowing and the entity-component world live in the
//! application around this library.

pub mod ai;
pub mod animation;
pub mod components;
pub mod controls;
pub mod crash;
pub mod geometry;
pub mod physics;
mod random;
pub mod renderer;
