//! The data attached to entities.
use vstd::prelude::*;

verus! {

/// Vertical direction that the dot last meant to take.
#[derive(Clone, Copy, Debug, PartialEq, Eq, PartialOrd, Ord, Structural)]
pub enum Direction {
    Up,
    Down,
}

/// Horizontal direction that the dot last meant to take. It gives the
/// horizontal step its sign.
#[derive(Clone, Copy, Debug, PartialEq, Eq, PartialOrd, Ord, Structural)]
pub enum DirectionX {
    Right,
    Left,
}

/// Vertical motion: rising, resting on a platform, or descending.
#[derive(Clone, Copy, Debug, PartialEq, Eq, PartialOrd, Ord, Structural)]
pub enum YDotState {
    Jumping,
    Standing,
    Falling,
}

/// Horizontal motion.
#[derive(Clone, Copy, Debug, PartialEq, Eq, PartialOrd, Ord, Structural)]
pub enum XDotState {
    Decelerating,
    Stopped,
    Accelerating,
}

/// Jumps taken since the dot last landed.
#[derive(Clone, Copy, Debug, PartialEq, Eq, PartialOrd, Ord, Structural)]
pub enum JumpState {
    NoJump,
    SingleJump,
    DoubleJump,
}

/// The directions that the dot faces.
#[derive(Clone, Copy, Debug, PartialEq, Eq, Structural)]
pub struct Dot {
    pub direction: Direction,
    pub direction_x: DirectionX,
}

/// Velocity, in speed ticks. `x` is a magnitude: the direction that the dot
/// faces gives it its sign.
#[derive(Clone, Copy, Debug, PartialEq, Eq, Structural)]
pub struct Speed {
    pub x: i64,
    pub y: i64,
}

/// Whether the entity touched a platform when contact was last resolved.
#[derive(Clone, Copy, Debug, PartialEq, Eq, Structural)]
pub struct CollidedWithPlatform(pub bool);

/// The vertical motion of an entity.
#[derive(Clone, Copy, Debug, PartialEq, Eq, Structural)]
pub struct YMovementState(pub YDotState);

/// The horizontal motion of an entity.
#[derive(Clone, Copy, Debug, PartialEq, Eq, Structural)]
pub struct XMovementState(pub XDotState);

/// The jump count of an entity.
#[derive(Clone, Copy, Debug, PartialEq, Eq, Structural)]
pub struct JumpingState(pub JumpState);

/// Tag of the entities that the dot can land on.
#[derive(Clone, Copy, Debug, PartialEq, Eq, Structural)]
pub struct Platform;

/// Tag of the entities that never move.
#[derive(Clone, Copy, Debug, PartialEq, Eq, Structural)]
pub struct Stationary;

/// Tag of the entities that contact with a platform can stop.
#[derive(Clone, Copy, Debug, PartialEq, Eq, Structural)]
pub struct Movable;

/// Tag of the entity that the view is drawn from.
#[derive(Clone, Copy, Debug, PartialEq, Eq, Structural)]
pub struct Camera;

/// Tag of the entities that the dot can collect.
#[derive(Clone, Copy, Debug, PartialEq, Eq, Structural)]
pub struct Coin;

/// A place in the world, in position ticks. `z` orders what is drawn and no
/// motion changes it.
#[derive(Clone, Copy, Debug, PartialEq, Eq, Structural)]
pub struct Position {
    pub x: i64,
    pub y: i64,
    pub z: i64,
}

} // verus!
