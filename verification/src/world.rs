//! The entities of a level.
use crate::components::{
    CollidedWithPlatform, Dot, JumpingState, Position, Speed, YMovementState,
};
use crate::model::{Body, Point, Scene};
use vstd::prelude::*;

verus! {

/// The dot with everything that is attached to it.
#[derive(Clone, Copy, Debug, PartialEq, Eq, Structural)]
pub struct DotEntity {
    pub position: Position,
    pub speed: Speed,
    pub collided_with_platform: CollidedWithPlatform,
    pub movement_state: YMovementState,
    pub jumping_state: JumpingState,
    pub dot: Dot,
}

impl View for DotEntity {
    type V = Body;

    open spec fn view(&self) -> Body {
        Body {
            position: self.position@,
            vx: self.speed.x as int,
            vy: self.speed.y as int,
            resting: self.collided_with_platform.0,
            motion: self.movement_state.0,
            jumps: self.jumping_state.0,
            direction: self.dot.direction,
            direction_x: self.dot.direction_x,
        }
    }
}

/// The places of a row of platforms.
pub open spec fn points(platforms: Seq<Position>) -> Seq<Point> {
    platforms.map_values(|p: Position| p@)
}

/// The dot, while it lives, and the platforms in the order in which the
/// level names them.
#[derive(Clone, Debug, PartialEq, Eq)]
pub struct World {
    pub dot: Option<DotEntity>,
    pub platforms: Vec<Position>,
}

impl View for World {
    type V = Scene;

    open spec fn view(&self) -> Scene {
        Scene {
            dot: match self.dot {
                Some(d) => Some(d@),
                None => None,
            },
            platforms: points(self.platforms@),
        }
    }
}

} // verus!
