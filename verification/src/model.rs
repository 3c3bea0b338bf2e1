//! The simulation as mathematics: unbounded integers, and one function per
//! stage of a frame.
use crate::components::{Direction, DirectionX, JumpState, Position, YDotState};
use crate::input::Intents;
use crate::units::{
    clamp, in_world, CAMERA_SLACK, DEATH_LINE, GRAVITY, JUMP_SPEED, MICROS_PER_SECOND, REACH, RISE,
    RUN, RUN_SPEED, TERMINAL_SPEED,
};
use vstd::prelude::*;

verus! {

/// A place in the world, in position ticks.
pub struct Point {
    pub x: int,
    pub y: int,
    pub z: int,
}

impl View for Position {
    type V = Point;

    open spec fn view(&self) -> Point {
        Point { x: self.x as int, y: self.y as int, z: self.z as int }
    }
}

/// Everything that is attached to the dot.
pub struct Body {
    pub position: Point,
    /// Horizontal speed, a magnitude.
    pub vx: int,
    /// Vertical speed, positive upwards.
    pub vy: int,
    /// Whether the dot touched a platform when contact was last resolved.
    pub resting: bool,
    pub motion: YDotState,
    pub jumps: JumpState,
    pub direction: Direction,
    pub direction_x: DirectionX,
}

/// The dot and the platforms.
pub struct Scene {
    pub dot: Option<Body>,
    pub platforms: Seq<Point>,
}

impl Point {
    /// Every coordinate lies in the simulated part of the world.
    pub open spec fn in_world(self) -> bool {
        in_world(self.x) && in_world(self.y) && in_world(self.z)
    }
}

impl Body {
    /// The speeds are such as the stages of a frame leave them: the vertical
    /// one within the terminal speed, the horizontal one between nothing and
    /// the running speed.
    pub open spec fn valid(self) -> bool {
        &&& -TERMINAL_SPEED <= self.vy <= TERMINAL_SPEED
        &&& 0 <= self.vx <= RUN_SPEED
    }

    /// A step of any length keeps the coordinates in the range of the
    /// machine: the speeds are valid, and the coordinates that the step
    /// changes lie in the simulated part of the world.
    pub open spec fn movable(self) -> bool {
        &&& self.valid()
        &&& in_world(self.position.x)
        &&& self.resting || in_world(self.position.y)
    }
}

/// Every platform lies in the simulated part of the world.
pub open spec fn platforms_in_world(platforms: Seq<Point>) -> bool {
    forall|i: int| 0 <= i < platforms.len() ==> (#[trigger] platforms[i]).in_world()
}

impl Scene {
    /// The dot, if there is one, is valid, and the platforms lie in the world.
    pub open spec fn valid(self) -> bool {
        &&& self.dot matches Some(b) ==> b.valid()
        &&& platforms_in_world(self.platforms)
    }

    /// The dot, if there is one, lies in the simulated part of the world.
    pub open spec fn dot_in_world(self) -> bool {
        self.dot matches Some(b) ==> b.position.in_world()
    }
}

// ---------------------------------------------------------------------------
// Input
// ---------------------------------------------------------------------------

/// A jump may start from a platform, and in the air until two were taken.
pub open spec fn jump_allowed(motion: YDotState, jumps: JumpState) -> bool {
    motion == YDotState::Standing || jumps != JumpState::DoubleJump
}

/// The dot fell off a platform without having jumped: the jump that it takes
/// now is its last.
pub open spec fn jump_is_late(motion: YDotState, jumps: JumpState) -> bool {
    motion == YDotState::Falling && jumps == JumpState::NoJump
}

/// The count after one more jump.
pub open spec fn next_jump(jumps: JumpState) -> JumpState {
    match jumps {
        JumpState::NoJump => JumpState::SingleJump,
        JumpState::SingleJump => JumpState::DoubleJump,
        JumpState::DoubleJump => JumpState::DoubleJump,
    }
}

/// Whether the dot starts a jump in this frame.
pub open spec fn jumps_now(b: Body, keys: Intents) -> bool {
    keys.jump_pressed && jump_allowed(b.motion, b.jumps)
}

/// The dot after the player's intent was applied.
///
/// A held direction sets the facing and the running speed, right after left.
/// A jump that is allowed sets the vertical speed and counts; a late jump
/// counts for two and ends the stage at once, before a released direction
/// could stop the dot. Otherwise a released direction stops it.
pub open spec fn keyboard_step(b: Body, keys: Intents) -> Body {
    let direction_x = if keys.right_held {
        DirectionX::Right
    } else if keys.left_held {
        DirectionX::Left
    } else {
        b.direction_x
    };
    let run = if keys.left_held || keys.right_held {
        RUN_SPEED as int
    } else {
        b.vx
    };
    let stop = if keys.left_released || keys.right_released {
        0
    } else {
        run
    };
    if !jumps_now(b, keys) {
        Body { direction_x, vx: stop, ..b }
    } else if jump_is_late(b.motion, b.jumps) {
        Body {
            direction_x,
            vx: run,
            vy: JUMP_SPEED as int,
            direction: Direction::Up,
            jumps: JumpState::DoubleJump,
            ..b
        }
    } else {
        Body {
            direction_x,
            vx: stop,
            vy: JUMP_SPEED as int,
            direction: Direction::Up,
            motion: YDotState::Jumping,
            jumps: next_jump(b.jumps),
            ..b
        }
    }
}

// ---------------------------------------------------------------------------
// Gravity
// ---------------------------------------------------------------------------

/// The vertical speed after `dt` microseconds of free fall.
pub open spec fn fall_speed(vy: int, dt: int) -> int {
    clamp(vy - GRAVITY * dt, -TERMINAL_SPEED as int, TERMINAL_SPEED as int)
}

/// The motion that a vertical speed stands for in the air.
pub open spec fn airborne_motion(vy: int) -> YDotState {
    if vy < 0 {
        YDotState::Falling
    } else {
        YDotState::Jumping
    }
}

/// The dot after gravity acted for `dt` microseconds. Gravity passes over a
/// dot that rests.
pub open spec fn gravity_step(b: Body, dt: int) -> Body {
    if b.resting {
        b
    } else {
        let vy = fall_speed(b.vy, dt);
        Body { vy, motion: airborne_motion(vy), ..b }
    }
}

// ---------------------------------------------------------------------------
// Contact
// ---------------------------------------------------------------------------

/// Two coordinates are within reach of each other.
pub open spec fn near(a: int, b: int) -> bool {
    -REACH <= a - b <= REACH
}

/// The dot descends and is within reach of the platform on every axis.
pub open spec fn touches(b: Body, platform: Point) -> bool {
    &&& b.vy < 0
    &&& near(b.position.x, platform.x)
    &&& near(b.position.y, platform.y)
    &&& near(b.position.z, platform.z)
}

/// Platform `k` is the first in order that the dot touches.
pub open spec fn is_first_contact(b: Body, platforms: Seq<Point>, k: int) -> bool {
    &&& 0 <= k < platforms.len()
    &&& touches(b, platforms[k])
    &&& forall|j: int| 0 <= j < k ==> !#[trigger] touches(b, platforms[j])
}

/// The dot touches some platform.
pub open spec fn in_contact(b: Body, platforms: Seq<Point>) -> bool {
    exists|k: int| 0 <= k < platforms.len() && #[trigger] touches(b, platforms[k])
}

/// The first platform in order that the dot touches. It means nothing where
/// the dot touches none.
pub open spec fn first_contact(b: Body, platforms: Seq<Point>) -> int {
    choose|k: int| is_first_contact(b, platforms, k)
}

/// The dot lands: it did not rest, and now it touches a platform.
pub open spec fn lands(b: Body, platforms: Seq<Point>) -> bool {
    !b.resting && in_contact(b, platforms)
}

/// The dot after contact was resolved. It rests exactly if it touches a
/// platform. Where it lands, it comes to rest just above the first platform
/// that it touches, and may jump anew.
pub open spec fn collision_step(b: Body, platforms: Seq<Point>) -> Body {
    if lands(b, platforms) {
        let k = first_contact(b, platforms);
        Body {
            position: Point { y: platforms[k].y + REACH, ..b.position },
            vy: 0,
            resting: true,
            motion: YDotState::Standing,
            jumps: JumpState::NoJump,
            ..b
        }
    } else {
        Body { resting: in_contact(b, platforms), ..b }
    }
}

// ---------------------------------------------------------------------------
// Motion
// ---------------------------------------------------------------------------

/// The dot after it moved for `dt` microseconds. A dot that rests keeps its
/// height.
pub open spec fn move_step(b: Body, dt: int) -> Body {
    let y = if b.resting {
        b.position.y
    } else {
        b.position.y + RISE * b.vy * dt
    };
    let x = match b.direction_x {
        DirectionX::Right => b.position.x + RUN * b.vx * dt,
        DirectionX::Left => b.position.x - RUN * b.vx * dt,
    };
    Body { position: Point { x, y, z: b.position.z }, ..b }
}

// ---------------------------------------------------------------------------
// The camera
// ---------------------------------------------------------------------------

/// How far the camera moves along one axis in `dt` microseconds, the target
/// being `apart` away: not at all within the slack, else by the distance
/// times the seconds that went by, less the fraction of a tick.
pub open spec fn ease(apart: int, dt: int) -> int {
    if -CAMERA_SLACK <= apart <= CAMERA_SLACK {
        0
    } else if apart > 0 {
        (apart * dt) / (MICROS_PER_SECOND as int)
    } else {
        -((-apart * dt) / (MICROS_PER_SECOND as int))
    }
}

/// The camera after it followed the target for `dt` microseconds. Its depth
/// stays.
pub open spec fn follow(camera: Point, target: Point, dt: int) -> Point {
    Point {
        x: camera.x + ease(target.x - camera.x, dt),
        y: camera.y + ease(target.y - camera.y, dt),
        z: camera.z,
    }
}

/// The place that the camera comes to can be written down: its coordinates
/// are in the range of the machine.
pub open spec fn can_follow(camera: Point, target: Point, dt: int) -> bool {
    let to = follow(camera, target, dt);
    i64::MIN <= to.x <= i64::MAX && i64::MIN <= to.y <= i64::MAX
}

// ---------------------------------------------------------------------------
// Death, and the whole frame
// ---------------------------------------------------------------------------

/// The dot fell out of the world.
pub open spec fn fallen(b: Body) -> bool {
    b.position.y < DEATH_LINE
}

/// The scene after the fall was judged: a dot that fell out of the world is
/// gone, and every platform with it.
pub open spec fn death_step(s: Scene) -> Scene {
    match s.dot {
        Some(b) => if fallen(b) {
            Scene { dot: None, platforms: Seq::empty() }
        } else {
            s
        },
        None => s,
    }
}

/// The dot after the four stages that move it: input, gravity, contact,
/// motion.
pub open spec fn dot_frame(b: Body, platforms: Seq<Point>, keys: Intents, dt: int) -> Body {
    move_step(collision_step(gravity_step(keyboard_step(b, keys), dt), platforms), dt)
}

/// The dot as a level starts: at the origin and at rest in the air, about to
/// fall, facing right.
pub open spec fn newborn() -> Body {
    Body {
        position: Point { x: 0, y: 0, z: 0 },
        vx: 0,
        vy: 0,
        resting: false,
        motion: YDotState::Falling,
        jumps: JumpState::NoJump,
        direction: Direction::Down,
        direction_x: DirectionX::Right,
    }
}

/// The scene after one frame of `dt` microseconds. A scene without a dot
/// stays as it is.
pub open spec fn frame(s: Scene, keys: Intents, dt: int) -> Scene {
    match s.dot {
        Some(b) => death_step(
            Scene { dot: Some(dot_frame(b, s.platforms, keys, dt)), platforms: s.platforms },
        ),
        None => s,
    }
}

} // verus!
