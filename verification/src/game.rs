//! A level from its start, frame by frame.
use crate::components::{
    CollidedWithPlatform, Direction, DirectionX, Dot, JumpState, JumpingState, Position, Speed,
    YDotState, YMovementState,
};
use crate::input::Intents;
use crate::level::{init_map, level_platforms, MAX_LEVEL_GLYPHS};
use crate::model::{frame, newborn, Scene};
use crate::systems::{apply_collision, apply_gravity, apply_intents, death_dot, move_dot};
use crate::units::{in_world, RUN_SPEED, TERMINAL_SPEED, WORLD_LIMIT};
use crate::world::{points, DotEntity, World};
use vstd::prelude::*;

verus! {

/// Starts a level: the dot as it is born, and the platforms that `map` names.
pub fn setup(map: &str) -> (world: World)
    requires
        map@.len() <= MAX_LEVEL_GLYPHS,
    ensures
        world@ == (Scene { dot: Some(newborn()), platforms: level_platforms(map@) }),
        world@.valid(),
        world@.dot_in_world(),
{
    let dot = DotEntity {
        position: Position { x: 0, y: 0, z: 0 },
        speed: Speed { x: 0, y: 0 },
        collided_with_platform: CollidedWithPlatform(false),
        movement_state: YMovementState(YDotState::Falling),
        jumping_state: JumpingState(JumpState::NoJump),
        dot: Dot { direction: Direction::Down, direction_x: DirectionX::Right },
    };
    World { dot: Some(dot), platforms: init_map(map) }
}

/// Whether a coordinate lies in the simulated part of the world.
fn coordinate_in_world(c: i64) -> (r: bool)
    ensures
        r == in_world(c as int),
{
    -WORLD_LIMIT <= c && c <= WORLD_LIMIT
}

/// Whether a place lies in the simulated part of the world.
fn place_in_world(p: &Position) -> (r: bool)
    ensures
        r == p@.in_world(),
{
    coordinate_in_world(p.x) && coordinate_in_world(p.y) && coordinate_in_world(p.z)
}

/// Whether the world is one that [`tick`] takes: valid, and the dot inside.
pub fn can_tick(world: &World) -> (ok: bool)
    ensures
        ok == (world@.valid() && world@.dot_in_world()),
{
    match &world.dot {
        Some(dot) => {
            if !(-TERMINAL_SPEED <= dot.speed.y && dot.speed.y <= TERMINAL_SPEED && 0
                <= dot.speed.x && dot.speed.x <= RUN_SPEED && place_in_world(&dot.position)) {
                return false;
            }
        },
        None => {},
    }
    let mut i: usize = 0;
    while i < world.platforms.len()
        invariant
            i <= world.platforms.len(),
            forall|j: int| 0 <= j < i ==> (#[trigger] points(world.platforms@)[j]).in_world(),
        decreases world.platforms.len() - i,
    {
        if !place_in_world(&world.platforms[i]) {
            assert(!points(world.platforms@)[i as int].in_world());
            return false;
        }
        i += 1;
    }
    true
}

/// Runs one frame of `delta_micros` microseconds: input, gravity, contact,
/// motion, and then the fall out of the world. Without a dot nothing
/// happens.
pub fn tick(world: &mut World, keyboard_input: &Intents, delta_micros: u32)
    requires
        old(world)@.valid(),
        old(world)@.dot_in_world(),
    ensures
        final(world)@ == frame(old(world)@, *keyboard_input, delta_micros as int),
        final(world)@.valid(),
{
    match world.dot {
        Some(mut dot) => {
            apply_intents(keyboard_input, &mut dot);
            apply_gravity(&mut dot, delta_micros);
            apply_collision(&mut dot, &world.platforms);
            move_dot(&mut dot, delta_micros);
            world.dot = Some(dot);
            death_dot(world);
        },
        None => {},
    }
}

} // verus!
