//! The stages of a frame, each on the entities that it concerns.
use crate::components::{Direction, DirectionX, JumpState, Position, YDotState};
use crate::input::{intents_of, Intents};
use crate::laws::lemma_first_contact_is_the_only_one;
use crate::model::{
    can_follow, collision_step, death_step, ease, follow, gravity_step, is_first_contact,
    keyboard_step, move_step, near, platforms_in_world, touches,
};
use crate::units::{
    CAMERA_SLACK, DEATH_LINE, GRAVITY, JUMP_SPEED, MICROS_PER_SECOND, REACH, RISE, RUN,
    RUN_SPEED, TERMINAL_SPEED,
};
use crate::world::{points, DotEntity, World};
use bevy::input::keyboard::KeyCode;
use bevy::input::Input;
use vstd::prelude::*;

verus! {

/// Reads the player's intent off the keyboard and applies it to the dot.
pub fn handle_keyboard(keyboard_input: &Input<KeyCode>, dot: &mut DotEntity)
    ensures
        final(dot)@ == keyboard_step(old(dot)@, intents_of(*keyboard_input)),
{
    let intents = Intents::read(keyboard_input);
    apply_intents(&intents, dot);
}

/// Applies the player's intent to the dot.
pub fn apply_intents(keyboard_input: &Intents, dot: &mut DotEntity)
    ensures
        final(dot)@ == keyboard_step(old(dot)@, *keyboard_input),
{
    if keyboard_input.left_held {
        dot.dot.direction_x = DirectionX::Left;
        dot.speed.x = RUN_SPEED;
    }
    if keyboard_input.right_held {
        dot.dot.direction_x = DirectionX::Right;
        dot.speed.x = RUN_SPEED;
    }
    if keyboard_input.jump_pressed && (dot.movement_state.0 == YDotState::Standing
        || dot.jumping_state.0 != JumpState::DoubleJump) {
        dot.dot.direction = Direction::Up;
        dot.speed.y = JUMP_SPEED;

        // After a fall from a platform one jump is all there is.
        if dot.movement_state.0 == YDotState::Falling && dot.jumping_state.0 == JumpState::NoJump {
            dot.jumping_state.0 = JumpState::DoubleJump;
            return ;
        }
        dot.movement_state.0 = YDotState::Jumping;

        if dot.jumping_state.0 == JumpState::NoJump {
            dot.jumping_state.0 = JumpState::SingleJump;
        } else if dot.jumping_state.0 == JumpState::SingleJump {
            dot.jumping_state.0 = JumpState::DoubleJump;
        }
    }
    if keyboard_input.left_released || keyboard_input.right_released {
        dot.speed.x = 0;
    }
}

/// Lets gravity act on the dot for `delta_micros` microseconds.
pub fn apply_gravity(dot: &mut DotEntity, delta_micros: u32)
    ensures
        final(dot)@ == gravity_step(old(dot)@, delta_micros as int),
{
    if !dot.collided_with_platform.0 {
        let lost: i64 = GRAVITY * (delta_micros as i64);
        let speed: i64 = if dot.speed.y <= -TERMINAL_SPEED {
            -TERMINAL_SPEED
        } else if dot.speed.y - lost < -TERMINAL_SPEED {
            -TERMINAL_SPEED
        } else if dot.speed.y - lost > TERMINAL_SPEED {
            TERMINAL_SPEED
        } else {
            dot.speed.y - lost
        };
        dot.speed.y = speed;
        if speed < 0 {
            dot.movement_state.0 = YDotState::Falling;
        } else {
            dot.movement_state.0 = YDotState::Jumping;
        }
    }
}

/// Whether two coordinates are within reach of each other.
fn within_reach(a: i64, b: i64) -> (r: bool)
    ensures
        r == near(a as int, b as int),
{
    let apart: i128 = a as i128 - b as i128;
    -(REACH as i128) <= apart && apart <= REACH as i128
}

/// Whether the dot descends within reach of the platform.
fn touching(dot: &DotEntity, platform: &Position) -> (r: bool)
    ensures
        r == touches(dot@, platform@),
{
    dot.speed.y < 0 && within_reach(dot.position.x, platform.x) && within_reach(
        dot.position.y,
        platform.y,
    ) && within_reach(dot.position.z, platform.z)
}

/// Resolves the contact of the dot with the platforms.
pub fn apply_collision(dot: &mut DotEntity, platforms: &Vec<Position>)
    requires
        platforms_in_world(points(platforms@)),
    ensures
        final(dot)@ == collision_step(old(dot)@, points(platforms@)),
{
    let prev = dot.collided_with_platform.0;
    let mut hit: Option<usize> = None;
    let mut i: usize = 0;
    while hit.is_none() && i < platforms.len()
        invariant
            i <= platforms.len(),
            *dot == *old(dot),
            hit is None ==> forall|j: int|
                0 <= j < i ==> !#[trigger] touches(dot@, points(platforms@)[j]),
            hit matches Some(k) ==> is_first_contact(dot@, points(platforms@), k as int),
        decreases platforms.len() - i + (if hit is None { 1int } else { 0int }),
    {
        if touching(dot, &platforms[i]) {
            hit = Some(i);
        } else {
            i += 1;
        }
    }
    match hit {
        Some(k) => {
            proof {
                lemma_first_contact_is_the_only_one(dot@, points(platforms@), k as int);
            }
            dot.collided_with_platform.0 = true;
            if !prev {
                assert(points(platforms@)[k as int].in_world());
                dot.position.y = platforms[k].y + REACH;
                dot.speed.y = 0;
                dot.movement_state.0 = YDotState::Standing;
                dot.jumping_state.0 = JumpState::NoJump;
            }
        },
        None => {
            dot.collided_with_platform.0 = false;
        },
    }
}

/// Moves the dot for `delta_micros` microseconds.
pub fn move_dot(dot: &mut DotEntity, delta_micros: u32)
    requires
        old(dot)@.movable(),
    ensures
        final(dot)@ == move_step(old(dot)@, delta_micros as int),
{
    let time_delta: i64 = delta_micros as i64;
    if !dot.collided_with_platform.0 {
        assert(-TERMINAL_SPEED * 0x1_0000_0000 <= dot.speed.y * time_delta <= TERMINAL_SPEED
            * 0x1_0000_0000) by (nonlinear_arith)
            requires
                -TERMINAL_SPEED <= dot.speed.y <= TERMINAL_SPEED,
                0 <= time_delta < 0x1_0000_0000,
        ;
        assert(RISE * dot.speed.y * time_delta == RISE * (dot.speed.y * time_delta))
            by (nonlinear_arith);
        dot.position.y = dot.position.y + RISE * (dot.speed.y * time_delta);
    }
    assert(0 <= dot.speed.x * time_delta <= RUN_SPEED * 0x1_0000_0000) by (nonlinear_arith)
        requires
            0 <= dot.speed.x <= RUN_SPEED,
            0 <= time_delta < 0x1_0000_0000,
    ;
    assert(RUN * dot.speed.x * time_delta == RUN * (dot.speed.x * time_delta))
        by (nonlinear_arith);
    match dot.dot.direction_x {
        DirectionX::Right => {
            dot.position.x = dot.position.x + RUN * (dot.speed.x * time_delta);
        },
        DirectionX::Left => {
            dot.position.x = dot.position.x - RUN * (dot.speed.x * time_delta);
        },
    }
}

/// Removes a dot that fell out of the world, and every platform with it.
pub fn death_dot(world: &mut World)
    ensures
        final(world)@ == death_step(old(world)@),
{
    let fell = match &world.dot {
        Some(dot) => dot.position.y < DEATH_LINE,
        None => false,
    };
    if fell {
        world.dot = None;
        world.platforms = Vec::new();
        assert(points(world.platforms@) =~= Seq::empty());
    }
}

/// One coordinate of the camera after it followed the target, if it is in
/// the range of the machine.
fn try_follow_axis(camera: i64, target: i64, delta_micros: u32) -> (moved: Option<i64>)
    ensures
        moved == (if i64::MIN <= camera + ease(target - camera, delta_micros as int)
            <= i64::MAX {
            Some((camera + ease(target - camera, delta_micros as int)) as i64)
        } else {
            None
        }),
{
    let apart: i128 = target as i128 - camera as i128;
    let far: u128 = if apart >= 0 {
        apart as u128
    } else {
        (-apart) as u128
    };
    if far <= CAMERA_SLACK as u128 {
        return Some(camera);
    }
    assert(far * (delta_micros as u128) <= 0x1_0000_0000_0000_0000 * 0x1_0000_0000)
        by (nonlinear_arith)
        requires
            far <= 0x1_0000_0000_0000_0000,
            delta_micros <= 0x1_0000_0000,
    ;
    let step: u128 = far * (delta_micros as u128) / (MICROS_PER_SECOND as u128);
    let to: i128 = if apart >= 0 {
        camera as i128 + step as i128
    } else {
        camera as i128 - step as i128
    };
    if i64::MIN as i128 <= to && to <= i64::MAX as i128 {
        Some(to as i64)
    } else {
        None
    }
}

/// Whether the camera can follow the dot for `delta_micros` microseconds:
/// [`camera_follow_dot`] takes what passes here.
pub fn camera_can_follow(world: &World, camera: &Position, delta_micros: u32) -> (ok: bool)
    ensures
        ok == (world@.dot matches Some(b) ==> can_follow(
            camera@,
            b.position,
            delta_micros as int,
        )),
{
    match &world.dot {
        Some(dot) => {
            try_follow_axis(camera.x, dot.position.x, delta_micros).is_some() && try_follow_axis(
                camera.y,
                dot.position.y,
                delta_micros,
            ).is_some()
        },
        None => true,
    }
}

/// Lets the camera follow the dot for `delta_micros` microseconds. Without a
/// dot the camera stays.
pub fn camera_follow_dot(world: &World, camera: &mut Position, delta_micros: u32)
    requires
        world@.dot matches Some(b) ==> can_follow(old(camera)@, b.position, delta_micros as int),
    ensures
        final(camera)@ == match world@.dot {
            Some(b) => follow(old(camera)@, b.position, delta_micros as int),
            None => old(camera)@,
        },
{
    match &world.dot {
        Some(dot) => {
            let y = try_follow_axis(camera.y, dot.position.y, delta_micros).unwrap();
            let x = try_follow_axis(camera.x, dot.position.x, delta_micros).unwrap();
            camera.y = y;
            camera.x = x;
        },
        None => {},
    }
}

} // verus!
