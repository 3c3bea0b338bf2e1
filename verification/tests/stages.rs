use dot_platformer::components::{
    CollidedWithPlatform, Direction, DirectionX, Dot, JumpState, JumpingState, Position, Speed,
    YDotState, YMovementState,
};
use dot_platformer::input::Intents;
use dot_platformer::systems::{
    apply_collision, apply_gravity, apply_intents, camera_can_follow, camera_follow_dot,
    death_dot, move_dot,
};
use dot_platformer::units::{
    CAMERA_SLACK, DEATH_LINE, GRAVITY, JUMP_SPEED, POSITION_SCALE, REACH, RUN_SPEED, SPEED_SCALE,
    TERMINAL_SPEED,
};
use dot_platformer::world::{DotEntity, World};

const UNIT: i64 = 50_000_000_000;

fn dot_at(x: i64, y: i64) -> DotEntity {
    DotEntity {
        position: Position { x, y, z: 0 },
        speed: Speed { x: 0, y: 0 },
        collided_with_platform: CollidedWithPlatform(false),
        movement_state: YMovementState(YDotState::Falling),
        jumping_state: JumpingState(JumpState::NoJump),
        dot: Dot { direction: Direction::Down, direction_x: DirectionX::Right },
    }
}

fn platform_at(x: i64, y: i64) -> Position {
    Position { x, y, z: -UNIT }
}

fn keys() -> Intents {
    Intents {
        left_held: false,
        right_held: false,
        jump_pressed: false,
        left_released: false,
        right_released: false,
    }
}

#[test]
fn the_scales_give_the_constants_their_values() {
    assert_eq!(POSITION_SCALE, UNIT);
    assert_eq!(SPEED_SCALE, 5_000_000);
    assert_eq!(TERMINAL_SPEED, 3 * SPEED_SCALE);
    assert_eq!(JUMP_SPEED, 3 * SPEED_SCALE);
    assert_eq!(RUN_SPEED, 2 * SPEED_SCALE);
    assert_eq!(REACH, 10 * POSITION_SCALE);
    assert_eq!(CAMERA_SLACK, 10 * POSITION_SCALE);
    assert_eq!(DEATH_LINE, -1000 * POSITION_SCALE);
    // 9.8 a second squared, in speed ticks a microsecond
    assert_eq!(GRAVITY * 1_000_000, 98 * SPEED_SCALE / 10);
}

// --- gravity ---------------------------------------------------------------

#[test]
fn gravity_takes_its_share_of_the_elapsed_time() {
    let mut dot = dot_at(0, 0);
    apply_gravity(&mut dot, 16_667);
    assert_eq!(dot.speed.y, -816_683);
    assert_eq!(dot.movement_state.0, YDotState::Falling);
    assert_eq!(dot.speed.x, 0);
    assert_eq!(dot.position, Position { x: 0, y: 0, z: 0 });
    assert_eq!(dot.jumping_state.0, JumpState::NoJump);
}

#[test]
fn gravity_leaves_a_rising_dot_jumping() {
    let mut dot = dot_at(0, 0);
    dot.speed.y = 15_000_000;
    dot.jumping_state.0 = JumpState::SingleJump;
    apply_gravity(&mut dot, 100_000);
    assert_eq!(dot.speed.y, 10_100_000);
    assert_eq!(dot.movement_state.0, YDotState::Jumping);
    assert_eq!(dot.jumping_state.0, JumpState::SingleJump);
}

#[test]
fn gravity_stops_at_the_terminal_speed() {
    let mut dot = dot_at(0, 0);
    dot.speed.y = -14_999_000;
    apply_gravity(&mut dot, 1_000_000);
    assert_eq!(dot.speed.y, -15_000_000);
    apply_gravity(&mut dot, 1_000_000);
    assert_eq!(dot.speed.y, -15_000_000);
    assert_eq!(dot.movement_state.0, YDotState::Falling);
}

#[test]
fn gravity_holds_a_speed_from_above_too() {
    let mut dot = dot_at(0, 0);
    dot.speed.y = 20_000_000;
    apply_gravity(&mut dot, 0);
    assert_eq!(dot.speed.y, 15_000_000);
    assert_eq!(dot.movement_state.0, YDotState::Jumping);
}

#[test]
fn gravity_bears_the_widest_values() {
    let mut dot = dot_at(0, 0);
    dot.speed.y = i64::MIN;
    apply_gravity(&mut dot, u32::MAX);
    assert_eq!(dot.speed.y, -15_000_000);
    dot.speed.y = i64::MAX;
    apply_gravity(&mut dot, u32::MAX);
    assert_eq!(dot.speed.y, 15_000_000);
}

#[test]
fn gravity_with_no_time_keeps_the_speed() {
    let mut dot = dot_at(0, 0);
    dot.speed.y = 0;
    apply_gravity(&mut dot, 0);
    assert_eq!(dot.speed.y, 0);
    // not negative, so the dot counts as rising
    assert_eq!(dot.movement_state.0, YDotState::Jumping);
}

#[test]
fn gravity_passes_over_a_resting_dot() {
    let mut dot = dot_at(0, 10 * UNIT);
    dot.collided_with_platform.0 = true;
    dot.movement_state.0 = YDotState::Standing;
    let before = dot;
    apply_gravity(&mut dot, 16_667);
    assert_eq!(dot, before);
}

// --- contact ---------------------------------------------------------------

#[test]
fn landing_sets_the_dot_on_the_platform() {
    let mut dot = dot_at(3 * UNIT, 7 * UNIT);
    dot.speed = Speed { x: 10_000_000, y: -1 };
    dot.movement_state.0 = YDotState::Falling;
    dot.jumping_state.0 = JumpState::DoubleJump;
    dot.dot.direction = Direction::Up;
    apply_collision(&mut dot, &vec![platform_at(0, 0)]);
    assert!(dot.collided_with_platform.0);
    assert_eq!(dot.position, Position { x: 3 * UNIT, y: 10 * UNIT, z: 0 });
    assert_eq!(dot.speed, Speed { x: 10_000_000, y: 0 });
    assert_eq!(dot.movement_state.0, YDotState::Standing);
    assert_eq!(dot.jumping_state.0, JumpState::NoJump);
    assert_eq!(dot.dot.direction, Direction::Up);
}

#[test]
fn contact_reaches_ten_units_and_no_further() {
    let platforms = vec![platform_at(0, 0)];
    for (x, y) in [(10 * UNIT, 10 * UNIT), (-10 * UNIT, -10 * UNIT), (10 * UNIT, -10 * UNIT)] {
        let mut dot = dot_at(x, y);
        dot.speed.y = -5;
        apply_collision(&mut dot, &platforms);
        assert!(dot.collided_with_platform.0);
        assert_eq!(dot.position.y, 10 * UNIT);
    }
    for (x, y) in [
        (10 * UNIT + 1, 0),
        (-10 * UNIT - 1, 0),
        (0, 10 * UNIT + 1),
        (0, -10 * UNIT - 1),
    ] {
        let mut dot = dot_at(x, y);
        dot.speed.y = -5;
        let before = dot;
        apply_collision(&mut dot, &platforms);
        assert_eq!(dot, before);
    }
}

#[test]
fn contact_counts_the_depth_too() {
    let mut dot = dot_at(0, 0);
    dot.speed.y = -5;
    let before = dot;
    apply_collision(&mut dot, &vec![Position { x: 0, y: 0, z: -10 * UNIT - 1 }]);
    assert_eq!(dot, before);
    apply_collision(&mut dot, &vec![Position { x: 0, y: 0, z: -10 * UNIT }]);
    assert!(dot.collided_with_platform.0);
}

#[test]
fn a_dot_that_does_not_descend_touches_nothing() {
    let platforms = vec![platform_at(0, 0)];
    for vy in [0, 1, 15_000_000] {
        let mut dot = dot_at(0, 5 * UNIT);
        dot.speed.y = vy;
        let before = dot;
        apply_collision(&mut dot, &platforms);
        assert_eq!(dot, before);
    }
}

#[test]
fn contact_from_below_lifts_the_dot_onto_the_platform() {
    // the test on nearness has no direction: a dot under the platform lands
    let mut dot = dot_at(-8 * UNIT, -9 * UNIT);
    dot.speed.y = -100;
    apply_collision(&mut dot, &vec![platform_at(0, 0)]);
    assert!(dot.collided_with_platform.0);
    assert_eq!(dot.position, Position { x: -8 * UNIT, y: 10 * UNIT, z: 0 });
    assert_eq!(dot.movement_state.0, YDotState::Standing);
}

#[test]
fn the_first_platform_in_order_gives_the_height() {
    let mut dot = dot_at(0, 0);
    dot.speed.y = -1;
    let platforms = vec![
        platform_at(50 * UNIT, 0),
        platform_at(0, 4 * UNIT),
        platform_at(0, -4 * UNIT),
        platform_at(0, 0),
    ];
    apply_collision(&mut dot, &platforms);
    assert_eq!(dot.position.y, 14 * UNIT);
    let mut dot = dot_at(0, 0);
    dot.speed.y = -1;
    let platforms = vec![platform_at(0, -4 * UNIT), platform_at(0, 4 * UNIT)];
    apply_collision(&mut dot, &platforms);
    assert_eq!(dot.position.y, 6 * UNIT);
}

#[test]
fn a_resting_dot_is_not_set_down_again() {
    let mut dot = dot_at(0, 3 * UNIT);
    dot.speed.y = -7;
    dot.collided_with_platform.0 = true;
    dot.jumping_state.0 = JumpState::SingleJump;
    dot.movement_state.0 = YDotState::Falling;
    let before = dot;
    apply_collision(&mut dot, &vec![platform_at(0, 0)]);
    assert_eq!(dot, before);
}

#[test]
fn a_dot_out_of_reach_rests_no_more() {
    let mut dot = dot_at(0, 30 * UNIT);
    dot.speed.y = -7;
    dot.collided_with_platform.0 = true;
    apply_collision(&mut dot, &vec![platform_at(0, 0)]);
    assert!(!dot.collided_with_platform.0);
    assert_eq!(dot.position.y, 30 * UNIT);
    assert_eq!(dot.speed.y, -7);
    let mut dot = dot_at(0, 0);
    dot.speed.y = -7;
    dot.collided_with_platform.0 = true;
    apply_collision(&mut dot, &Vec::new());
    assert!(!dot.collided_with_platform.0);
}

#[test]
fn contact_bears_the_widest_values() {
    let mut dot = dot_at(i64::MIN, i64::MAX);
    dot.position.z = i64::MIN;
    dot.speed.y = -1;
    let before = dot;
    apply_collision(&mut dot, &vec![Position { x: 4_000_000_000_000_000_000, y: -4_000_000_000_000_000_000, z: 0 }]);
    assert_eq!(dot, before);
}

// --- motion ----------------------------------------------------------------

#[test]
fn motion_follows_both_speeds() {
    let mut dot = dot_at(UNIT, 2 * UNIT);
    dot.speed = Speed { x: 10_000_000, y: -15_000_000 };
    move_dot(&mut dot, 16_667);
    // 2 * 10_000_000 * 16_667 and 3 * 15_000_000 * 16_667
    assert_eq!(dot.position.x, UNIT + 333_340_000_000);
    assert_eq!(dot.position.y, 2 * UNIT - 750_015_000_000);
    assert_eq!(dot.position.z, 0);
    assert_eq!(dot.speed, Speed { x: 10_000_000, y: -15_000_000 });
}

#[test]
fn a_second_at_full_speed_is_nine_hundred_units_up_and_four_hundred_across() {
    let mut dot = dot_at(0, 0);
    dot.speed = Speed { x: 10_000_000, y: 15_000_000 };
    dot.dot.direction_x = DirectionX::Left;
    move_dot(&mut dot, 1_000_000);
    assert_eq!(dot.position.x, -400 * UNIT);
    assert_eq!(dot.position.y, 900 * UNIT);
}

#[test]
fn a_resting_dot_moves_sideways_only() {
    let mut dot = dot_at(0, 10 * UNIT);
    dot.collided_with_platform.0 = true;
    dot.speed = Speed { x: 10_000_000, y: -15_000_000 };
    move_dot(&mut dot, 1_000);
    assert_eq!(dot.position, Position { x: 20_000_000_000, y: 10 * UNIT, z: 0 });
}

#[test]
fn motion_bears_the_longest_step_at_the_edge_of_the_world() {
    let edge = 4_000_000_000_000_000_000;
    let mut dot = dot_at(edge, edge);
    dot.speed = Speed { x: 10_000_000, y: 15_000_000 };
    move_dot(&mut dot, u32::MAX);
    assert_eq!(dot.position.x, edge + 20_000_000 * (u32::MAX as i64));
    assert_eq!(dot.position.y, edge + 45_000_000 * (u32::MAX as i64));
    let mut dot = dot_at(-edge, -edge);
    dot.speed = Speed { x: 10_000_000, y: -15_000_000 };
    dot.dot.direction_x = DirectionX::Left;
    move_dot(&mut dot, u32::MAX);
    assert_eq!(dot.position.x, -edge - 20_000_000 * (u32::MAX as i64));
    assert_eq!(dot.position.y, -edge - 45_000_000 * (u32::MAX as i64));
}

// --- input -----------------------------------------------------------------

#[test]
fn a_held_direction_sets_facing_and_speed() {
    let mut dot = dot_at(0, 0);
    apply_intents(&Intents { left_held: true, ..keys() }, &mut dot);
    assert_eq!(dot.dot.direction_x, DirectionX::Left);
    assert_eq!(dot.speed, Speed { x: 10_000_000, y: 0 });
    apply_intents(&Intents { right_held: true, ..keys() }, &mut dot);
    assert_eq!(dot.dot.direction_x, DirectionX::Right);
    assert_eq!(dot.speed.x, 10_000_000);
    // with no key the dot keeps running
    apply_intents(&keys(), &mut dot);
    assert_eq!(dot.speed.x, 10_000_000);
    assert_eq!(dot.dot.direction_x, DirectionX::Right);
}

#[test]
fn with_both_directions_held_right_wins() {
    let mut dot = dot_at(0, 0);
    dot.dot.direction_x = DirectionX::Left;
    apply_intents(&Intents { left_held: true, right_held: true, ..keys() }, &mut dot);
    assert_eq!(dot.dot.direction_x, DirectionX::Right);
    assert_eq!(dot.speed.x, 10_000_000);
}

#[test]
fn a_released_direction_stops_the_dot() {
    for (left, right) in [(true, false), (false, true), (true, true)] {
        let mut dot = dot_at(0, 0);
        dot.speed.x = 10_000_000;
        dot.dot.direction_x = DirectionX::Left;
        apply_intents(
            &Intents { left_released: left, right_released: right, ..keys() },
            &mut dot,
        );
        assert_eq!(dot.speed.x, 0);
        assert_eq!(dot.dot.direction_x, DirectionX::Left);
    }
    // a release wins over a direction that is still held
    let mut dot = dot_at(0, 0);
    apply_intents(&Intents { right_held: true, left_released: true, ..keys() }, &mut dot);
    assert_eq!(dot.speed.x, 0);
    assert_eq!(dot.dot.direction_x, DirectionX::Right);
}

#[test]
fn a_jump_from_standing_always_starts() {
    for jumps in [JumpState::NoJump, JumpState::SingleJump, JumpState::DoubleJump] {
        let mut dot = dot_at(0, 10 * UNIT);
        dot.movement_state.0 = YDotState::Standing;
        dot.jumping_state.0 = jumps;
        apply_intents(&Intents { jump_pressed: true, ..keys() }, &mut dot);
        assert_eq!(dot.speed.y, 15_000_000);
        assert_eq!(dot.movement_state.0, YDotState::Jumping);
        assert_eq!(dot.dot.direction, Direction::Up);
        let expected = match jumps {
            JumpState::NoJump => JumpState::SingleJump,
            _ => JumpState::DoubleJump,
        };
        assert_eq!(dot.jumping_state.0, expected);
    }
}

#[test]
fn three_jumps_in_a_row() {
    let jump = Intents { jump_pressed: true, ..keys() };
    let mut dot = dot_at(0, 10 * UNIT);
    dot.movement_state.0 = YDotState::Standing;
    apply_intents(&jump, &mut dot);
    assert_eq!(dot.movement_state.0, YDotState::Jumping);
    assert_eq!(dot.jumping_state.0, JumpState::SingleJump);
    assert_eq!(dot.speed.y, 15_000_000);
    dot.speed.y = -4_000_000;
    dot.movement_state.0 = YDotState::Falling;
    apply_intents(&jump, &mut dot);
    assert_eq!(dot.movement_state.0, YDotState::Jumping);
    assert_eq!(dot.jumping_state.0, JumpState::DoubleJump);
    assert_eq!(dot.speed.y, 15_000_000);
    dot.speed.y = -4_000_000;
    dot.movement_state.0 = YDotState::Falling;
    dot.dot.direction = Direction::Down;
    let before = dot;
    apply_intents(&jump, &mut dot);
    assert_eq!(dot, before);
    dot.movement_state.0 = YDotState::Jumping;
    let before = dot;
    apply_intents(&jump, &mut dot);
    assert_eq!(dot, before);
}

#[test]
fn a_held_jump_key_does_not_jump() {
    let mut dot = dot_at(0, 10 * UNIT);
    dot.movement_state.0 = YDotState::Standing;
    let before = dot;
    apply_intents(&keys(), &mut dot);
    assert_eq!(dot, before);
}

#[test]
fn after_a_fall_one_jump_is_all_there_is() {
    let jump = Intents { jump_pressed: true, ..keys() };
    let mut dot = dot_at(0, 0);
    dot.speed.y = -2_000_000;
    apply_intents(&jump, &mut dot);
    assert_eq!(dot.speed.y, 15_000_000);
    assert_eq!(dot.jumping_state.0, JumpState::DoubleJump);
    assert_eq!(dot.movement_state.0, YDotState::Falling);
    assert_eq!(dot.dot.direction, Direction::Up);
    dot.speed.y = 9_000_000;
    let before = dot;
    apply_intents(&jump, &mut dot);
    assert_eq!(dot, before);
    apply_gravity(&mut dot, 16_667);
    assert_eq!(dot.movement_state.0, YDotState::Jumping);
    let before = dot;
    apply_intents(&jump, &mut dot);
    assert_eq!(dot, before);
}

#[test]
fn the_jump_after_a_fall_passes_over_a_release() {
    let mut dot = dot_at(0, 0);
    dot.speed.x = 10_000_000;
    apply_intents(
        &Intents { jump_pressed: true, right_released: true, ..keys() },
        &mut dot,
    );
    assert_eq!(dot.speed, Speed { x: 10_000_000, y: 15_000_000 });
    assert_eq!(dot.jumping_state.0, JumpState::DoubleJump);
    // an ordinary jump does not
    let mut dot = dot_at(0, 0);
    dot.speed.x = 10_000_000;
    dot.movement_state.0 = YDotState::Standing;
    apply_intents(
        &Intents { jump_pressed: true, right_released: true, ..keys() },
        &mut dot,
    );
    assert_eq!(dot.speed, Speed { x: 0, y: 15_000_000 });
}

// --- death -----------------------------------------------------------------

#[test]
fn the_fall_out_of_the_world_clears_the_level() {
    let mut dot = dot_at(0, -1000 * UNIT - 1);
    dot.speed.y = -15_000_000;
    let mut world = World { dot: Some(dot), platforms: vec![platform_at(0, 0), platform_at(UNIT, 0)] };
    death_dot(&mut world);
    assert_eq!(world, World { dot: None, platforms: vec![] });
    death_dot(&mut world);
    assert_eq!(world, World { dot: None, platforms: vec![] });
}

#[test]
fn a_dot_on_the_death_line_lives() {
    let world = World {
        dot: Some(dot_at(0, -1000 * UNIT)),
        platforms: vec![platform_at(0, 0)],
    };
    let mut after = world.clone();
    death_dot(&mut after);
    assert_eq!(after, world);
}

#[test]
fn without_a_dot_the_platforms_stay() {
    let world = World { dot: None, platforms: vec![platform_at(0, 0)] };
    let mut after = world.clone();
    death_dot(&mut after);
    assert_eq!(after, world);
}

// --- camera ----------------------------------------------------------------

fn world_with_dot_at(x: i64, y: i64) -> World {
    World { dot: Some(dot_at(x, y)), platforms: vec![] }
}

#[test]
fn the_camera_closes_in_by_the_share_of_a_second() {
    let mut camera = Position { x: 0, y: 0, z: 999 };
    camera_follow_dot(&world_with_dot_at(20 * UNIT, -30 * UNIT), &mut camera, 500_000);
    assert_eq!(camera, Position { x: 10 * UNIT, y: -15 * UNIT, z: 999 });
    camera_follow_dot(&world_with_dot_at(20 * UNIT, -30 * UNIT), &mut camera, 1_000_000);
    // x is within the slack now
    assert_eq!(camera, Position { x: 10 * UNIT, y: -30 * UNIT, z: 999 });
}

#[test]
fn the_camera_waits_within_its_slack() {
    for (x, y) in [(10 * UNIT, -10 * UNIT), (0, 0), (-10 * UNIT, 10 * UNIT)] {
        let mut camera = Position { x: 0, y: 0, z: 0 };
        camera_follow_dot(&world_with_dot_at(x, y), &mut camera, 1_000_000);
        assert_eq!(camera, Position { x: 0, y: 0, z: 0 });
    }
}

#[test]
fn the_camera_drops_the_fraction_of_a_tick() {
    let mut camera = Position { x: 0, y: 0, z: 0 };
    camera_follow_dot(&world_with_dot_at(10 * UNIT + 1, -10 * UNIT - 1), &mut camera, 1);
    assert_eq!(camera, Position { x: 500_000, y: -500_000, z: 0 });
    let mut camera = Position { x: 7, y: -7, z: 0 };
    camera_follow_dot(&world_with_dot_at(10 * UNIT + 8, -10 * UNIT - 8), &mut camera, 999_999);
    // 500_000_000_001 * 999_999 / 1_000_000 = 499_999_500_000 and a fraction
    assert_eq!(camera, Position { x: 499_999_500_007, y: -499_999_500_007, z: 0 });
}

#[test]
fn the_camera_passes_the_dot_in_a_frame_of_more_than_a_second() {
    let mut camera = Position { x: 0, y: 0, z: 0 };
    camera_follow_dot(&world_with_dot_at(20 * UNIT, 0), &mut camera, 3_000_000);
    assert_eq!(camera, Position { x: 60 * UNIT, y: 0, z: 0 });
}

#[test]
fn the_camera_stays_without_a_dot() {
    let mut camera = Position { x: 5, y: 6, z: 7 };
    camera_follow_dot(&World { dot: None, platforms: vec![platform_at(0, 0)] }, &mut camera, 500_000);
    assert_eq!(camera, Position { x: 5, y: 6, z: 7 });
}

#[test]
fn the_camera_can_follow_while_its_place_can_be_written() {
    let origin = Position { x: 0, y: 0, z: 0 };
    assert!(camera_can_follow(&world_with_dot_at(20 * UNIT, -30 * UNIT), &origin, 500_000));
    assert!(camera_can_follow(&world_with_dot_at(i64::MAX, i64::MIN), &origin, 1_000_000));
    assert!(camera_can_follow(&World { dot: None, platforms: vec![] }, &origin, u32::MAX));
    // one tick more than a second passes the dot, and the dot lies at the end
    assert!(!camera_can_follow(&world_with_dot_at(i64::MAX, 0), &origin, 1_000_001));
    assert!(!camera_can_follow(&world_with_dot_at(0, i64::MIN), &origin, 1_000_001));
    let far = Position { x: i64::MIN, y: i64::MAX, z: 0 };
    assert!(camera_can_follow(&world_with_dot_at(i64::MAX, i64::MIN), &far, 1_000_000));
    assert!(!camera_can_follow(&world_with_dot_at(i64::MAX, i64::MIN), &far, 1_000_001));
    // within the slack the camera stays, however long the frame
    assert!(camera_can_follow(&world_with_dot_at(i64::MAX, i64::MAX), &Position { x: i64::MAX - 10 * UNIT, y: i64::MAX, z: 0 }, u32::MAX));
}

#[test]
fn the_camera_reaches_a_dot_at_the_end_of_the_range() {
    let mut camera = Position { x: i64::MIN, y: i64::MAX, z: 3 };
    camera_follow_dot(&world_with_dot_at(i64::MAX, i64::MIN), &mut camera, 1_000_000);
    assert_eq!(camera, Position { x: i64::MAX, y: i64::MIN, z: 3 });
}
