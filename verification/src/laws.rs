//! What holds of every frame, proved from the definitions of the stages.
use crate::components::{Direction, DirectionX, JumpState, YDotState};
use crate::input::Intents;
use crate::model::{
    collision_step, death_step, dot_frame, ease, fallen, first_contact, frame, gravity_step,
    in_contact, is_first_contact, jump_is_late, jumps_now, keyboard_step, lands, move_step,
    next_jump, touches, Body, Point, Scene,
};
use crate::units::{
    clamp, GRAVITY, JUMP_SPEED, MICROS_PER_SECOND, REACH, RISE, RUN, RUN_SPEED, TERMINAL_SPEED,
};
use vstd::prelude::*;

verus! {

// ---------------------------------------------------------------------------
// Gravity
// ---------------------------------------------------------------------------

/// In the air the vertical speed drops by gravity times the elapsed time and
/// is then held within the terminal speed. It ends strictly lower than it
/// began, unless no time went by or it had reached the terminal speed of
/// the fall already.
pub proof fn lemma_gravity_lowers_the_speed(b: Body, dt: int)
    requires
        !b.resting,
        0 <= dt,
    ensures
        gravity_step(b, dt).vy == clamp(
            b.vy - GRAVITY * dt,
            -TERMINAL_SPEED as int,
            TERMINAL_SPEED as int,
        ),
        -TERMINAL_SPEED <= gravity_step(b, dt).vy <= TERMINAL_SPEED,
        -TERMINAL_SPEED <= b.vy - GRAVITY * dt <= TERMINAL_SPEED ==> gravity_step(b, dt).vy
            == b.vy - GRAVITY * dt,
        0 < dt && -TERMINAL_SPEED < b.vy ==> gravity_step(b, dt).vy < b.vy,
        b.vy <= -TERMINAL_SPEED ==> gravity_step(b, dt).vy == -TERMINAL_SPEED,
        gravity_step(b, dt).motion == (if gravity_step(b, dt).vy < 0 {
            YDotState::Falling
        } else {
            YDotState::Jumping
        }),
        gravity_step(b, dt).jumps == b.jumps,
{
}

/// Gravity passes over a dot that rests.
pub proof fn lemma_gravity_spares_the_resting(b: Body, dt: int)
    requires
        b.resting,
    ensures
        gravity_step(b, dt) == b,
{
}

// ---------------------------------------------------------------------------
// Contact
// ---------------------------------------------------------------------------

/// At most one platform is the first that the dot touches.
pub proof fn lemma_first_contact_is_the_only_one(b: Body, platforms: Seq<Point>, k: int)
    requires
        is_first_contact(b, platforms, k),
    ensures
        in_contact(b, platforms),
        first_contact(b, platforms) == k,
{
    let c = first_contact(b, platforms);
    assert(is_first_contact(b, platforms, c));
    if c < k {
        assert(!touches(b, platforms[c]));
    } else if k < c {
        assert(!touches(b, platforms[k]));
    }
}

/// Where the dot touches a platform, one platform is the first that it
/// touches.
pub proof fn lemma_some_contact_is_first(b: Body, platforms: Seq<Point>)
    requires
        in_contact(b, platforms),
    ensures
        is_first_contact(b, platforms, first_contact(b, platforms)),
{
    let k = choose|k: int| 0 <= k < platforms.len() && #[trigger] touches(b, platforms[k]);
    lemma_first_contact_before(b, platforms, k);
}

/// A platform that the dot touches is the first such, or one before it is.
proof fn lemma_first_contact_before(b: Body, platforms: Seq<Point>, k: int)
    requires
        0 <= k < platforms.len(),
        touches(b, platforms[k]),
    ensures
        exists|f: int| is_first_contact(b, platforms, f),
    decreases k,
{
    if forall|j: int| 0 <= j < k ==> !#[trigger] touches(b, platforms[j]) {
        assert(is_first_contact(b, platforms, k));
    } else {
        let j = choose|j: int| 0 <= j < k && #[trigger] touches(b, platforms[j]);
        lemma_first_contact_before(b, platforms, j);
    }
}

/// A landing happens in the frame in which the dot, not at rest before,
/// touches a platform. In that frame the dot comes to rest ten units above
/// the first platform that it touches, its vertical speed is nothing, it
/// stands, and no jump counts any more. Nothing else about it changes.
pub proof fn lemma_landing(b: Body, platforms: Seq<Point>)
    requires
        !b.resting,
        in_contact(b, platforms),
    ensures
        ({
            let a = collision_step(b, platforms);
            let k = first_contact(b, platforms);
            &&& is_first_contact(b, platforms, k)
            &&& a.resting
            &&& a.vy == 0
            &&& a.motion == YDotState::Standing
            &&& a.jumps == JumpState::NoJump
            &&& a.position.y == platforms[k].y + REACH
            &&& a.position.x == b.position.x
            &&& a.position.z == b.position.z
            &&& a.vx == b.vx
            &&& a.direction == b.direction
            &&& a.direction_x == b.direction_x
        }),
{
    lemma_some_contact_is_first(b, platforms);
}

/// Without a landing, contact decides whether the dot rests and changes
/// nothing else: a dot that rested already is not set down again.
pub proof fn lemma_contact_without_landing(b: Body, platforms: Seq<Point>)
    requires
        b.resting || !in_contact(b, platforms),
    ensures
        collision_step(b, platforms) == (Body { resting: in_contact(b, platforms), ..b }),
{
}

/// A dot that has just landed touches nothing until it falls again: the
/// next time that contact is resolved it does not rest.
pub proof fn lemma_landed_dot_lets_go(b: Body, platforms: Seq<Point>, again: Seq<Point>)
    requires
        lands(b, platforms),
    ensures
        !in_contact(collision_step(b, platforms), again),
        !collision_step(collision_step(b, platforms), again).resting,
{
}

// ---------------------------------------------------------------------------
// Jumps
// ---------------------------------------------------------------------------

/// From a platform a jump always starts: the dot rises at the speed of a
/// jump, and the jump counts. It is the first if none was counted.
pub proof fn lemma_jump_from_standing(b: Body, keys: Intents)
    requires
        b.motion == YDotState::Standing,
        keys.jump_pressed,
    ensures
        keyboard_step(b, keys).vy == JUMP_SPEED,
        keyboard_step(b, keys).motion == YDotState::Jumping,
        keyboard_step(b, keys).direction == Direction::Up,
        keyboard_step(b, keys).jumps == next_jump(b.jumps),
        b.jumps == JumpState::NoJump ==> keyboard_step(b, keys).jumps == JumpState::SingleJump,
{
}

/// After one jump a second starts, wherever the dot is.
pub proof fn lemma_second_jump(b: Body, keys: Intents)
    requires
        b.jumps == JumpState::SingleJump,
        keys.jump_pressed,
    ensures
        keyboard_step(b, keys).vy == JUMP_SPEED,
        keyboard_step(b, keys).motion == YDotState::Jumping,
        keyboard_step(b, keys).jumps == JumpState::DoubleJump,
{
}

/// After two jumps no third starts in the air: speed, motion, count and
/// vertical direction stay, and with no other key the whole dot stays.
pub proof fn lemma_third_jump_is_refused(b: Body, keys: Intents)
    requires
        b.jumps == JumpState::DoubleJump,
        b.motion != YDotState::Standing,
    ensures
        keyboard_step(b, keys).vy == b.vy,
        keyboard_step(b, keys).motion == b.motion,
        keyboard_step(b, keys).jumps == b.jumps,
        keyboard_step(b, keys).direction == b.direction,
        !keys.left_held && !keys.right_held && !keys.left_released && !keys.right_released
            ==> keyboard_step(b, keys) == b,
{
}

/// A dot that fell off a platform without a jump has one jump: it rises at
/// the speed of a jump, both jumps count as taken, and its motion is left
/// for gravity to set.
pub proof fn lemma_late_jump(b: Body, keys: Intents)
    requires
        b.motion == YDotState::Falling,
        b.jumps == JumpState::NoJump,
        keys.jump_pressed,
    ensures
        keyboard_step(b, keys).vy == JUMP_SPEED,
        keyboard_step(b, keys).jumps == JumpState::DoubleJump,
        keyboard_step(b, keys).motion == YDotState::Falling,
        keyboard_step(b, keys).direction == Direction::Up,
{
}

/// The jump after a late jump is refused, in the same frame's state and in
/// that of every later frame before the dot stands again.
pub proof fn lemma_late_jump_is_the_last(
    b: Body,
    platforms: Seq<Point>,
    keys: Intents,
    dt: int,
    next: Intents,
)
    requires
        jump_is_late(b.motion, b.jumps),
        keys.jump_pressed,
    ensures
        !jumps_now(keyboard_step(b, keys), next),
        keyboard_step(keyboard_step(b, keys), next).vy == JUMP_SPEED,
        keyboard_step(keyboard_step(b, keys), next).jumps == JumpState::DoubleJump,
        ({
            let a = dot_frame(b, platforms, keys, dt);
            a.motion != YDotState::Standing ==> {
                &&& a.jumps == JumpState::DoubleJump
                &&& !jumps_now(a, next)
                &&& keyboard_step(a, next).vy == a.vy
                &&& keyboard_step(a, next).jumps == JumpState::DoubleJump
            }
        }),
{
}

/// The rank of a jump count.
pub open spec fn jump_rank(jumps: JumpState) -> int {
    match jumps {
        JumpState::NoJump => 0,
        JumpState::SingleJump => 1,
        JumpState::DoubleJump => 2,
    }
}

/// The dot as contact finds it in a frame: after input and gravity.
pub open spec fn before_contact(b: Body, keys: Intents, dt: int) -> Body {
    gravity_step(keyboard_step(b, keys), dt)
}

/// Over a frame the jump count goes up by one step at most per jump, or all
/// the way for a late jump, and never down, but in a landing, which sets it
/// to nothing.
pub proof fn lemma_jump_count_falls_only_by_landing(
    b: Body,
    platforms: Seq<Point>,
    keys: Intents,
    dt: int,
)
    ensures
        ({
            let a = dot_frame(b, platforms, keys, dt);
            if lands(before_contact(b, keys, dt), platforms) {
                a.jumps == JumpState::NoJump
            } else {
                jump_rank(a.jumps) >= jump_rank(b.jumps)
            }
        }),
{
}

/// The dot stands after a frame only if it landed in it, or stood before and
/// neither jumped nor was in the air for gravity to act on.
pub proof fn lemma_standing_only_by_landing(
    b: Body,
    platforms: Seq<Point>,
    keys: Intents,
    dt: int,
)
    requires
        dot_frame(b, platforms, keys, dt).motion == YDotState::Standing,
    ensures
        lands(before_contact(b, keys, dt), platforms) || (b.motion == YDotState::Standing
            && b.resting && !keys.jump_pressed),
{
}

/// A frame leaves the speeds of a valid dot valid.
pub proof fn lemma_frame_keeps_the_dot_valid(
    b: Body,
    platforms: Seq<Point>,
    keys: Intents,
    dt: int,
)
    requires
        b.valid(),
    ensures
        dot_frame(b, platforms, keys, dt).valid(),
{
}

/// A frame leaves a valid scene valid.
pub proof fn lemma_frame_keeps_the_scene_valid(s: Scene, keys: Intents, dt: int)
    requires
        s.valid(),
    ensures
        frame(s, keys, dt).valid(),
{
}

// ---------------------------------------------------------------------------
// Running
// ---------------------------------------------------------------------------

/// A frame in which right is held and no direction is let go carries the dot
/// to the right by twice the running speed times the elapsed time, whatever
/// it touches.
pub proof fn lemma_run_right_in_a_frame(b: Body, platforms: Seq<Point>, keys: Intents, dt: int)
    requires
        keys.right_held,
        !keys.left_released,
        !keys.right_released,
    ensures
        dot_frame(b, platforms, keys, dt).position.x == b.position.x + RUN * RUN_SPEED * dt,
        dot_frame(b, platforms, keys, dt).vx == RUN_SPEED,
        dot_frame(b, platforms, keys, dt).direction_x == DirectionX::Right,
{
    let c = collision_step(before_contact(b, keys, dt), platforms);
    assert(c.vx == RUN_SPEED);
    assert(RUN * c.vx * dt == RUN * RUN_SPEED * dt);
}

/// A frame in which left is held alone, and no direction is let go, carries
/// the dot as far to the left.
pub proof fn lemma_run_left_in_a_frame(b: Body, platforms: Seq<Point>, keys: Intents, dt: int)
    requires
        keys.left_held,
        !keys.right_held,
        !keys.left_released,
        !keys.right_released,
    ensures
        dot_frame(b, platforms, keys, dt).position.x == b.position.x - RUN * RUN_SPEED * dt,
        dot_frame(b, platforms, keys, dt).vx == RUN_SPEED,
        dot_frame(b, platforms, keys, dt).direction_x == DirectionX::Left,
{
    let c = collision_step(before_contact(b, keys, dt), platforms);
    assert(c.vx == RUN_SPEED);
    assert(RUN * c.vx * dt == RUN * RUN_SPEED * dt);
}

/// Letting a direction go stops the dot in that very frame, so that it does
/// not move sideways in it. The one frame in which this is passed over is
/// that of a late jump.
pub proof fn lemma_release_stops_at_once(b: Body, platforms: Seq<Point>, keys: Intents, dt: int)
    requires
        keys.left_released || keys.right_released,
        !(jumps_now(b, keys) && jump_is_late(b.motion, b.jumps)),
    ensures
        dot_frame(b, platforms, keys, dt).vx == 0,
        dot_frame(b, platforms, keys, dt).position.x == b.position.x,
{
    let c = collision_step(before_contact(b, keys, dt), platforms);
    assert(c.vx == 0);
    assert(RUN * c.vx * dt == 0) by (nonlinear_arith)
        requires
            c.vx == 0,
    ;
}

/// A dot that stands still sideways stays where it is while no direction is
/// held: nothing is left over from an earlier run.
pub proof fn lemma_stopped_dot_does_not_drift(
    b: Body,
    platforms: Seq<Point>,
    keys: Intents,
    dt: int,
)
    requires
        b.vx == 0,
        !keys.left_held,
        !keys.right_held,
    ensures
        dot_frame(b, platforms, keys, dt).vx == 0,
        dot_frame(b, platforms, keys, dt).position.x == b.position.x,
{
    let c = collision_step(before_contact(b, keys, dt), platforms);
    assert(c.vx == 0);
    assert(RUN * c.vx * dt == 0) by (nonlinear_arith)
        requires
            c.vx == 0,
    ;
}

/// The input and the length of one frame.
pub struct Step {
    pub keys: Intents,
    pub dt: int,
}

/// The scene after the frames ran in order.
pub open spec fn play(s: Scene, steps: Seq<Step>) -> Scene
    decreases steps.len(),
{
    if steps.len() == 0 {
        s
    } else {
        frame(play(s, steps.drop_last()), steps.last().keys, steps.last().dt)
    }
}

/// The time that the frames take together.
pub open spec fn elapsed(steps: Seq<Step>) -> int
    decreases steps.len(),
{
    if steps.len() == 0 {
        0
    } else {
        elapsed(steps.drop_last()) + steps.last().dt
    }
}

/// In every frame right is held and no direction is let go.
pub open spec fn holds_right(steps: Seq<Step>) -> bool {
    forall|i: int|
        0 <= i < steps.len() ==> {
            &&& (#[trigger] steps[i]).keys.right_held
            &&& !steps[i].keys.left_released
            &&& !steps[i].keys.right_released
        }
}

/// Once the dot is gone no frame brings it back.
pub proof fn lemma_no_dot_returns(s: Scene, steps: Seq<Step>)
    requires
        s.dot is None,
    ensures
        play(s, steps) == s,
    decreases steps.len(),
{
    if steps.len() > 0 {
        lemma_no_dot_returns(s, steps.drop_last());
    }
}

/// A dot that lives after some frames lived after every one of them.
pub proof fn lemma_dot_lived_before(s: Scene, steps: Seq<Step>)
    requires
        play(s, steps).dot is Some,
    ensures
        s.dot is Some,
        steps.len() > 0 ==> play(s, steps.drop_last()).dot is Some,
    decreases steps.len(),
{
    if steps.len() > 0 {
        lemma_dot_lived_before(s, steps.drop_last());
    }
}

/// Holding right for any number of frames moves a dot that lives through
/// them to the right by twice the running speed times the time that went
/// by: four hundred units a second.
pub proof fn lemma_run_right(s: Scene, steps: Seq<Step>)
    requires
        holds_right(steps),
        play(s, steps).dot is Some,
    ensures
        s.dot is Some,
        play(s, steps).dot->0.position.x == s.dot->0.position.x + RUN * RUN_SPEED * elapsed(
            steps,
        ),
    decreases steps.len(),
{
    lemma_dot_lived_before(s, steps);
    if steps.len() > 0 {
        let before = play(s, steps.drop_last());
        assert(holds_right(steps.drop_last())) by {
            assert forall|i: int| 0 <= i < steps.drop_last().len() implies {
                &&& (#[trigger] steps.drop_last()[i]).keys.right_held
                &&& !steps.drop_last()[i].keys.left_released
                &&& !steps.drop_last()[i].keys.right_released
            } by {
                assert(steps.drop_last()[i] == steps[i]);
            }
        }
        lemma_run_right(s, steps.drop_last());
        let last = steps.last();
        assert(last == steps[steps.len() - 1]);
        lemma_run_right_in_a_frame(before.dot->0, before.platforms, last.keys, last.dt);
        let sooner = elapsed(steps.drop_last());
        assert(RUN * RUN_SPEED * (sooner + last.dt) == RUN * RUN_SPEED * sooner + RUN * RUN_SPEED
            * last.dt) by (nonlinear_arith);
    }
}

// ---------------------------------------------------------------------------
// Death
// ---------------------------------------------------------------------------

/// A dot below the death line is removed with every platform.
pub proof fn lemma_the_fallen_are_removed(s: Scene)
    requires
        s.dot matches Some(b) && fallen(b),
    ensures
        death_step(s).dot is None,
        death_step(s).platforms.len() == 0,
{
}

/// A frame removes the dot and every platform exactly if the dot ends the
/// frame's motion below the death line. Else the platforms stay as they
/// are.
pub proof fn lemma_frame_judges_the_fall(
    s: Scene,
    keys: Intents,
    dt: int,
)
    requires
        s.dot is Some,
    ensures
        ({
            let moved = dot_frame(s.dot->0, s.platforms, keys, dt);
            if fallen(moved) {
                frame(s, keys, dt).dot is None && frame(s, keys, dt).platforms.len() == 0
            } else {
                frame(s, keys, dt).dot == Some(moved) && frame(s, keys, dt).platforms
                    == s.platforms
            }
        }),
{
}

/// A dot that begins a frame below the death line ends it there, and so is
/// removed with every platform, if nothing lifts it: it starts no jump, it
/// does not rise, and it lands on nothing.
pub proof fn lemma_fallen_dot_dies_in_a_frame(s: Scene, keys: Intents, dt: int)
    requires
        s.dot matches Some(b) && fallen(b) && b.vy <= 0 && !jumps_now(b, keys) && !lands(
            before_contact(b, keys, dt),
            s.platforms,
        ),
        0 <= dt,
    ensures
        frame(s, keys, dt).dot is None,
        frame(s, keys, dt).platforms.len() == 0,
{
    let b = s.dot->0;
    let c = collision_step(before_contact(b, keys, dt), s.platforms);
    assert(c.vy <= 0);
    assert(RISE * c.vy * dt <= 0) by (nonlinear_arith)
        requires
            c.vy <= 0,
            0 <= dt,
    ;
    assert(move_step(c, dt).position.y <= b.position.y);
}

/// A frame on a scene without a dot changes nothing.
pub proof fn lemma_frame_without_a_dot(s: Scene, keys: Intents, dt: int)
    requires
        s.dot is None,
    ensures
        frame(s, keys, dt) == s,
{
}

// ---------------------------------------------------------------------------
// The camera
// ---------------------------------------------------------------------------

/// In a frame of a second or less the camera comes no nearer to the dot than
/// the dot is: it moves towards it and does not pass it.
pub proof fn lemma_camera_does_not_pass(apart: int, dt: int)
    requires
        0 <= dt <= MICROS_PER_SECOND,
    ensures
        0 <= apart ==> 0 <= ease(apart, dt) <= apart,
        apart <= 0 ==> apart <= ease(apart, dt) <= 0,
{
    let far = if apart >= 0 {
        apart
    } else {
        -apart
    };
    assert(0 <= (far * dt) / (MICROS_PER_SECOND as int) <= far) by (nonlinear_arith)
        requires
            0 <= far,
            0 <= dt <= MICROS_PER_SECOND,
            MICROS_PER_SECOND == 1_000_000,
    ;
}

} // verus!
