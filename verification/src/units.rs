//! Scales and constants of the simulation, in ticks.
use vstd::prelude::*;

verus! {

/// Position ticks in one world unit.
pub const POSITION_SCALE: i64 = 50_000_000_000;

/// Speed ticks in a speed of one.
pub const SPEED_SCALE: i64 = 5_000_000;

/// Microseconds in a second.
pub const MICROS_PER_SECOND: u64 = 1_000_000;

/// Speed ticks that gravity takes from the vertical speed in a microsecond:
/// an acceleration of 9.8 per second squared.
pub const GRAVITY: i64 = 49;

/// Largest vertical speed in either direction: three.
pub const TERMINAL_SPEED: i64 = 15_000_000;

/// Vertical speed right after a jump: three.
pub const JUMP_SPEED: i64 = 15_000_000;

/// Horizontal speed while a direction is held: two.
pub const RUN_SPEED: i64 = 10_000_000;

/// Position ticks that one speed tick rises in a microsecond: a factor of 300
/// between speed and distance per second.
pub const RISE: i64 = 3;

/// Position ticks that one speed tick runs in a microsecond: a factor of 200
/// between speed and distance per second.
pub const RUN: i64 = 2;

/// How far apart the dot and a platform may be on each axis and still
/// touch, and how far above a platform the dot comes to rest: ten units.
pub const REACH: i64 = 500_000_000_000;

/// The camera stays where it is while the dot is no further from it than
/// this on an axis: ten units.
pub const CAMERA_SLACK: i64 = 500_000_000_000;

/// The dot dies below this height: a thousand units under the origin.
pub const DEATH_LINE: i64 = -50_000_000_000_000;

/// Coordinates are simulated while they are no further than this from the
/// origin: eighty million units, which leaves room for the longest step.
pub const WORLD_LIMIT: i64 = 4_000_000_000_000_000_000;

/// The value `v`, or the nearer bound where it lies outside `lo..=hi`.
pub open spec fn clamp(v: int, lo: int, hi: int) -> int {
    if v < lo {
        lo
    } else if v > hi {
        hi
    } else {
        v
    }
}

/// Whether a coordinate lies in the simulated part of the world.
pub open spec fn in_world(c: int) -> bool {
    -WORLD_LIMIT <= c <= WORLD_LIMIT
}

} // verus!
