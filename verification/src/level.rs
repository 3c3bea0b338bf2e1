//! Levels written as text.
//!
//! A level is read glyph by glyph. `-` is a platform, a blank is a gap, and a
//! line break starts the next row. Platforms and gaps take one column each,
//! counted from one in every row; rows are counted from zero. Any other
//! glyph is passed over and takes no column.
use crate::components::Position;
use crate::model::{platforms_in_world, Point};
use crate::world::points;
use vstd::prelude::*;

verus! {

/// Most glyphs that a level may have.
pub const MAX_LEVEL_GLYPHS: usize = 1_000_000;

/// Where column zero would lie: seven hundred units left of the origin.
pub const LEFT_EDGE: i64 = -35_000_000_000_000;

/// Width of a column: ten units.
pub const COLUMN_WIDTH: i64 = 500_000_000_000;

/// Height of row zero: a hundred units above the origin.
pub const TOP_ROW: i64 = 5_000_000_000_000;

/// Distance from one row down to the next: twenty-five units.
pub const ROW_HEIGHT: i64 = 1_250_000_000_000;

/// Depth at which platforms are drawn: one unit behind the dot.
pub const PLATFORM_DEPTH: i64 = -50_000_000_000;

/// The row counter after `glyphs` were read: the line breaks among them.
pub open spec fn rows(glyphs: Seq<char>) -> int
    decreases glyphs.len(),
{
    if glyphs.len() == 0 {
        0
    } else if glyphs.last() == '\n' {
        rows(glyphs.drop_last()) + 1
    } else {
        rows(glyphs.drop_last())
    }
}

/// The column counter after `glyphs` were read: the platforms and gaps since
/// the last line break.
pub open spec fn columns(glyphs: Seq<char>) -> int
    decreases glyphs.len(),
{
    if glyphs.len() == 0 {
        0
    } else if glyphs.last() == '\n' {
        0
    } else if glyphs.last() == '-' || glyphs.last() == ' ' {
        columns(glyphs.drop_last()) + 1
    } else {
        columns(glyphs.drop_last())
    }
}

/// The place of the platform in the given column and row.
pub open spec fn spot(column: int, row: int) -> Point {
    Point {
        x: LEFT_EDGE + COLUMN_WIDTH * column,
        y: TOP_ROW - ROW_HEIGHT * row,
        z: PLATFORM_DEPTH as int,
    }
}

/// The platforms of a level, in the order of their glyphs.
pub open spec fn level_platforms(glyphs: Seq<char>) -> Seq<Point>
    decreases glyphs.len(),
{
    if glyphs.len() == 0 {
        Seq::empty()
    } else if glyphs.last() == '-' {
        level_platforms(glyphs.drop_last()).push(spot(columns(glyphs), rows(glyphs)))
    } else {
        level_platforms(glyphs.drop_last())
    }
}

/// The number of platform glyphs among `glyphs`.
pub open spec fn platform_glyphs(glyphs: Seq<char>) -> nat
    decreases glyphs.len(),
{
    if glyphs.len() == 0 {
        0
    } else if glyphs.last() == '-' {
        platform_glyphs(glyphs.drop_last()) + 1
    } else {
        platform_glyphs(glyphs.drop_last())
    }
}

/// A level has as many platforms as it has platform glyphs.
pub proof fn lemma_one_platform_per_glyph(glyphs: Seq<char>)
    ensures
        level_platforms(glyphs).len() == platform_glyphs(glyphs),
    decreases glyphs.len(),
{
    if glyphs.len() > 0 {
        lemma_one_platform_per_glyph(glyphs.drop_last());
    }
}

/// The platform glyph at index `i` gives the platform that comes after those
/// of the platform glyphs before it, and that platform lies in the column
/// and row that the counters show once the glyph is read.
pub proof fn lemma_platform_of_glyph(glyphs: Seq<char>, i: int)
    requires
        0 <= i < glyphs.len(),
        glyphs[i] == '-',
    ensures
        platform_glyphs(glyphs.take(i)) < level_platforms(glyphs).len(),
        level_platforms(glyphs)[platform_glyphs(glyphs.take(i)) as int] == spot(
            columns(glyphs.take(i + 1)),
            rows(glyphs.take(i + 1)),
        ),
    decreases glyphs.len(),
{
    let shorter = glyphs.drop_last();
    lemma_one_platform_per_glyph(shorter);
    if i == glyphs.len() - 1 {
        assert(glyphs.take(i) =~= shorter);
        assert(glyphs.take(i + 1) =~= glyphs);
    } else {
        assert(shorter.take(i) =~= glyphs.take(i));
        assert(shorter.take(i + 1) =~= glyphs.take(i + 1));
        lemma_platform_of_glyph(shorter, i);
    }
}

/// Glyphs that are neither platform, gap nor line break change nothing: a
/// level read without them has the same platforms.
pub proof fn lemma_other_glyphs_are_passed_over(glyphs: Seq<char>, i: int)
    requires
        0 <= i < glyphs.len(),
        glyphs[i] != '-',
        glyphs[i] != ' ',
        glyphs[i] != '\n',
    ensures
        level_platforms(glyphs.remove(i)) == level_platforms(glyphs),
        columns(glyphs.remove(i)) == columns(glyphs),
        rows(glyphs.remove(i)) == rows(glyphs),
    decreases glyphs.len(),
{
    let shorter = glyphs.drop_last();
    if i == glyphs.len() - 1 {
        assert(glyphs.remove(i) =~= shorter);
    } else {
        assert(glyphs.remove(i).drop_last() =~= shorter.remove(i));
        assert(glyphs.remove(i).last() == glyphs.last());
        lemma_other_glyphs_are_passed_over(shorter, i);
    }
}

/// Reads the platforms of a level.
pub fn init_map(map: &str) -> (platforms: Vec<Position>)
    requires
        map@.len() <= MAX_LEVEL_GLYPHS,
    ensures
        points(platforms@) == level_platforms(map@),
        platforms_in_world(points(platforms@)),
{
    let mut x: i64 = 0;
    let mut y: i64 = 0;
    let mut platforms: Vec<Position> = Vec::new();
    assert(points(platforms@) =~= Seq::empty());
    assert(map@.take(0) =~= Seq::empty());
    for c in it: map.chars()
        invariant
            it.seq() == map@,
            map@.len() <= MAX_LEVEL_GLYPHS,
            0 <= x <= it.index(),
            0 <= y <= it.index(),
            x == columns(map@.take(it.index() as int)),
            y == rows(map@.take(it.index() as int)),
            points(platforms@) == level_platforms(map@.take(it.index() as int)),
            platforms_in_world(points(platforms@)),
    {
        proof {
            let read = map@.take(it.index() + 1);
            assert(read.drop_last() =~= map@.take(it.index() as int));
            assert(read.last() == c);
        }
        if c == '-' {
            x += 1;
            let platform = Position {
                x: LEFT_EDGE + COLUMN_WIDTH * x,
                y: TOP_ROW - ROW_HEIGHT * y,
                z: PLATFORM_DEPTH,
            };
            let ghost before = platforms@;
            platforms.push(platform);
            assert(points(platforms@) =~= points(before).push(platform@));
        }
        if c == ' ' {
            x += 1;
        }
        if c == '\n' {
            y += 1;
            x = 0;
        }
    }
    assert(map@.take(map@.len() as int) =~= map@);
    platforms
}

} // verus!
