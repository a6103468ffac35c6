use vstd::math::abs;
use vstd::prelude::*;

verus! {

/// A position in world space, in whole world units.
#[derive(Clone, Copy, Debug, PartialEq, Eq, Structural)]
pub struct Point {
    pub x: i32,
    pub y: i32,
}

impl Point {
    pub fn new(x: i32, y: i32) -> (r: Point)
        ensures
            r.x == x,
            r.y == y,
    {
        Point { x, y }
    }
}

/// The extent of a box or a sprite, in whole world units.
#[derive(Clone, Copy, Debug, PartialEq, Eq, Structural)]
pub struct Extent {
    pub width: i32,
    pub height: i32,
}

impl Extent {
    pub fn new(width: i32, height: i32) -> (r: Extent)
        ensures
            r.width == width,
            r.height == height,
    {
        Extent { width, height }
    }
}

// Edges of a box centred at `c` with extent `e`, counted in half units so that
// an odd extent still has exact edges: the low edge lies at `c - e/2`, the high
// edge at `c + e/2`.
pub open spec fn low_edge2(c: int, e: int) -> int {
    2 * c - e
}

pub open spec fn high_edge2(c: int, e: int) -> int {
    2 * c + e
}

/// Two intervals, given by centre and extent, are disjoint when one ends strictly
/// before the other begins. Touching edges do not separate them.
pub open spec fn separated(c1: int, e1: int, c2: int, e2: int) -> bool {
    high_edge2(c1, e1) < low_edge2(c2, e2) || low_edge2(c1, e1) > high_edge2(c2, e2)
}

/// Boxes centred on `p1` and `p2` overlap unless they are separated on one axis.
pub open spec fn boxes_overlap(p1: Point, w1: int, h1: int, p2: Point, w2: int, h2: int) -> bool {
    !(separated(p1.x as int, w1, p2.x as int, w2) || separated(p1.y as int, h1, p2.y as int, h2))
}

/// Axis-aligned bounding-box overlap of two boxes, each centred on its position.
/// Boxes whose edges touch overlap.
pub fn aabb_overlap(pos_1: Point, width_1: i32, height_1: i32, pos_2: Point, width_2: i32, height_2: i32) -> (r: bool)
    ensures
        r == boxes_overlap(pos_1, width_1 as int, height_1 as int, pos_2, width_2 as int, height_2 as int),
{
    let left_1 = 2 * (pos_1.x as i64) - width_1 as i64;
    let right_1 = 2 * (pos_1.x as i64) + width_1 as i64;
    let top_1 = 2 * (pos_1.y as i64) + height_1 as i64;
    let bottom_1 = 2 * (pos_1.y as i64) - height_1 as i64;

    let left_2 = 2 * (pos_2.x as i64) - width_2 as i64;
    let right_2 = 2 * (pos_2.x as i64) + width_2 as i64;
    let top_2 = 2 * (pos_2.y as i64) + height_2 as i64;
    let bottom_2 = 2 * (pos_2.y as i64) - height_2 as i64;

    !(right_1 < left_2 || left_1 > right_2 || top_1 < bottom_2 || bottom_1 > top_2)
}

/// Overlap does not depend on which box comes first.
pub proof fn lemma_overlap_symmetric(p1: Point, w1: int, h1: int, p2: Point, w2: int, h2: int)
    ensures
        boxes_overlap(p1, w1, h1, p2, w2, h2) == boxes_overlap(p2, w2, h2, p1, w1, h1),
{
}

/// Two boxes with the same centre and positive sizes always overlap.
pub proof fn lemma_same_center_overlaps(p: Point, w1: int, h1: int, w2: int, h2: int)
    requires
        w1 > 0,
        h1 > 0,
        w2 > 0,
        h2 > 0,
    ensures
        boxes_overlap(p, w1, h1, p, w2, h2),
{
}

/// Two boxes whose centres lie further apart on one axis than the sum of their
/// half extents on that axis never overlap.
pub proof fn lemma_far_apart_never_overlap(p1: Point, w1: int, h1: int, p2: Point, w2: int, h2: int)
    requires
        2 * abs(p1.x - p2.x) > w1 + w2 || 2 * abs(p1.y - p2.y) > h1 + h2,
    ensures
        !boxes_overlap(p1, w1, h1, p2, w2, h2),
{
}

} // verus!
