//! Points, axis-aligned boxes and the closed-interval overlap test.

use vstd::prelude::*;

verus! {

/// A point, a displacement or a velocity of the plane, in fixed-point units.
#[derive(Clone, Copy, Debug, PartialEq, Eq, Structural)]
pub struct Vec2 {
    pub x: i64,
    pub y: i64,
}

impl Vec2 {
    pub open spec fn origin() -> Vec2 {
        Vec2 { x: 0, y: 0 }
    }

    pub fn new(x: i64, y: i64) -> (v: Vec2)
        ensures
            v == (Vec2 { x, y }),
    {
        Vec2 { x, y }
    }

    pub fn zero() -> (v: Vec2)
        ensures
            v == Vec2::origin(),
    {
        Vec2 { x: 0, y: 0 }
    }
}

/// An axis-aligned box given by its center and its half extents. As a set of
/// points it is closed: its edges belong to it.
#[derive(Clone, Copy, Debug, PartialEq, Eq, Structural)]
pub struct Aabb {
    pub center: Vec2,
    pub half_extent: Vec2,
}

/// Whether `t` lies in the closed interval of half width `half` around `center`.
pub open spec fn in_span(t: int, center: int, half: int) -> bool {
    center - half <= t <= center + half
}

/// Whether two closed intervals, each given by center and half width, meet.
/// Intervals that only touch at an end point meet.
pub open spec fn spans_meet(c1: int, h1: int, c2: int, h2: int) -> bool {
    c1 + h1 >= c2 - h2 && c1 - h1 <= c2 + h2
}

impl Aabb {
    /// Half extents are not negative.
    pub open spec fn wf(self) -> bool {
        self.half_extent.x >= 0 && self.half_extent.y >= 0
    }

    /// Whether the point `(x, y)` belongs to the box.
    pub open spec fn contains(self, x: int, y: int) -> bool {
        in_span(x, self.center.x as int, self.half_extent.x as int) && in_span(
            y,
            self.center.y as int,
            self.half_extent.y as int,
        )
    }

    /// Whether the two boxes overlap: their x-intervals meet and their
    /// y-intervals meet.
    pub open spec fn overlaps_spec(self, other: Aabb) -> bool {
        spans_meet(
            self.center.x as int,
            self.half_extent.x as int,
            other.center.x as int,
            other.half_extent.x as int,
        ) && spans_meet(
            self.center.y as int,
            self.half_extent.y as int,
            other.center.y as int,
            other.half_extent.y as int,
        )
    }

    pub fn new(center: Vec2, half_extent: Vec2) -> (b: Aabb)
        ensures
            b == (Aabb { center, half_extent }),
    {
        Aabb { center, half_extent }
    }

    /// The overlap test. It is total: sums are formed in 128 bits, so no
    /// position or extent can overflow it.
    pub fn overlaps(&self, other: &Aabb) -> (hit: bool)
        ensures
            hit == self.overlaps_spec(*other),
    {
        let ax: i128 = self.center.x as i128;
        let ay: i128 = self.center.y as i128;
        let ahx: i128 = self.half_extent.x as i128;
        let ahy: i128 = self.half_extent.y as i128;
        let bx: i128 = other.center.x as i128;
        let by: i128 = other.center.y as i128;
        let bhx: i128 = other.half_extent.x as i128;
        let bhy: i128 = other.half_extent.y as i128;
        ay + ahy >= by - bhy && ay - ahy <= by + bhy && ax + ahx >= bx - bhx && ax - ahx <= bx
            + bhx
    }
}

/// Overlap does not depend on which box is asked.
pub proof fn lemma_overlap_symmetric(a: Aabb, b: Aabb)
    ensures
        a.overlaps_spec(b) == b.overlaps_spec(a),
{
}

/// Two boxes of non-negative extent overlap exactly when some point belongs
/// to both.
pub proof fn lemma_overlap_iff_common_point(a: Aabb, b: Aabb)
    requires
        a.wf(),
        b.wf(),
    ensures
        a.overlaps_spec(b) <==> exists|x: int, y: int| #[trigger] a.contains(x, y) && b.contains(x, y),
{
    if a.overlaps_spec(b) {
        let x = if a.center.x - a.half_extent.x >= b.center.x - b.half_extent.x {
            a.center.x - a.half_extent.x
        } else {
            b.center.x - b.half_extent.x
        };
        let y = if a.center.y - a.half_extent.y >= b.center.y - b.half_extent.y {
            a.center.y - a.half_extent.y
        } else {
            b.center.y - b.half_extent.y
        };
        assert(a.contains(x, y) && b.contains(x, y));
    }
}

/// Boxes that only touch overlap: where the bottom edge of one lies on the
/// top edge of the other and their x-intervals meet, the boxes overlap.
pub proof fn lemma_touching_edges_overlap(a: Aabb, b: Aabb)
    requires
        a.wf(),
        b.wf(),
        spans_meet(
            a.center.x as int,
            a.half_extent.x as int,
            b.center.x as int,
            b.half_extent.x as int,
        ),
        a.center.y + a.half_extent.y == b.center.y - b.half_extent.y,
    ensures
        a.overlaps_spec(b),
        b.overlaps_spec(a),
{
}

} // verus!
