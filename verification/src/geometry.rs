//! Geometry primitives: positions, the arena rectangle, clamping, and the
//! axis-aligned overlap test used for collision detection.

use vstd::prelude::*;

verus! {

/// Largest coordinate magnitude the simulation works with.  Host input is
/// expected to stay well inside this, and every arithmetic step in the
/// library is proved not to overflow under it.
pub const COORD_LIMIT: i64 = 100_000_000;

/// Largest entity radius the simulation works with.
pub const RADIUS_LIMIT: i64 = 1_000_000;

/// A point of the arena, in tenths of a world unit.
#[derive(Clone, Copy, PartialEq, Eq, Structural, Debug)]
pub struct Position {
    pub x: i64,
    pub y: i64,
}

impl Position {
    /// Both coordinates have magnitude at most `limit`.
    pub open spec fn bounded(self, limit: int) -> bool {
        -limit <= self.x <= limit && -limit <= self.y <= limit
    }
}

/// The arena's bounding rectangle, in tenths of a world unit.
#[derive(Clone, Copy, PartialEq, Eq, Structural, Debug)]
pub struct Rect {
    pub left: i64,
    pub right: i64,
    pub bottom: i64,
    pub top: i64,
}

impl Rect {
    /// The rectangle is non-empty and lies inside the coordinate limit.
    pub open spec fn wf(self) -> bool {
        &&& self.left <= self.right
        &&& self.bottom <= self.top
        &&& -COORD_LIMIT <= self.left
        &&& self.right <= COORD_LIMIT
        &&& -COORD_LIMIT <= self.bottom
        &&& self.top <= COORD_LIMIT
    }

    /// The point lies inside the rectangle.
    pub open spec fn contains(self, p: Position) -> bool {
        self.left <= p.x <= self.right && self.bottom <= p.y <= self.top
    }
}

/// Absolute value of a mathematical integer.
pub open spec fn abs(v: int) -> int {
    if v < 0 { -v } else { v }
}

/// `v` moved into `[lo, hi]`: `lo` when below, `hi` when above, else `v`.
pub open spec fn clamp(v: int, lo: int, hi: int) -> int {
    if v < lo {
        lo
    } else if v > hi {
        hi
    } else {
        v
    }
}

/// `p` moved into `r` on each axis independently.
pub open spec fn clamp_to_rect(p: Position, r: Rect) -> Position {
    Position {
        x: clamp(p.x as int, r.left as int, r.right as int) as i64,
        y: clamp(p.y as int, r.bottom as int, r.top as int) as i64,
    }
}

/// The axis-aligned proximity test: two circles "overlap" when the absolute
/// difference of their centres is strictly below the sum of the radii on both
/// axes.  Deliberately cheaper and slightly more permissive than a true
/// circle-circle distance test.
pub open spec fn overlaps_spec(a: Position, ra: int, b: Position, rb: int) -> bool {
    abs(a.x - b.x) < ra + rb && abs(a.y - b.y) < ra + rb
}

/// Runtime form of [`overlaps_spec`].
pub fn overlaps(a: Position, ra: i64, b: Position, rb: i64) -> (r: bool)
    requires
        a.bounded(2 * COORD_LIMIT as int),
        b.bounded(2 * COORD_LIMIT as int),
        0 <= ra <= RADIUS_LIMIT,
        0 <= rb <= RADIUS_LIMIT,
    ensures
        r == overlaps_spec(a, ra as int, b, rb as int),
{
    let sum: i64 = ra + rb;
    let dx: i64 = if a.x >= b.x {
        a.x - b.x
    } else {
        b.x - a.x
    };
    let dy: i64 = if a.y >= b.y {
        a.y - b.y
    } else {
        b.y - a.y
    };
    dx < sum && dy < sum
}

/// The overlap test is symmetric: it only looks at coordinate differences in
/// absolute value, so the order of the two entities does not matter.
pub proof fn lemma_overlaps_symmetric(a: Position, ra: int, b: Position, rb: int)
    ensures
        overlaps_spec(a, ra, b, rb) == overlaps_spec(b, rb, a, ra),
{
}

/// Boundary clamping really bounds: a position clamped to a non-empty
/// rectangle lies inside it.
pub proof fn lemma_clamp_contained(p: Position, r: Rect)
    requires
        r.wf(),
    ensures
        r.contains(clamp_to_rect(p, r)),
{
}

} // verus!
