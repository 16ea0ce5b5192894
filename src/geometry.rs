use vstd::prelude::*;

verus! {

/// Largest magnitude of any coordinate held by a well-formed entity.
pub const COORD_LIMIT: i64 = 4_000_000_000_000_000;

/// Largest magnitude of the background offset that the simulation accepts.
pub const OFFSET_LIMIT: i64 = 1_000_000_000_000_000;

/// Lowest vertical coordinate reachable by moving entities.
pub const MIN_Y: i64 = -300;

/// Highest vertical coordinate reachable by moving entities.
pub const MAX_Y: i64 = 300;

/// A point of the 2D world.
#[derive(Clone, Copy, Debug, PartialEq, Eq, Structural)]
pub struct Point {
    pub x: i64,
    pub y: i64,
}

impl Point {
    pub fn new(x: i64, y: i64) -> (r: Point)
        ensures
            r.x == x,
            r.y == y,
    {
        Point { x, y }
    }
}

/// Axis-aligned overlap of `a` with the box of half-extents `(hx, hy)`
/// centred on `b` (closed intervals on both axes).
pub open spec fn collide(a: Point, b: Point, hx: int, hy: int) -> bool {
    &&& a.x >= b.x - hx
    &&& a.x <= b.x + hx
    &&& a.y >= b.y - hy
    &&& a.y <= b.y + hy
}

/// `v` clamped to `[lo, hi]`.
pub open spec fn clamp(v: int, lo: int, hi: int) -> int {
    if v < lo {
        lo
    } else if v > hi {
        hi
    } else {
        v
    }
}

/// The box test of `collide`, for half-extents that fit a machine word.
pub fn collides(a: Point, b: Point, hx: i64, hy: i64) -> (r: bool)
    requires
        0 <= hx,
        0 <= hy,
    ensures
        r == collide(a, b, hx as int, hy as int),
{
    let ax = a.x as i128;
    let ay = a.y as i128;
    let bx = b.x as i128;
    let by = b.y as i128;
    ax >= bx - hx as i128 && ax <= bx + hx as i128 && ay >= by - hy as i128 && ay <= by
        + hy as i128
}

/// `v` clamped to `[lo, hi]`.
pub fn clamp_i64(v: i64, lo: i64, hi: i64) -> (r: i64)
    requires
        lo <= hi,
    ensures
        r == clamp(v as int, lo as int, hi as int),
        lo <= r <= hi,
{
    if v < lo {
        lo
    } else if v > hi {
        hi
    } else {
        v
    }
}

/// A point always collides with itself, and never with a point farther away
/// than the half-extents on either axis.
pub proof fn lemma_collide_coincident_and_far(a: Point, b: Point, hx: int, hy: int)
    requires
        0 <= hx,
        0 <= hy,
    ensures
        collide(a, a, hx, hy),
        (a.x - b.x > hx || b.x - a.x > hx) ==> !collide(a, b, hx, hy),
        (a.y - b.y > hy || b.y - a.y > hy) ==> !collide(a, b, hx, hy),
{
}

/// Whether the background offset lies in the range the simulation accepts.
pub open spec fn offset_in_range(background_x: i64) -> bool {
    -OFFSET_LIMIT <= background_x <= OFFSET_LIMIT
}

} // verus!
