//! Integer world geometry.
//!
//! Positions are stored in tenths of a pixel, so every landmark of the map —
//! including the half-pixel tower placements — is an exact integer. All
//! distance comparisons in the game compare squared distances, which is
//! equivalent to comparing the (nonnegative) distances themselves.

use vstd::prelude::*;

verus! {

/// Largest coordinate magnitude the game world uses, in tenths of a pixel.
pub const WORLD_BOUND: i64 = 10_000_000;

/// Largest per-frame movement the game's step logic accepts, in tenths of a
/// pixel.
pub const MAX_STEP: i64 = 100_000;

/// A position in the game world, in tenths of a pixel.
#[derive(Clone, Copy, Debug, PartialEq, Eq, Structural)]
pub struct Point {
    pub x: i64,
    pub y: i64,
}

/// Whether a point lies within the world's coordinate bound.
pub open spec fn in_world(p: Point) -> bool {
    -WORLD_BOUND <= p.x <= WORLD_BOUND && -WORLD_BOUND <= p.y <= WORLD_BOUND
}

/// Whether a point lies within `slack` of the world bound — where a point
/// can land after a few steps out of the world proper.
pub open spec fn in_world_with_slack(p: Point, slack: int) -> bool {
    &&& -WORLD_BOUND - slack <= p.x <= WORLD_BOUND + slack
    &&& -WORLD_BOUND - slack <= p.y <= WORLD_BOUND + slack
}

/// Points at most twice the world bound out: squared distances between such
/// points still fit comfortably in an `i64`.
pub open spec fn in_reach(p: Point) -> bool {
    &&& -2 * WORLD_BOUND <= p.x <= 2 * WORLD_BOUND
    &&& -2 * WORLD_BOUND <= p.y <= 2 * WORLD_BOUND
}

/// Squared Euclidean distance between two points.
pub open spec fn spec_dist_sq(a: Point, b: Point) -> int {
    (a.x - b.x) * (a.x - b.x) + (a.y - b.y) * (a.y - b.y)
}

/// Squared distance; in-reach points keep every intermediate product in range.
pub fn dist_sq(a: Point, b: Point) -> (d: i64)
    requires
        in_reach(a),
        in_reach(b),
    ensures
        d == spec_dist_sq(a, b),
{
    let dx: i64 = a.x - b.x;
    let dy: i64 = a.y - b.y;
    proof {
        assert(0 <= dx * dx <= 1_600_000_000_000_000int) by (nonlinear_arith)
            requires -40_000_000 <= dx <= 40_000_000;
        assert(0 <= dy * dy <= 1_600_000_000_000_000int) by (nonlinear_arith)
            requires -40_000_000 <= dy <= 40_000_000;
    }
    dx * dx + dy * dy
}

} // verus!
