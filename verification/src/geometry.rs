//! The projected-geometry model: the marker's corner points on the
//! ground plane, their optional viewport projections, and the raw
//! screen-space box accumulated from those projections.
//!
//! World-to-viewport projection itself belongs to the external renderer;
//! the core only states which 3D points are projected and what becomes
//! of the optional 2D points that come back.  A missing projection
//! (`None`) is meaningful data — the point is behind the camera or
//! otherwise unrepresentable — never a failure.

use vstd::prelude::*;
use vstd::arithmetic::div_mod::{lemma_fundamental_div_mod, lemma_fundamental_div_mod_converse};
use crate::MICRO;

verus! {

/// Bound on every viewport coordinate the synthesizer accepts,
/// micro-pixels (a million pixels out from the frame): wide enough for
/// any projection a renderer reports, small enough that the box
/// arithmetic stays well within `i64`.
pub const COORD_BOUND: i64 = 1_000_000_000_000;

/// A point of the rendered frame's pixel space, micro-pixels.  The
/// origin the renderer reports is at the bottom left; the label
/// synthesizer flips it.
#[derive(Clone, Copy, PartialEq, Eq, Structural, Debug)]
pub struct ViewportPoint {
    pub x: i64,
    pub y: i64,
}

/// A point of the camera-ground plane, micro-units.
#[derive(Clone, Copy, PartialEq, Eq, Structural, Debug)]
pub struct GroundPoint {
    pub x: i64,
    pub y: i64,
}

/// The optional viewport projections of a marker's center and four
/// corners, in the fixed corner order of `marker_corners`.  A `None`
/// entry means the source 3D point does not project into the frame.
#[derive(Clone, Copy, Debug)]
pub struct ProjectedGeometry {
    pub center: Option<ViewportPoint>,
    pub corners: [Option<ViewportPoint>; 4],
}

/// A coordinate the synthesizer's arithmetic accepts.
pub open spec fn coordinate_bounded(v: int) -> bool {
    -COORD_BOUND <= v <= COORD_BOUND
}

pub open spec fn point_bounded(p: ViewportPoint) -> bool {
    coordinate_bounded(p.x as int) && coordinate_bounded(p.y as int)
}

/// Every point the geometry holds is within the synthesizer's bounds.
pub open spec fn geometry_bounded(g: ProjectedGeometry) -> bool {
    &&& (g.center is Some ==> point_bounded(g.center->0))
    &&& forall|i: int| 0 <= i < 4 && g.corners[i] is Some ==> point_bounded(#[trigger] g.corners[i]->0)
}

/// All four corner projections came back.
pub open spec fn all_corners_present(g: ProjectedGeometry) -> bool {
    &&& g.corners[0] is Some
    &&& g.corners[1] is Some
    &&& g.corners[2] is Some
    &&& g.corners[3] is Some
}

impl ProjectedGeometry {
    /// Builds the geometry from the five optional projections, corner
    /// order as in `marker_corners`.
    pub fn assemble(
        center: Option<ViewportPoint>,
        c0: Option<ViewportPoint>,
        c1: Option<ViewportPoint>,
        c2: Option<ViewportPoint>,
        c3: Option<ViewportPoint>,
    ) -> (g: ProjectedGeometry)
        ensures
            g.center == center,
            g.corners[0] == c0,
            g.corners[1] == c1,
            g.corners[2] == c2,
            g.corners[3] == c3,
    {
        ProjectedGeometry { center, corners: [c0, c1, c2, c3] }
    }
}

/// The four ground-plane corners of a square marker of side
/// `marker_size` centered on `(x, y)`, all micro-units, in the fixed
/// order upper-left, lower-right, lower-left, upper-right.
pub fn marker_corners(x: i64, y: i64, marker_size: i64) -> (c: [GroundPoint; 4])
    requires
        0 <= marker_size <= 1_000_000_000,
        -1_000_000_000_000 <= x <= 1_000_000_000_000,
        -1_000_000_000_000 <= y <= 1_000_000_000_000,
    ensures
        c[0] == (GroundPoint { x: (x - marker_size / 2) as i64, y: (y + marker_size / 2) as i64 }),
        c[1] == (GroundPoint { x: (x + marker_size / 2) as i64, y: (y - marker_size / 2) as i64 }),
        c[2] == (GroundPoint { x: (x - marker_size / 2) as i64, y: (y - marker_size / 2) as i64 }),
        c[3] == (GroundPoint { x: (x + marker_size / 2) as i64, y: (y + marker_size / 2) as i64 }),
{
    let h = marker_size / 2;
    [
        GroundPoint { x: x - h, y: y + h },
        GroundPoint { x: x + h, y: y - h },
        GroundPoint { x: x - h, y: y - h },
        GroundPoint { x: x + h, y: y + h },
    ]
}

/// One step of the raw box accumulation over one coordinate axis: a
/// value below the running smallest replaces the smallest, and any other
/// value overwrites the running biggest — deliberately not a true
/// maximum.  The label synthesizer's sizing rule was tuned against this
/// accumulator's output, so it is kept exactly as it behaves.
pub open spec fn bounds_step(lo: int, hi: int, v: int) -> (int, int) {
    if v < lo {
        (v, hi)
    } else {
        (lo, v)
    }
}

/// The raw bounds of one axis over the four corner coordinates: seeded
/// from the first, then accumulated over the remaining three in corner
/// order with `bounds_step`.
pub open spec fn raw_bounds(v0: int, v1: int, v2: int, v3: int) -> (int, int) {
    let s1 = bounds_step(v0, v0, v1);
    let s2 = bounds_step(s1.0, s1.1, v2);
    bounds_step(s2.0, s2.1, v3)
}

/// The accumulated smallest never exceeds the accumulated biggest: the
/// smallest only ever falls, and the biggest only takes values that were
/// not below the smallest of their moment.
pub proof fn lemma_raw_bounds_ordered(v0: int, v1: int, v2: int, v3: int)
    ensures
        raw_bounds(v0, v1, v2, v3).0 <= raw_bounds(v0, v1, v2, v3).1,
{
}

/// Computes `raw_bounds` of one axis.
pub fn accumulate_bounds(v0: i64, v1: i64, v2: i64, v3: i64) -> (r: (i64, i64))
    ensures
        (r.0 as int, r.1 as int) == raw_bounds(v0 as int, v1 as int, v2 as int, v3 as int),
{
    let mut lo = v0;
    let mut hi = v0;
    if v1 < lo {
        lo = v1;
    } else {
        hi = v1;
    }
    if v2 < lo {
        lo = v2;
    } else {
        hi = v2;
    }
    if v3 < lo {
        lo = v3;
    } else {
        hi = v3;
    }
    (lo, hi)
}

/// Normalizes one micro-pixel coordinate by the frame size, rounding
/// down: the result counts micro-units of the frame's width.
pub open spec fn normalized(v: int, frame_size_px: int) -> int {
    v / frame_size_px
}

/// Same, with the vertical axis flipped so the origin is at the top
/// left: `1 - v / frame`, micro-units.
pub open spec fn normalized_flipped(v: int, frame_size_px: int) -> int {
    MICRO - v / frame_size_px
}

/// Computes `v / d` rounded toward minus infinity, as spec-level
/// division does.
pub fn div_floor(v: i64, d: i64) -> (r: i64)
    requires
        1 <= d <= 100_000,
        -COORD_BOUND <= v <= COORD_BOUND,
    ensures
        r == v as int / d as int,
        -COORD_BOUND - 1 <= r <= COORD_BOUND,
{
    if v >= 0 {
        proof {
            vstd::arithmetic::div_mod::lemma_div_nonincreasing(v as int, d as int);
            vstd::arithmetic::div_mod::lemma_div_pos_is_pos(v as int, d as int);
        }
        v / d
    } else {
        let q = (-v + d - 1) / d;
        proof {
            let m = -v as int;
            lemma_fundamental_div_mod(m, d as int);
            let q0 = m / (d as int);
            let r0 = m % (d as int);
            vstd::arithmetic::div_mod::lemma_div_nonincreasing(m, d as int);
            vstd::arithmetic::div_mod::lemma_div_pos_is_pos(m, d as int);
            vstd::arithmetic::mul::lemma_mul_is_commutative(d as int, q0);
            vstd::arithmetic::mul::lemma_mul_unary_negation(q0, d as int);
            vstd::arithmetic::mul::lemma_mul_is_distributive_add_other_way(d as int, q0, 1int);
            vstd::arithmetic::mul::lemma_mul_is_distributive_add_other_way(d as int, -q0, -1int);
            if r0 == 0 {
                lemma_fundamental_div_mod_converse(m + d - 1, d as int, q0, (d - 1) as int);
                lemma_fundamental_div_mod_converse(v as int, d as int, -q0, 0int);
            } else {
                lemma_fundamental_div_mod_converse(m + d - 1, d as int, q0 + 1, (r0 - 1) as int);
                lemma_fundamental_div_mod_converse(v as int, d as int, -q0 - 1, (d - r0) as int);
            }
        }
        -q
    }
}

} // verus!
