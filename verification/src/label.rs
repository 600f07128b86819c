//! The label synthesizer: turns projected geometry into a bounding-box
//! or point label, applying the visibility and altitude-dependent
//! formatting rules, or decides that the episode is invalid.
//!
//! `label_decision` is the whole rule; `synthesize_label` computes it.
//! Two behaviors here look odd on purpose and are kept exactly: the raw
//! box accumulation is not a true minimum/maximum (see `bounds_step`),
//! and the smaller box axis is discarded for the larger one, which
//! compensates for a systematic undersizing of one axis by that
//! accumulator.  Neither may be "fixed" alone.

use vstd::prelude::*;
use vstd::math::abs;
use crate::MICRO;
use crate::geometry::{
    ProjectedGeometry, all_corners_present, div_floor, accumulate_bounds,
    geometry_bounded, normalized, normalized_flipped, point_bounded, raw_bounds, COORD_BOUND,
};
use crate::scene::{FrameArchetype, SceneConfiguration};

verus! {

/// Class id of a point-style label (the secondary "marker center" class).
pub const POINT_LABEL_CLASS: u32 = 6;

/// Fixed width and height of a point-style label, normalized micro-units
/// (0.1 of the frame).
pub const POINT_LABEL_SIZE: i64 = 100_000;

/// Highest altitude, micro-units, at which a marker's center is still
/// distinct enough to emit the secondary point label (15.0 units).
pub const SECONDARY_MAX_ALTITUDE: i64 = 15_000_000;

/// The secondary point-style line of a low-altitude bounding-box label.
#[derive(Clone, Copy, PartialEq, Eq, Debug)]
pub struct SecondaryPoint {
    pub class_id: u32,
    /// Normalized center, micro-units, origin top left.
    pub x: i64,
    pub y: i64,
}

/// One episode's label: a class, a normalized center and size, and an
/// optional secondary point line.  All coordinates are micro-units of
/// the frame's width, origin top left.
#[derive(Clone, Copy, PartialEq, Eq, Debug)]
pub struct BoundingBoxLabel {
    pub class_id: u32,
    pub center_x: i64,
    pub center_y: i64,
    pub width: i64,
    pub height: i64,
    pub secondary_point: Option<SecondaryPoint>,
}

/// The raw screen-space bounds of the corner projections' horizontal
/// axis, in corner order.
pub open spec fn raw_x_bounds(g: ProjectedGeometry) -> (int, int) {
    raw_bounds(
        g.corners[0]->0.x as int,
        g.corners[1]->0.x as int,
        g.corners[2]->0.x as int,
        g.corners[3]->0.x as int,
    )
}

/// The raw screen-space bounds of the corner projections' vertical axis.
pub open spec fn raw_y_bounds(g: ProjectedGeometry) -> (int, int) {
    raw_bounds(
        g.corners[0]->0.y as int,
        g.corners[1]->0.y as int,
        g.corners[2]->0.y as int,
        g.corners[3]->0.y as int,
    )
}

/// The projected center, normalized, horizontal axis.
pub open spec fn norm_center_x(g: ProjectedGeometry, frame: int) -> int {
    normalized(g.center->0.x as int, frame)
}

/// The projected center, normalized and flipped to a top-left origin.
pub open spec fn norm_center_y(g: ProjectedGeometry, frame: int) -> int {
    normalized_flipped(g.center->0.y as int, frame)
}

/// Top-left corner of the normalized box (smallest x, biggest raw y).
pub open spec fn norm_top_left(g: ProjectedGeometry, frame: int) -> (int, int) {
    (normalized(raw_x_bounds(g).0, frame), normalized_flipped(raw_y_bounds(g).1, frame))
}

/// Bottom-right corner of the normalized box (biggest x, smallest raw y).
pub open spec fn norm_bottom_right(g: ProjectedGeometry, frame: int) -> (int, int) {
    (normalized(raw_x_bounds(g).1, frame), normalized_flipped(raw_y_bounds(g).0, frame))
}

/// Strictly inside the open unit interval, micro-units.
pub open spec fn inside_unit(v: int) -> bool {
    0 < v < MICRO
}

/// A near-field episode emits its point label when the normalized center
/// lies strictly inside the frame.
pub open spec fn near_field_visible(g: ProjectedGeometry, frame: int) -> bool {
    inside_unit(norm_center_x(g, frame)) && inside_unit(norm_center_y(g, frame))
}

/// A bounding-box label is emitted when both normalized box corners lie
/// strictly inside the frame.
pub open spec fn box_visible(g: ProjectedGeometry, frame: int) -> bool {
    &&& inside_unit(norm_top_left(g, frame).0)
    &&& inside_unit(norm_top_left(g, frame).1)
    &&& inside_unit(norm_bottom_right(g, frame).0)
    &&& inside_unit(norm_bottom_right(g, frame).1)
}

/// The emitted box size: the larger of the normalized box's width and
/// height, replacing the smaller axis.
pub open spec fn box_size(g: ProjectedGeometry, frame: int) -> int {
    let w = abs(norm_bottom_right(g, frame).0 - norm_top_left(g, frame).0);
    let h = abs(norm_bottom_right(g, frame).1 - norm_top_left(g, frame).1);
    if w > h {
        w as int
    } else {
        h as int
    }
}

/// Every coordinate of an emitted label stays within a few micro-frame
/// widths of the unit square, so the text encoder's arithmetic holds it.
pub open spec fn label_fields_bounded(l: BoundingBoxLabel) -> bool {
    &&& -3 * COORD_BOUND <= l.center_x <= 3 * COORD_BOUND
    &&& -3 * COORD_BOUND <= l.center_y <= 3 * COORD_BOUND
    &&& -3 * COORD_BOUND <= l.width <= 3 * COORD_BOUND
    &&& -3 * COORD_BOUND <= l.height <= 3 * COORD_BOUND
    &&& l.secondary_point matches Some(s) ==> -3 * COORD_BOUND <= s.x <= 3 * COORD_BOUND && -3
        * COORD_BOUND <= s.y <= 3 * COORD_BOUND
}

/// The whole labeling rule.  `None` means the episode is invalid: no
/// label file is written and the episode consumes a retry slot.
///
/// An episode is invalid exactly when a corner or center projection is
/// missing, or when neither the near-field center test nor the
/// bounding-box corner test passes.  A near-field episode whose center
/// is not strictly inside still falls through to the bounding-box test.
pub open spec fn label_decision(
    g: ProjectedGeometry,
    archetype: FrameArchetype,
    altitude: int,
    marker_class: u32,
    frame: int,
) -> Option<BoundingBoxLabel> {
    if !(all_corners_present(g) && g.center is Some) {
        None
    } else if archetype is NearField && near_field_visible(g, frame) {
        Some(
            BoundingBoxLabel {
                class_id: POINT_LABEL_CLASS,
                center_x: norm_center_x(g, frame) as i64,
                center_y: norm_center_y(g, frame) as i64,
                width: POINT_LABEL_SIZE,
                height: POINT_LABEL_SIZE,
                secondary_point: None,
            },
        )
    } else if box_visible(g, frame) {
        Some(
            BoundingBoxLabel {
                class_id: marker_class,
                center_x: norm_center_x(g, frame) as i64,
                center_y: norm_center_y(g, frame) as i64,
                width: box_size(g, frame) as i64,
                height: box_size(g, frame) as i64,
                secondary_point: if altitude <= SECONDARY_MAX_ALTITUDE {
                    Some(
                        SecondaryPoint {
                            class_id: POINT_LABEL_CLASS,
                            x: norm_center_x(g, frame) as i64,
                            y: norm_center_y(g, frame) as i64,
                        },
                    )
                } else {
                    None
                },
            },
        )
    } else {
        None
    }
}

/// Computes `label_decision` for the episode's scene.
pub fn synthesize_label(
    g: &ProjectedGeometry,
    scene: &SceneConfiguration,
    frame_size_px: i64,
) -> (r: Option<BoundingBoxLabel>)
    requires
        geometry_bounded(*g),
        1 <= frame_size_px <= 100_000,
    ensures
        r == label_decision(
            *g,
            scene.frame_archetype,
            scene.altitude as int,
            scene.marker_class,
            frame_size_px as int,
        ),
        r matches Some(l) ==> label_fields_bounded(l),
{
    match (g.corners[0], g.corners[1], g.corners[2], g.corners[3], g.center) {
        (Some(c0), Some(c1), Some(c2), Some(c3), Some(center)) => {
            proof {
                assert(point_bounded(g.corners[0]->0));
                assert(point_bounded(g.corners[1]->0));
                assert(point_bounded(g.corners[2]->0));
                assert(point_bounded(g.corners[3]->0));
                assert(point_bounded(g.center->0));
            }
            let (lo_x, hi_x) = accumulate_bounds(c0.x, c1.x, c2.x, c3.x);
            let (lo_y, hi_y) = accumulate_bounds(c0.y, c1.y, c2.y, c3.y);
            let center_x = div_floor(center.x, frame_size_px);
            let center_y = MICRO - div_floor(center.y, frame_size_px);
            let top_left_x = div_floor(lo_x, frame_size_px);
            let top_left_y = MICRO - div_floor(hi_y, frame_size_px);
            let bottom_right_x = div_floor(hi_x, frame_size_px);
            let bottom_right_y = MICRO - div_floor(lo_y, frame_size_px);
            let near_field = match scene.frame_archetype {
                FrameArchetype::NearField => true,
                _ => false,
            };
            if near_field && 0 < center_x && center_x < MICRO && 0 < center_y && center_y
                < MICRO {
                Some(
                    BoundingBoxLabel {
                        class_id: POINT_LABEL_CLASS,
                        center_x,
                        center_y,
                        width: POINT_LABEL_SIZE,
                        height: POINT_LABEL_SIZE,
                        secondary_point: None,
                    },
                )
            } else if 0 < top_left_x && top_left_x < MICRO && 0 < top_left_y && top_left_y
                < MICRO && 0 < bottom_right_x && bottom_right_x < MICRO && 0 < bottom_right_y
                && bottom_right_y < MICRO {
                let raw_width = bottom_right_x - top_left_x;
                let raw_height = bottom_right_y - top_left_y;
                let width = if raw_width < 0 {
                    -raw_width
                } else {
                    raw_width
                };
                let height = if raw_height < 0 {
                    -raw_height
                } else {
                    raw_height
                };
                let size = if width > height {
                    width
                } else {
                    height
                };
                Some(
                    BoundingBoxLabel {
                        class_id: scene.marker_class,
                        center_x,
                        center_y,
                        width: size,
                        height: size,
                        secondary_point: if scene.altitude <= SECONDARY_MAX_ALTITUDE {
                            Some(
                                SecondaryPoint {
                                    class_id: POINT_LABEL_CLASS,
                                    x: center_x,
                                    y: center_y,
                                },
                            )
                        } else {
                            None
                        },
                    },
                )
            } else {
                None
            }
        },
        _ => None,
    }
}

/// Visibility gating: a geometry with any missing corner projection, or
/// a missing center, yields no label — the episode is invalid.
pub proof fn lemma_visibility_gating(
    g: ProjectedGeometry,
    archetype: FrameArchetype,
    altitude: int,
    marker_class: u32,
    frame: int,
)
    requires
        !all_corners_present(g) || !(g.center is Some),
    ensures
        label_decision(g, archetype, altitude, marker_class, frame) is None,
{
}

/// An episode is labeled exactly when every projection came back and
/// one of the two visibility tests passes.
pub proof fn lemma_label_iff_visible(
    g: ProjectedGeometry,
    archetype: FrameArchetype,
    altitude: int,
    marker_class: u32,
    frame: int,
)
    ensures
        label_decision(g, archetype, altitude, marker_class, frame) is Some <==> {
            &&& all_corners_present(g)
            &&& g.center is Some
            &&& ((archetype is NearField && near_field_visible(g, frame)) || box_visible(
                g,
                frame,
            ))
        },
{
}

/// Near-field point label: whenever a near-field episode's normalized
/// center lies strictly inside the frame, the label is exactly the
/// point class at that center with the fixed point size, whatever the
/// marker class and altitude.
pub proof fn lemma_near_field_point_label(
    g: ProjectedGeometry,
    altitude: int,
    marker_class: u32,
    frame: int,
)
    requires
        all_corners_present(g),
        g.center is Some,
        near_field_visible(g, frame),
    ensures
        label_decision(g, FrameArchetype::NearField, altitude, marker_class, frame) == Some(
            BoundingBoxLabel {
                class_id: POINT_LABEL_CLASS,
                center_x: norm_center_x(g, frame) as i64,
                center_y: norm_center_y(g, frame) as i64,
                width: POINT_LABEL_SIZE,
                height: POINT_LABEL_SIZE,
                secondary_point: None,
            },
        ),
{
}

/// Square-ification: whenever a bounding-box label is emitted, both of
/// its size fields carry the larger of the raw box's width and height —
/// the smaller axis is discarded.
pub proof fn lemma_square_box(
    g: ProjectedGeometry,
    archetype: FrameArchetype,
    altitude: int,
    marker_class: u32,
    frame: int,
)
    requires
        all_corners_present(g),
        g.center is Some,
        !(archetype is NearField && near_field_visible(g, frame)),
        box_visible(g, frame),
    ensures
        ({
            let l = label_decision(g, archetype, altitude, marker_class, frame)->0;
            let w = abs(norm_bottom_right(g, frame).0 - norm_top_left(g, frame).0);
            let h = abs(norm_bottom_right(g, frame).1 - norm_top_left(g, frame).1);
            &&& l.width == l.height
            &&& l.width == box_size(g, frame)
            &&& box_size(g, frame) >= w
            &&& box_size(g, frame) >= h
        }),
{
}

/// Altitude branching: a visible bounding-box episode carries the
/// secondary point line exactly when the altitude is low enough, and
/// that line repeats the label's own center under the point class.
pub proof fn lemma_altitude_branching(
    g: ProjectedGeometry,
    archetype: FrameArchetype,
    altitude: int,
    marker_class: u32,
    frame: int,
)
    requires
        all_corners_present(g),
        g.center is Some,
        !(archetype is NearField && near_field_visible(g, frame)),
        box_visible(g, frame),
    ensures
        ({
            let r = label_decision(g, archetype, altitude, marker_class, frame);
            &&& r is Some
            &&& r->0.class_id == marker_class
            &&& (r->0.secondary_point is Some <==> altitude <= SECONDARY_MAX_ALTITUDE)
            &&& altitude <= SECONDARY_MAX_ALTITUDE ==> r->0.secondary_point == Some(
                SecondaryPoint {
                    class_id: POINT_LABEL_CLASS,
                    x: r->0.center_x,
                    y: r->0.center_y,
                },
            )
        }),
{
}

} // verus!
