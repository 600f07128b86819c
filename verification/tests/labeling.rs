use field_of_pads::encode::{format_index, format_micro, format_number, render_label};
use field_of_pads::geometry::{ProjectedGeometry, ViewportPoint};
use field_of_pads::label::synthesize_label;
use field_of_pads::scene::{FrameArchetype, SceneConfiguration, Sway};

fn point(x: i64, y: i64) -> Option<ViewportPoint> {
    Some(ViewportPoint { x, y })
}

fn scene(archetype: FrameArchetype, altitude: i64, marker_class: u32) -> SceneConfiguration {
    SceneConfiguration {
        frame_archetype: archetype,
        altitude,
        sway: Sway { yaw_degrees: 0, pitch_degrees: 0, roll_degrees: 0 },
        target_x: 0,
        target_y: 0,
        marker_class,
        ground_tile_id: 0,
        brightness_jitter: 750_000,
    }
}

/// A rectangle whose normalized box is [0.2, 0.5] x [0.4, 0.5] with the
/// center projected at normalized (0.35, 0.55): raw width 0.30, raw
/// height 0.10.
fn visible_box_geometry() -> ProjectedGeometry {
    ProjectedGeometry {
        center: point(145_600_000, 187_200_000),
        corners: [
            point(83_200_000, 249_600_000),
            point(208_000_000, 208_000_000),
            point(83_200_000, 208_000_000),
            point(208_000_000, 249_600_000),
        ],
    }
}

#[test]
fn missing_corner_yields_no_label() {
    let mut g = visible_box_geometry();
    g.corners[2] = None;
    let r = synthesize_label(&g, &scene(FrameArchetype::Standard, 10_000_000, 2), 416);
    assert!(r.is_none());
}

#[test]
fn each_missing_corner_yields_no_label() {
    for k in 0..4 {
        let mut g = visible_box_geometry();
        g.corners[k] = None;
        let r = synthesize_label(&g, &scene(FrameArchetype::NearField, 2_000_000, 2), 416);
        assert!(r.is_none());
    }
}

#[test]
fn missing_center_yields_no_label() {
    let mut g = visible_box_geometry();
    g.center = None;
    let r = synthesize_label(&g, &scene(FrameArchetype::Standard, 10_000_000, 2), 416);
    assert!(r.is_none());
}

#[test]
fn near_field_center_point_label() {
    let g = ProjectedGeometry {
        center: point(208_000_000, 208_000_000),
        corners: [
            point(83_200_000, 249_600_000),
            point(208_000_000, 208_000_000),
            point(83_200_000, 208_000_000),
            point(208_000_000, 249_600_000),
        ],
    };
    let r = synthesize_label(&g, &scene(FrameArchetype::NearField, 2_000_000, 4), 416)
        .expect("center is visible");
    assert_eq!(r.class_id, 6);
    assert_eq!(r.center_x, 500_000);
    assert_eq!(r.center_y, 500_000);
    assert_eq!(r.width, 100_000);
    assert_eq!(r.height, 100_000);
    assert!(r.secondary_point.is_none());
    let text = render_label(&r);
    assert_eq!(text, b"6 0.5 0.5 0.1 0.1".to_vec());
}

#[test]
fn square_ification_takes_larger_axis() {
    let g = visible_box_geometry();
    let r = synthesize_label(&g, &scene(FrameArchetype::Standard, 30_000_000, 1), 416)
        .expect("box is visible");
    // Raw box width 0.30 and height 0.10: both size fields carry 0.30.
    assert_eq!(r.width, 300_000);
    assert_eq!(r.height, 300_000);
}

#[test]
fn low_altitude_emits_two_lines() {
    let g = visible_box_geometry();
    let r = synthesize_label(&g, &scene(FrameArchetype::Standard, 10_000_000, 2), 416)
        .expect("box is visible");
    assert_eq!(r.class_id, 2);
    let s = r.secondary_point.expect("low altitude keeps the center point");
    assert_eq!(s.class_id, 6);
    assert_eq!(s.x, r.center_x);
    assert_eq!(s.y, r.center_y);
    let text = render_label(&r);
    assert_eq!(text, b"2 0.35 0.55 0.3 0.3\n6 0.35 0.55 0.1 0.1".to_vec());
}

#[test]
fn high_altitude_emits_one_line() {
    let g = visible_box_geometry();
    let r = synthesize_label(&g, &scene(FrameArchetype::Standard, 30_000_000, 2), 416)
        .expect("box is visible");
    assert!(r.secondary_point.is_none());
    let text = render_label(&r);
    assert_eq!(text, b"2 0.35 0.55 0.3 0.3".to_vec());
}

#[test]
fn altitude_boundary_is_inclusive() {
    let g = visible_box_geometry();
    let r = synthesize_label(&g, &scene(FrameArchetype::Standard, 15_000_000, 2), 416)
        .expect("box is visible");
    assert!(r.secondary_point.is_some());
}

#[test]
fn near_field_center_outside_falls_back_to_box() {
    // Center projected exactly on the frame edge: not strictly inside,
    // so even a near-field episode takes the bounding-box test.
    let mut g = visible_box_geometry();
    g.center = point(0, 208_000_000);
    let r = synthesize_label(&g, &scene(FrameArchetype::NearField, 2_000_000, 3), 416)
        .expect("box is visible");
    assert_eq!(r.class_id, 3);
    assert_eq!(r.center_x, 0);
}

#[test]
fn out_of_frame_box_is_invalid() {
    let mut g = visible_box_geometry();
    // Push one corner far right: the raw box's biggest x leaves the frame.
    g.corners[3] = point(500_000_000, 249_600_000);
    let r = synthesize_label(&g, &scene(FrameArchetype::Standard, 10_000_000, 2), 416);
    assert!(r.is_none());
}

#[test]
fn asymmetric_accumulation_is_kept() {
    // Corner order matters to the accumulator: with corner values at
    // 0.25, 0.75, 0.5 and 0.625 of the frame on each axis, a true
    // maximum would keep 0.75, but the accumulator overwrites the
    // biggest with the last non-smaller value, 0.625.
    let g = ProjectedGeometry {
        center: point(208_000_000, 208_000_000),
        corners: [
            point(104_000_000, 104_000_000),
            point(312_000_000, 312_000_000),
            point(208_000_000, 208_000_000),
            point(260_000_000, 260_000_000),
        ],
    };
    let r = synthesize_label(&g, &scene(FrameArchetype::Standard, 30_000_000, 0), 416)
        .expect("box is visible");
    // smallest 0.25, biggest ends at 0.625 (not 0.75); the y flip makes
    // the box [0.375, 0.75] on the vertical axis: width 0.375 on both
    // axes after square-ification.
    assert_eq!(r.width, 375_000);
    assert_eq!(r.height, 375_000);
}

#[test]
fn center_outside_the_frame_is_still_written() {
    // The bounding-box test looks only at the box corners: a center
    // projected left of the frame is carried into the label unchanged,
    // negative coordinate and all.
    let mut g = visible_box_geometry();
    g.center = point(-41_600_000, 208_000_000);
    let r = synthesize_label(&g, &scene(FrameArchetype::Standard, 30_000_000, 5), 416)
        .expect("box is visible");
    assert_eq!(r.center_x, -100_000);
    let text = render_label(&r);
    assert_eq!(text, b"5 -0.1 0.5 0.3 0.3".to_vec());
}

#[test]
fn micro_text_is_minimal() {
    assert_eq!(format_micro(500_000), b"0.5".to_vec());
    assert_eq!(format_micro(300_000), b"0.3".to_vec());
    assert_eq!(format_micro(100_000), b"0.1".to_vec());
    assert_eq!(format_micro(0), b"0".to_vec());
    assert_eq!(format_micro(1_000_000), b"1".to_vec());
    assert_eq!(format_micro(12_250_000), b"12.25".to_vec());
    assert_eq!(format_micro(123), b"0.000123".to_vec());
    assert_eq!(format_micro(-500_000), b"-0.5".to_vec());
    assert_eq!(format_micro(-1_250_000), b"-1.25".to_vec());
}

#[test]
fn index_names_are_zero_padded() {
    assert_eq!(format_index(1), b"00001".to_vec());
    assert_eq!(format_index(120), b"00120".to_vec());
    assert_eq!(format_index(99_999), b"99999".to_vec());
    assert_eq!(format_index(123_456), b"123456".to_vec());
    assert_eq!(format_number(0), b"0".to_vec());
    assert_eq!(format_number(10), b"10".to_vec());
}
