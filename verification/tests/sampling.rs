use field_of_pads::config::SimulationConfig;
use field_of_pads::sampler::{gen_alt, gen_pos, gen_pos_pbf, gen_sway, sample_scene};
use field_of_pads::scene::FrameArchetype;

const MICRO: i64 = 1_000_000;

/// The frame's half-width on the ground at `alt`, micro-units, as the
/// sampler computes it.
fn half_frame_width(c: &SimulationConfig, alt: i64) -> i64 {
    alt * c.tan_half_fov / MICRO
}

#[test]
fn sampled_scenes_stay_in_range() {
    let c = SimulationConfig::standard();
    for _ in 0..200 {
        let s = sample_scene(&c, 4);
        assert!(s.marker_class < 6);
        assert!(s.ground_tile_id < 4);
        assert!((500_000..1_000_000).contains(&s.brightness_jitter));
        match s.frame_archetype {
            FrameArchetype::Standard => {
                assert_eq!(s.altitude % MICRO, 0);
                assert!((8 * MICRO..=50 * MICRO).contains(&s.altitude));
                assert!(s.sway.yaw_degrees.abs() <= 10);
                assert!(s.sway.pitch_degrees.abs() <= 10);
                assert!(s.sway.roll_degrees.abs() <= 45);
                let limit = (half_frame_width(&c, s.altitude) - 2 * MICRO) / MICRO * MICRO;
                assert_eq!(s.target_x % MICRO, 0);
                assert!(s.target_x.abs() <= limit);
                assert!(s.target_y.abs() <= limit);
            }
            FrameArchetype::CloseUp => {
                assert!((3 * MICRO..8 * MICRO).contains(&s.altitude));
                assert_eq!(s.sway.yaw_degrees, 0);
                assert_eq!(s.sway.pitch_degrees, 0);
                assert!(s.sway.roll_degrees.abs() <= 45);
            }
            FrameArchetype::NearField => {
                assert!((MICRO..3 * MICRO).contains(&s.altitude));
                assert_eq!(s.sway.yaw_degrees, 0);
                assert_eq!(s.sway.pitch_degrees, 0);
                let limit = half_frame_width(&c, s.altitude) - 100_000;
                assert!(s.target_x.abs() <= limit);
                assert!(s.target_y.abs() <= limit);
            }
        }
    }
}

#[test]
fn altitude_draw_is_a_whole_number_of_units() {
    let c = SimulationConfig::standard();
    for _ in 0..100 {
        let alt = gen_alt(&c);
        assert_eq!(alt % MICRO, 0);
        assert!((8 * MICRO..=50 * MICRO).contains(&alt));
    }
}

#[test]
fn degenerate_altitude_range_is_pinned() {
    // With equal bounds the uniform draw has a single outcome, so the
    // random source must return exactly it.
    let mut c = SimulationConfig::standard();
    c.min_altitude = 8 * MICRO;
    c.max_altitude = 8 * MICRO;
    for _ in 0..20 {
        assert_eq!(gen_alt(&c), 8 * MICRO);
    }
}

#[test]
fn sway_draw_respects_the_bounds() {
    let c = SimulationConfig::standard();
    for _ in 0..100 {
        let s = gen_sway(&c);
        assert!(s.yaw_degrees.abs() <= 10);
        assert!(s.pitch_degrees.abs() <= 10);
        assert!(s.roll_degrees.abs() <= 45);
    }
}

#[test]
fn standard_position_keeps_the_marker_in_frame() {
    let c = SimulationConfig::standard();
    for alt in [3 * MICRO, 8 * MICRO, 50 * MICRO] {
        for _ in 0..50 {
            let (x, y) = gen_pos(&c, alt);
            let limit = (half_frame_width(&c, alt) - 2 * MICRO) / MICRO * MICRO;
            assert_eq!(x % MICRO, 0);
            assert_eq!(y % MICRO, 0);
            assert!(x.abs() <= limit);
            assert!(y.abs() <= limit);
        }
    }
}

#[test]
fn near_field_position_keeps_the_point_in_frame() {
    let c = SimulationConfig::standard();
    for alt in [MICRO, 2 * MICRO] {
        for _ in 0..50 {
            let (x, y) = gen_pos_pbf(&c, alt);
            let limit = half_frame_width(&c, alt) - 100_000;
            assert!(-limit <= x && x < limit);
            assert!(-limit <= y && y < limit);
        }
    }
}
