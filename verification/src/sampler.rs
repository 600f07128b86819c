//! The scene parameter sampler: draws every per-episode random quantity.
//!
//! All draws go through the shared random source, so a contract here can
//! only pin the range of each quantity, never its value; `scene_within`
//! in the scene module is the full statement of those ranges.

use vstd::prelude::*;
use vstd::arithmetic::div_mod::{
    lemma_div_is_ordered, lemma_div_multiples_vanish, lemma_div_pos_is_pos,
    lemma_fundamental_div_mod, lemma_fundamental_div_mod_converse, lemma_mod_multiples_basic,
};
use vstd::arithmetic::mul::lemma_mul_inequality;
use crate::MICRO;
use crate::config::{
    SimulationConfig, config_well_formed, half_frame_width, lemma_half_frame_width_ordered,
    CLOSEUP_MIN_ALTITUDE, NEARFIELD_MIN_ALTITUDE, NEARFIELD_TARGET_HALF,
};
use crate::rng::sample_uniform_i64;
use crate::scene::{
    FrameArchetype, SceneConfiguration, Sway, near_field_target_limit, scene_within,
    standard_coordinate_within, standard_target_limit, sway_within,
};

verus! {

/// Draws a standard-frame altitude: a whole number of units between the
/// configured bounds (each rounded down to whole units), inclusive.
pub fn gen_alt(c: &SimulationConfig) -> (alt: i64)
    requires
        config_well_formed(*c),
    ensures
        alt as int % (MICRO as int) == 0,
        (c.min_altitude / MICRO) * MICRO <= alt <= (c.max_altitude / MICRO) * MICRO,
        CLOSEUP_MIN_ALTITUDE <= alt <= c.max_altitude,
{
    let lo: i64 = c.min_altitude / MICRO;
    let hi: i64 = c.max_altitude / MICRO;
    proof {
        lemma_div_is_ordered(c.min_altitude as int, c.max_altitude as int, MICRO as int);
        lemma_div_is_ordered(CLOSEUP_MIN_ALTITUDE as int, c.min_altitude as int, MICRO as int);
        lemma_fundamental_div_mod_converse(CLOSEUP_MIN_ALTITUDE as int, MICRO as int, 3int, 0int);
        lemma_div_is_ordered(c.max_altitude as int, 1000 * MICRO, MICRO as int);
        lemma_div_multiples_vanish(1000int, MICRO as int);
    }
    let k = sample_uniform_i64(lo, hi + 1);
    proof {
        lemma_mod_multiples_basic(k as int, MICRO as int);
        lemma_mul_inequality(lo as int, k as int, MICRO as int);
        lemma_mul_inequality(k as int, hi as int, MICRO as int);
        lemma_mul_inequality(3int, lo as int, MICRO as int);
        // `(max / M) * M` never exceeds `max` itself.
        lemma_fundamental_div_mod(c.max_altitude as int, MICRO as int);
    }
    k * MICRO
}

/// Draws a standard frame's camera sway: yaw and pitch each a whole
/// number of degrees within the sway bound, roll within the roll bound.
pub fn gen_sway(c: &SimulationConfig) -> (s: Sway)
    requires
        config_well_formed(*c),
    ensures
        sway_within(s, c.max_sway_degrees as int, c.max_roll_degrees as int),
{
    let yaw = sample_uniform_i64(-c.max_sway_degrees, c.max_sway_degrees + 1);
    let pitch = sample_uniform_i64(-c.max_sway_degrees, c.max_sway_degrees + 1);
    let roll = sample_uniform_i64(-c.max_roll_degrees, c.max_roll_degrees + 1);
    Sway { yaw_degrees: yaw, pitch_degrees: pitch, roll_degrees: roll }
}

/// Bounds the frame-footprint arithmetic at altitude `alt` so the
/// divisions below stay well within `i64`.
proof fn lemma_footprint_bounds(c: SimulationConfig, alt: int)
    requires
        config_well_formed(c),
        NEARFIELD_MIN_ALTITUDE <= alt <= c.max_altitude,
    ensures
        0 <= alt * c.tan_half_fov <= 4_000_000_000_000_000,
        0 <= half_frame_width(alt, c.tan_half_fov as int) <= 4_000_000_000,
{
    lemma_mul_inequality(0int, alt, c.tan_half_fov as int);
    lemma_mul_inequality(alt, 1000 * MICRO, c.tan_half_fov as int);
    lemma_mul_inequality(c.tan_half_fov as int, 4 * MICRO, 1000 * MICRO);
    lemma_div_pos_is_pos(alt * c.tan_half_fov, MICRO as int);
    lemma_div_is_ordered(alt * c.tan_half_fov, 4_000_000_000_000_000int, MICRO as int);
    lemma_fundamental_div_mod_converse(
        4_000_000_000_000_000int,
        MICRO as int,
        4_000_000_000int,
        0int,
    );
}

/// Draws a standard or close-up frame's target position: each axis a
/// whole number of units, bounded so the marker sits inside the frame
/// footprint at altitude `alt`.
pub fn gen_pos(c: &SimulationConfig, alt: i64) -> (p: (i64, i64))
    requires
        config_well_formed(*c),
        CLOSEUP_MIN_ALTITUDE <= alt <= c.max_altitude,
    ensures
        standard_coordinate_within(p.0 as int, standard_target_limit(*c, alt as int)),
        standard_coordinate_within(p.1 as int, standard_target_limit(*c, alt as int)),
{
    proof {
        lemma_footprint_bounds(*c, alt as int);
        lemma_half_frame_width_ordered(
            CLOSEUP_MIN_ALTITUDE as int,
            alt as int,
            c.tan_half_fov as int,
        );
    }
    let hw: i64 = (alt * c.tan_half_fov) / MICRO;
    let m: i64 = (hw - c.marker_size / 2) / MICRO;
    proof {
        lemma_div_pos_is_pos(hw - c.marker_size / 2, MICRO as int);
        lemma_div_is_ordered(hw - c.marker_size / 2, 4_000_000_000int, MICRO as int);
        lemma_fundamental_div_mod_converse(4_000_000_000int, MICRO as int, 4_000int, 0int);
    }
    let x_units = sample_uniform_i64(-m, m + 1);
    let y_units = sample_uniform_i64(-m, m + 1);
    proof {
        lemma_mod_multiples_basic(x_units as int, MICRO as int);
        lemma_mod_multiples_basic(y_units as int, MICRO as int);
        lemma_mul_inequality(-m as int, x_units as int, MICRO as int);
        lemma_mul_inequality(x_units as int, m as int, MICRO as int);
        lemma_mul_inequality(-m as int, y_units as int, MICRO as int);
        lemma_mul_inequality(y_units as int, m as int, MICRO as int);
    }
    (x_units * MICRO, y_units * MICRO)
}

/// Draws a near-field frame's target position: each axis anywhere within
/// the frame footprint at altitude `alt`, less the point target's
/// half-footprint.
pub fn gen_pos_pbf(c: &SimulationConfig, alt: i64) -> (p: (i64, i64))
    requires
        config_well_formed(*c),
        NEARFIELD_MIN_ALTITUDE <= alt <= c.max_altitude,
    ensures
        -near_field_target_limit(*c, alt as int) <= p.0 < near_field_target_limit(
            *c,
            alt as int,
        ),
        -near_field_target_limit(*c, alt as int) <= p.1 < near_field_target_limit(
            *c,
            alt as int,
        ),
{
    proof {
        lemma_footprint_bounds(*c, alt as int);
        lemma_half_frame_width_ordered(
            NEARFIELD_MIN_ALTITUDE as int,
            alt as int,
            c.tan_half_fov as int,
        );
    }
    let hw: i64 = (alt * c.tan_half_fov) / MICRO;
    let m: i64 = hw - NEARFIELD_TARGET_HALF;
    let x = sample_uniform_i64(-m, m);
    let y = sample_uniform_i64(-m, m);
    (x, y)
}

/// Draws a whole scene: the frame archetype (close-up and near-field
/// frames each with one chance in eight), then every quantity the
/// archetype randomizes, a marker class, a ground tile and a brightness
/// jitter.
pub fn sample_scene(c: &SimulationConfig, tile_count: usize) -> (s: SceneConfiguration)
    requires
        config_well_formed(*c),
        1 <= tile_count <= 1_000_000,
    ensures
        scene_within(*c, tile_count as int, s),
{
    let frame_id = sample_uniform_i64(0, 8);
    let (frame_archetype, altitude, sway) = if frame_id == 0 {
        let roll = sample_uniform_i64(-c.max_roll_degrees, c.max_roll_degrees + 1);
        let alt = sample_uniform_i64(CLOSEUP_MIN_ALTITUDE, c.min_altitude);
        (
            FrameArchetype::CloseUp,
            alt,
            Sway { yaw_degrees: 0, pitch_degrees: 0, roll_degrees: roll },
        )
    } else if frame_id == 1 {
        let roll = sample_uniform_i64(-c.max_roll_degrees, c.max_roll_degrees + 1);
        let alt = sample_uniform_i64(NEARFIELD_MIN_ALTITUDE, CLOSEUP_MIN_ALTITUDE);
        (
            FrameArchetype::NearField,
            alt,
            Sway { yaw_degrees: 0, pitch_degrees: 0, roll_degrees: roll },
        )
    } else {
        let alt = gen_alt(c);
        let sway = gen_sway(c);
        (FrameArchetype::Standard, alt, sway)
    };
    let (target_x, target_y) = match frame_archetype {
        FrameArchetype::NearField => gen_pos_pbf(c, altitude),
        _ => gen_pos(c, altitude),
    };
    let marker_class = sample_uniform_i64(0, 6) as u32;
    let ground_tile_id = sample_uniform_i64(0, tile_count as i64) as usize;
    let brightness_jitter = sample_uniform_i64(MICRO / 2, MICRO);
    SceneConfiguration {
        frame_archetype,
        altitude,
        sway,
        target_x,
        target_y,
        marker_class,
        ground_tile_id,
        brightness_jitter,
    }
}

} // verus!
