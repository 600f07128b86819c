//! The per-episode scene description drawn by the sampler and consumed by
//! the renderer and the label synthesizer.

use vstd::prelude::*;
use crate::MICRO;
use crate::config::{
    SimulationConfig, half_frame_width, CLOSEUP_MIN_ALTITUDE, NEARFIELD_MIN_ALTITUDE,
    NEARFIELD_TARGET_HALF,
};

verus! {

/// The categorical choice that governs an episode's sampling ranges.
#[derive(Clone, Copy, PartialEq, Eq, Structural, Debug)]
pub enum FrameArchetype {
    /// An ordinary overhead frame.
    Standard,
    /// A low frame between 3 and 8 units of altitude.
    CloseUp,
    /// A very low frame whose target is labeled as a single point.
    NearField,
}

/// Camera sway, three rotation axes composed extrinsically in
/// yaw, then pitch, then roll order, in whole degrees.
#[derive(Clone, Copy, PartialEq, Eq, Structural, Debug)]
pub struct Sway {
    pub yaw_degrees: i64,
    pub pitch_degrees: i64,
    pub roll_degrees: i64,
}

/// Everything an episode randomizes.  Created fresh each episode and
/// consumed immediately; never persisted.
#[derive(Clone, Copy, PartialEq, Eq, Structural, Debug)]
pub struct SceneConfiguration {
    pub frame_archetype: FrameArchetype,
    /// Camera altitude above the ground plane, micro-units.
    pub altitude: i64,
    pub sway: Sway,
    /// Target position on the camera-ground plane, micro-units.
    pub target_x: i64,
    pub target_y: i64,
    /// Marker class, one of the 6 ids in `[0, 6)`.
    pub marker_class: u32,
    /// Index into the available set of ground tiles.
    pub ground_tile_id: usize,
    /// Brightness factor applied to ground and marker materials,
    /// micro-units, in `[0.5, 1.0)`.
    pub brightness_jitter: i64,
}

/// Bound on a standard or close-up frame's target coordinates at altitude
/// `alt`: whole units (micro-rounded down) of the half-frame width less
/// half a marker, so the marker fits inside the frame.
pub open spec fn standard_target_limit(c: SimulationConfig, alt: int) -> int {
    (half_frame_width(alt, c.tan_half_fov as int) - c.marker_size / 2) / (MICRO as int)
}

/// Bound on a near-field frame's target coordinates at altitude `alt`,
/// micro-units: the half-frame width less the half-footprint of the
/// point target.
pub open spec fn near_field_target_limit(c: SimulationConfig, alt: int) -> int {
    half_frame_width(alt, c.tan_half_fov as int) - NEARFIELD_TARGET_HALF
}

/// Sway bounds of a standard frame.
pub open spec fn sway_within(s: Sway, max_sway: int, max_roll: int) -> bool {
    &&& -max_sway <= s.yaw_degrees <= max_sway
    &&& -max_sway <= s.pitch_degrees <= max_sway
    &&& -max_roll <= s.roll_degrees <= max_roll
}

/// A whole-unit coordinate within `limit` whole units of the frame
/// center: what the standard position sampler can draw.
pub open spec fn standard_coordinate_within(v: int, limit: int) -> bool {
    &&& v % (MICRO as int) == 0
    &&& -limit * MICRO <= v <= limit * MICRO
}

/// Everything the sampler promises of a drawn scene, for a run over
/// `tile_count` ground tiles: each quantity lies in the range its
/// archetype allows.
pub open spec fn scene_within(c: SimulationConfig, tile_count: int, s: SceneConfiguration) -> bool {
    &&& s.marker_class < 6
    &&& s.ground_tile_id < tile_count
    &&& MICRO / 2 <= s.brightness_jitter < MICRO
    &&& match s.frame_archetype {
        FrameArchetype::Standard => {
            &&& s.altitude as int % (MICRO as int) == 0
            &&& (c.min_altitude / MICRO) * MICRO <= s.altitude <= (c.max_altitude / MICRO) * MICRO
            &&& sway_within(s.sway, c.max_sway_degrees as int, c.max_roll_degrees as int)
            &&& standard_coordinate_within(s.target_x as int, standard_target_limit(c, s.altitude as int))
            &&& standard_coordinate_within(s.target_y as int, standard_target_limit(c, s.altitude as int))
        },
        FrameArchetype::CloseUp => {
            &&& CLOSEUP_MIN_ALTITUDE <= s.altitude < c.min_altitude
            &&& s.sway.yaw_degrees == 0
            &&& s.sway.pitch_degrees == 0
            &&& -c.max_roll_degrees <= s.sway.roll_degrees <= c.max_roll_degrees
            &&& standard_coordinate_within(s.target_x as int, standard_target_limit(c, s.altitude as int))
            &&& standard_coordinate_within(s.target_y as int, standard_target_limit(c, s.altitude as int))
        },
        FrameArchetype::NearField => {
            &&& NEARFIELD_MIN_ALTITUDE <= s.altitude < CLOSEUP_MIN_ALTITUDE
            &&& s.sway.yaw_degrees == 0
            &&& s.sway.pitch_degrees == 0
            &&& -c.max_roll_degrees <= s.sway.roll_degrees <= c.max_roll_degrees
            &&& -near_field_target_limit(c, s.altitude as int) <= s.target_x
                < near_field_target_limit(c, s.altitude as int)
            &&& -near_field_target_limit(c, s.altitude as int) <= s.target_y
                < near_field_target_limit(c, s.altitude as int)
        },
    }
}

} // verus!
