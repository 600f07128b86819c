//! The tunable surface of the generator: the fixed constants that govern
//! sampling ranges, the camera's field of view and the frame size.

use vstd::prelude::*;
use vstd::arithmetic::div_mod::lemma_div_is_ordered;
use vstd::arithmetic::mul::lemma_mul_inequality;
use crate::MICRO;

verus! {

/// Lowest altitude of a close-up frame, in micro-units (3.0 units).
pub const CLOSEUP_MIN_ALTITUDE: i64 = 3_000_000;

/// Lowest altitude of a near-field frame, in micro-units (1.0 units).
pub const NEARFIELD_MIN_ALTITUDE: i64 = 1_000_000;

/// Half the footprint of the near-field point target, in micro-units
/// (the target is treated as a 0.2-unit point).
pub const NEARFIELD_TARGET_HALF: i64 = 100_000;

/// The fixed constants of a generation run.
///
/// `tan_half_fov` is the tangent of half of `fov_degrees`, in micro-units.
/// It is kept beside the angle because the frame-footprint arithmetic is
/// integer-only; the two are assumed self-consistent, as all constants
/// here are (an out-of-range constant is a configuration error, not a
/// runtime-handled case).
#[derive(Clone, Copy, PartialEq, Eq, Structural, Debug)]
pub struct SimulationConfig {
    /// Lowest standard-frame altitude, micro-units.
    pub min_altitude: i64,
    /// Highest standard-frame altitude, micro-units.
    pub max_altitude: i64,
    /// Vertical field of view of the camera, whole degrees.
    pub fov_degrees: i64,
    /// Tangent of half the field of view, micro-units.
    pub tan_half_fov: i64,
    /// Side length of the square target marker, micro-units.
    pub marker_size: i64,
    /// Bound on camera yaw and pitch sway, whole degrees.
    pub max_sway_degrees: i64,
    /// Bound on camera roll sway, whole degrees.
    pub max_roll_degrees: i64,
    /// Nominal number of episodes of a run.
    pub target_episode_count: u32,
    /// Side length of the square rendered frame, pixels.
    pub frame_size_px: i64,
}

/// Width of the half-frame on the ground plane at altitude `alt`
/// (both in micro-units): `alt * tan(fov / 2)`.
pub open spec fn half_frame_width(alt: int, tan_half_fov: int) -> int {
    alt * tan_half_fov / (MICRO as int)
}

/// Self-consistency of the constants: every altitude the sampler can draw
/// leaves room on the ground plane for the target it places there, and
/// every quantity is small enough for the sampler's arithmetic.
pub open spec fn config_well_formed(c: SimulationConfig) -> bool {
    &&& 0 < c.tan_half_fov <= 4 * MICRO
    &&& CLOSEUP_MIN_ALTITUDE < c.min_altitude <= c.max_altitude <= 1000 * MICRO
    &&& 0 < c.marker_size <= 100 * MICRO
    &&& half_frame_width(CLOSEUP_MIN_ALTITUDE as int, c.tan_half_fov as int) >= c.marker_size / 2
    &&& half_frame_width(NEARFIELD_MIN_ALTITUDE as int, c.tan_half_fov as int) > NEARFIELD_TARGET_HALF
    &&& 0 <= c.max_sway_degrees <= 90
    &&& 0 <= c.max_roll_degrees <= 180
    &&& c.target_episode_count >= 1
    &&& 1 <= c.frame_size_px <= 100_000
}

/// The half-frame width grows with altitude.
pub proof fn lemma_half_frame_width_ordered(alt1: int, alt2: int, tan_half_fov: int)
    requires
        0 <= alt1 <= alt2,
        0 <= tan_half_fov,
    ensures
        half_frame_width(alt1, tan_half_fov) <= half_frame_width(alt2, tan_half_fov),
{
    lemma_mul_inequality(alt1, alt2, tan_half_fov);
    lemma_div_is_ordered(alt1 * tan_half_fov, alt2 * tan_half_fov, MICRO as int);
}

impl SimulationConfig {
    /// The constants of the shipped generator: altitudes 8 to 50 units, a
    /// 69-degree field of view, a 4-unit marker, 10 degrees of yaw and
    /// pitch sway, 45 degrees of roll, 120 nominal episodes, 416-pixel
    /// frames.
    pub fn standard() -> (c: SimulationConfig)
        ensures
            c.min_altitude == 8 * MICRO,
            c.max_altitude == 50 * MICRO,
            c.fov_degrees == 69,
            c.tan_half_fov == 687_281,
            c.marker_size == 4 * MICRO,
            c.max_sway_degrees == 10,
            c.max_roll_degrees == 45,
            c.target_episode_count == 120,
            c.frame_size_px == 416,
            config_well_formed(c),
    {
        let c = SimulationConfig {
            min_altitude: 8 * MICRO,
            max_altitude: 50 * MICRO,
            fov_degrees: 69,
            tan_half_fov: 687_281,
            marker_size: 4 * MICRO,
            max_sway_degrees: 10,
            max_roll_degrees: 45,
            target_episode_count: 120,
            frame_size_px: 416,
        };
        proof {
            assert(half_frame_width(3_000_000int, 687_281int) == 2_061_843) by {
                vstd::arithmetic::div_mod::lemma_fundamental_div_mod_converse(
                    3_000_000int * 687_281int,
                    1_000_000int,
                    2_061_843int,
                    0int,
                );
            }
            assert(half_frame_width(1_000_000int, 687_281int) == 687_281) by {
                vstd::arithmetic::div_mod::lemma_fundamental_div_mod_converse(
                    1_000_000int * 687_281int,
                    1_000_000int,
                    687_281int,
                    0int,
                );
            }
        }
        c
    }
}

} // verus!
