//! Core of a synthetic-dataset generator for an object detector.
//!
//! Each episode places a target marker at a randomized camera pose and
//! turns the marker's projected geometry into a normalized training label,
//! or flags the episode invalid and books a retry.  The crate holds the
//! randomized-geometry and labeling-decision logic: the scene parameter
//! sampler, the projected-geometry model, the label synthesizer, the
//! episode counter, the dataset consistency sweep, and the plain-text
//! encoding of labels and file names.  Scene construction, rendering and
//! asynchronous image export belong to an external renderer and are
//! specified only at their interface boundary.
//!
//! All fractional quantities (altitudes, world coordinates, viewport and
//! normalized coordinates, brightness) are carried as signed integers
//! counting millionths of a unit, so that every rule about them is exact.

use vstd::prelude::*;

pub mod config;
pub mod counter;
pub mod encode;
pub mod episode;
pub mod rng;
pub mod geometry;
pub mod label;
pub mod sampler;
pub mod sweep;
pub mod scene;

verus! {

/// Fixed-point scale: the number of carried sub-units per unit.
pub const MICRO: i64 = 1_000_000;

} // verus!
