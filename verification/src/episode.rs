//! One tick of the episode controller: synthesize the label for the
//! projected geometry, encode its file text, book the counter, and
//! decide termination.
//!
//! The surrounding loop performs what the core cannot: it asks the
//! renderer to apply the scene and to project the marker's points, it
//! writes the returned text to the episode's label file, it paces the
//! run, and after the exit signal it waits for the export drain and
//! runs the sweep.

use vstd::prelude::*;
use crate::counter::{counter_after, exit_after, EpisodeCounter};
use crate::encode::{label_file_text, render_label};
use crate::geometry::{geometry_bounded, ProjectedGeometry};
use crate::label::{label_decision, synthesize_label};
use crate::scene::SceneConfiguration;

verus! {

/// The advisory pause after each tick, milliseconds: bounds how fast
/// episodes are produced relative to the renderer's export throughput.
pub const PACING_MILLIS: u64 = 500;

/// Runs the decision half of one episode tick.
///
/// Returns the text of the episode's label file — `Some` exactly when
/// the labeling rule accepts the geometry — and whether the run should
/// terminate (the counter is booked first, so the signal compares the
/// pre-increment attempt index against the already adjusted budget).
pub fn process_episode(
    counter: &mut EpisodeCounter,
    g: &ProjectedGeometry,
    scene: &SceneConfiguration,
    frame_size_px: i64,
) -> (r: (Option<Vec<u8>>, bool))
    requires
        geometry_bounded(*g),
        1 <= frame_size_px <= 100_000,
        old(counter).current < u32::MAX,
        old(counter).max < u32::MAX,
    ensures
        ({
            let decision = label_decision(
                *g,
                scene.frame_archetype,
                scene.altitude as int,
                scene.marker_class,
                frame_size_px as int,
            );
            &&& (match r.0 {
                Some(text) => decision is Some && text@ == label_file_text(decision->0),
                None => decision is None,
            })
            &&& *final(counter) == counter_after(*old(counter), decision is Some)
            &&& r.1 == exit_after(*old(counter), decision is Some)
        }),
{
    let label = synthesize_label(g, scene, frame_size_px);
    let (text, label_written) = match label {
        Some(l) => (Some(render_label(&l)), true),
        None => (None, false),
    };
    let exit_requested = counter.record_episode(label_written);
    (text, exit_requested)
}

} // verus!
