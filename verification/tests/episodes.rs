use field_of_pads::counter::EpisodeCounter;
use field_of_pads::episode::process_episode;
use field_of_pads::geometry::{ProjectedGeometry, ViewportPoint};
use field_of_pads::scene::{FrameArchetype, SceneConfiguration, Sway};

fn point(x: i64, y: i64) -> Option<ViewportPoint> {
    Some(ViewportPoint { x, y })
}

fn visible_geometry() -> ProjectedGeometry {
    ProjectedGeometry {
        center: point(145_600_000, 187_200_000),
        corners: [
            point(83_200_000, 249_600_000),
            point(208_000_000, 208_000_000),
            point(83_200_000, 208_000_000),
            point(208_000_000, 249_600_000),
        ],
    }
}

fn scene(archetype: FrameArchetype, altitude: i64, marker_class: u32) -> SceneConfiguration {
    SceneConfiguration {
        frame_archetype: archetype,
        altitude,
        sway: Sway { yaw_degrees: 0, pitch_degrees: 0, roll_degrees: 0 },
        target_x: 0,
        target_y: 0,
        marker_class,
        ground_tile_id: 0,
        brightness_jitter: 750_000,
    }
}

#[test]
fn invalid_episodes_grow_the_budget() {
    // Starting from current = 1 with a budget of 120, three invalid
    // episodes raise the budget to 123; the run then needs 123 full
    // episodes before the next tick signals termination.
    let invalid_episodes = 3u32;
    let mut c = EpisodeCounter::fresh(120);
    for _ in 0..invalid_episodes {
        let exit = c.record_episode(false);
        assert!(!exit);
    }
    assert_eq!(c.max, 123);
    assert_eq!(c.current, 4);
    let mut attempts = invalid_episodes;
    loop {
        attempts += 1;
        let exit = c.record_episode(true);
        if exit {
            break;
        }
        assert!(attempts < 1000);
    }
    // 123 full episodes complete without a signal; the 124th tick trips it.
    assert_eq!(attempts, 124);
    assert_eq!(c.max, 123);
    assert_eq!(c.current, 125);
}

#[test]
fn exit_is_decided_before_the_final_increment() {
    // With a budget of 1, the first tick compares 1 > 1 and does not
    // exit; the second tick still runs in full and trips the signal.
    let mut c = EpisodeCounter::fresh(1);
    assert!(!c.record_episode(true));
    assert!(c.record_episode(true));
    assert_eq!(c.current, 3);
}

#[test]
fn valid_episode_tick_writes_text_and_advances() {
    let mut c = EpisodeCounter::fresh(120);
    let (text, exit) = process_episode(
        &mut c,
        &visible_geometry(),
        &scene(FrameArchetype::Standard, 30_000_000, 2),
        416,
    );
    assert_eq!(text.unwrap(), b"2 0.35 0.55 0.3 0.3".to_vec());
    assert!(!exit);
    assert_eq!(c.current, 2);
    assert_eq!(c.max, 120);
}

#[test]
fn invalid_episode_tick_books_a_retry() {
    let mut g = visible_geometry();
    g.corners[0] = None;
    let mut c = EpisodeCounter::fresh(120);
    let (text, exit) = process_episode(
        &mut c,
        &g,
        &scene(FrameArchetype::Standard, 30_000_000, 2),
        416,
    );
    assert!(text.is_none());
    assert!(!exit);
    assert_eq!(c.current, 2);
    assert_eq!(c.max, 121);
}
