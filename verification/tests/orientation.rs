//! The orientation tracker: smoothing behaviour and classification.

use compass::config::SensitivityRange;
use compass::tracker::{Orientation, Tracker};
use compass::vector::{convert, AxisTriple, NormalizedVector};

/// Half a g, in stored units of 1/32767 g.
const HALF_G: i32 = 16384;

#[test]
fn first_update_moves_by_the_alpha_fraction() {
    let mut tracker = Tracker::new(1, 5, HALF_G);
    let sample = NormalizedVector { x: 32768, y: 0, z: -1000 };
    tracker.update(&sample);
    assert_eq!(tracker.smoothed.x, 6553); // 32768 / 5, rounded toward zero
    assert_eq!(tracker.smoothed.y, 0);
    assert_eq!(tracker.smoothed.z, -200);
}

#[test]
fn constant_input_converges_for_several_alphas() {
    let target = NormalizedVector { x: 32768, y: -32768, z: 5 };
    for (num, den) in [(1u32, 5u32), (1, 2), (4, 5), (1, 100), (99, 100)] {
        let mut tracker = Tracker::new(num, den, HALF_G);
        for _ in 0..200_000 {
            tracker.update(&target);
        }
        // After enough iterations the gap is below den / num.
        let quantum = (den / num + 1) as i32;
        assert!((target.x - tracker.smoothed.x).abs() < quantum);
        assert!((target.y - tracker.smoothed.y).abs() < quantum);
        assert!((target.z - tracker.smoothed.z).abs() < quantum);
    }
}

#[test]
fn smoothing_never_overshoots() {
    let target = NormalizedVector { x: 1000, y: -1000, z: 0 };
    let mut tracker = Tracker::new(4, 5, HALF_G);
    for _ in 0..100 {
        tracker.update(&target);
        assert!(tracker.smoothed.x <= 1000);
        assert!(tracker.smoothed.y >= -1000);
    }
}

#[test]
fn trackers_are_independent() {
    let mut first = Tracker::new(1, 5, HALF_G);
    let mut second = Tracker::new(1, 5, HALF_G);
    let up = NormalizedVector { x: 0, y: 0, z: 32768 };
    let down = NormalizedVector { x: 0, y: 0, z: -32768 };
    for _ in 0..50 {
        first.update(&up);
        second.update(&down);
    }
    assert!(first.smoothed.z > 0);
    assert!(second.smoothed.z < 0);
    assert_eq!(first.smoothed.z, -second.smoothed.z);
}

#[test]
fn classifies_dominant_axes_with_signs() {
    let mut tracker = Tracker::new(9, 10, HALF_G);
    let face_up = NormalizedVector { x: 100, y: -50, z: 32768 };
    assert_eq!(tracker.update(&face_up), Orientation::FaceUp);

    let mut tracker = Tracker::new(9, 10, HALF_G);
    let face_down = NormalizedVector { x: 100, y: -50, z: -32768 };
    assert_eq!(tracker.update(&face_down), Orientation::FaceDown);

    let mut tracker = Tracker::new(9, 10, HALF_G);
    let tilt = convert(&AxisTriple { x: -20000, y: 300, z: 400 }, SensitivityRange::G2);
    assert_eq!(tracker.update(&tilt), Orientation::EdgeNegX);

    let mut tracker = Tracker::new(9, 10, HALF_G);
    let tilt = convert(&AxisTriple { x: 300, y: 20000, z: 400 }, SensitivityRange::G2);
    assert_eq!(tracker.update(&tilt), Orientation::EdgePosY);
}

#[test]
fn weak_signal_is_indeterminate() {
    let mut tracker = Tracker::new(9, 10, HALF_G);
    let weak = NormalizedVector { x: 10, y: -20, z: 30 };
    assert_eq!(tracker.update(&weak), Orientation::Indeterminate);
    let zero = NormalizedVector { x: 0, y: 0, z: 0 };
    assert_eq!(tracker.update(&zero), Orientation::Indeterminate);
}

#[test]
fn a_single_update_of_a_slow_tracker_stays_indeterminate() {
    // With alpha = 1/5 a single strong sample moves the estimate only a
    // fifth of the way, short of the half-g threshold.
    let mut tracker = Tracker::new(1, 5, HALF_G);
    let strong = NormalizedVector { x: 0, y: 0, z: 32768 };
    assert_eq!(tracker.update(&strong), Orientation::Indeterminate);
    // Fed repeatedly, the estimate crosses the threshold.
    let mut last = Orientation::Indeterminate;
    for _ in 0..20 {
        last = tracker.update(&strong);
    }
    assert_eq!(last, Orientation::FaceUp);
}

#[test]
fn orientation_getter_matches_last_update() {
    let mut tracker = Tracker::new(9, 10, HALF_G);
    let sample = NormalizedVector { x: -32768, y: 0, z: 0 };
    let from_update = tracker.update(&sample);
    assert_eq!(tracker.orientation(), from_update);
}
