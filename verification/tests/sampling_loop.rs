//! The sampling loop: LED mapping, fault tolerance, and the end-to-end
//! scenarios from raw reading to indicator state.

use compass::channel::{ChannelEvent, RawChannel};
use compass::compass::{Compass, DEVICE_IDENTITY};
use compass::sampling::{led_output, loop_step, run, VisualOutput};
use compass::tracker::Tracker;
use compass::vector::NormalizedVector;

/// Half a g, in stored units of 1/32767 g.
const HALF_G: i32 = 16384;

fn all_off() -> VisualOutput {
    VisualOutput { red: false, green: false, orange: false, blue: false }
}

fn sensor_with(script: Vec<ChannelEvent>) -> Compass {
    let mut full = vec![ChannelEvent::Identity(DEVICE_IDENTITY)];
    full.extend(script);
    Compass::new(RawChannel::new(full)).expect("handshake must succeed")
}

fn fresh_tracker() -> Tracker {
    Tracker::new(1, 5, HALF_G)
}

#[test]
fn led_mapping_covers_all_sign_combinations() {
    let v = |x: i32, y: i32| NormalizedVector { x, y, z: 0 };
    assert_eq!(
        led_output(&v(5, 5)),
        VisualOutput { red: true, green: false, orange: true, blue: false }
    );
    assert_eq!(
        led_output(&v(5, -5)),
        VisualOutput { red: true, green: false, orange: false, blue: true }
    );
    assert_eq!(
        led_output(&v(-5, 5)),
        VisualOutput { red: false, green: true, orange: true, blue: false }
    );
    assert_eq!(
        led_output(&v(-5, -5)),
        VisualOutput { red: false, green: true, orange: false, blue: true }
    );
}

#[test]
fn zero_counts_as_the_positive_branch() {
    let v = NormalizedVector { x: 0, y: 0, z: 123 };
    assert_eq!(
        led_output(&v),
        VisualOutput { red: true, green: false, orange: true, blue: false }
    );
}

#[test]
fn positive_x_reading_selects_the_positive_x_indicator() {
    // Raw (16384, 0, 0) at the 2 g default range is one g along positive x.
    let mut compass = sensor_with(vec![ChannelEvent::Sample(16384, 0, 0)]);
    let mut tracker = fresh_tracker();
    let out = loop_step(&mut compass, &mut tracker, all_off());
    assert!(out.red && !out.green);
    assert!(out.orange && !out.blue); // y is zero: the positive branch
    assert_eq!(tracker.smoothed.x, 6553);
}

#[test]
fn negative_y_reading_selects_the_negative_y_indicator() {
    // Raw (0, -16384, 0) at the 2 g default range is minus one g along y.
    let mut compass = sensor_with(vec![ChannelEvent::Sample(0, -16384, 0)]);
    let mut tracker = fresh_tracker();
    let out = loop_step(&mut compass, &mut tracker, all_off());
    assert!(out.blue && !out.orange);
    assert!(out.red && !out.green); // x is zero: the positive branch
}

#[test]
fn failed_read_reproduces_the_previous_output() {
    let previous = VisualOutput { red: false, green: true, orange: true, blue: false };
    for fault in [ChannelEvent::Nack, ChannelEvent::Stale] {
        let mut compass = sensor_with(vec![fault]);
        let mut tracker = fresh_tracker();
        let out = loop_step(&mut compass, &mut tracker, previous);
        assert_eq!(out, previous);
        assert_eq!(tracker.smoothed, NormalizedVector { x: 0, y: 0, z: 0 });
    }
}

#[test]
fn alternating_failures_never_escape_and_retain_the_last_output() {
    let mut compass = sensor_with(vec![
        ChannelEvent::Sample(10000, -10000, 0),
        ChannelEvent::Nack,
        ChannelEvent::Sample(-10000, 10000, 0),
        ChannelEvent::Stale,
        ChannelEvent::Nack,
    ]);
    let mut tracker = fresh_tracker();

    let first = loop_step(&mut compass, &mut tracker, all_off());
    assert_eq!(
        first,
        VisualOutput { red: true, green: false, orange: false, blue: true }
    );

    let second = loop_step(&mut compass, &mut tracker, first);
    assert_eq!(second, first); // bus failure: last output reproduced

    let third = loop_step(&mut compass, &mut tracker, second);
    assert_eq!(
        third,
        VisualOutput { red: false, green: true, orange: true, blue: false }
    );

    let fourth = loop_step(&mut compass, &mut tracker, third);
    assert_eq!(fourth, third); // device fault: last output reproduced

    let fifth = loop_step(&mut compass, &mut tracker, fourth);
    assert_eq!(fifth, third); // exhausted bus: still the last output
}

#[test]
fn bounded_run_equals_the_same_steps_taken_singly() {
    let script = vec![
        ChannelEvent::Sample(10000, 0, 0),
        ChannelEvent::Nack,
        ChannelEvent::Sample(-10000, 0, 0),
        ChannelEvent::Sample(-10000, 5, 0),
    ];
    let mut compass_a = sensor_with(script.clone());
    let mut tracker_a = fresh_tracker();
    let out_a = run(&mut compass_a, &mut tracker_a, all_off(), 4);

    let mut compass_b = sensor_with(script);
    let mut tracker_b = fresh_tracker();
    let mut out_b = all_off();
    for _ in 0..4 {
        out_b = loop_step(&mut compass_b, &mut tracker_b, out_b);
    }

    assert_eq!(out_a, out_b);
    assert_eq!(tracker_a.smoothed, tracker_b.smoothed);
}

#[test]
fn run_on_a_dead_bus_keeps_the_initial_output() {
    let mut compass = sensor_with(vec![ChannelEvent::Nack, ChannelEvent::Nack]);
    let mut tracker = fresh_tracker();
    let shown = VisualOutput { red: true, green: false, orange: false, blue: true };
    let out = run(&mut compass, &mut tracker, shown, 10);
    assert_eq!(out, shown);
    assert_eq!(tracker.smoothed, NormalizedVector { x: 0, y: 0, z: 0 });
}

#[test]
fn loop_converges_on_a_constantly_repeated_sample() {
    // At the default 2 g range the sample converts to (32768, -16000, 4000).
    let steps = 40_000;
    let script = vec![ChannelEvent::Sample(16384, -8000, 2000); steps];
    let mut compass = sensor_with(script);
    let mut tracker = fresh_tracker(); // alpha = 1/5: gap ends below 5 units
    let out = run(&mut compass, &mut tracker, all_off(), steps);
    assert!((32768 - tracker.smoothed.x).abs() < 5);
    assert!((-16000 - tracker.smoothed.y).abs() < 5);
    assert!((4000 - tracker.smoothed.z).abs() < 5);
    assert_eq!(
        out,
        VisualOutput { red: true, green: false, orange: false, blue: true }
    );
}

#[test]
fn loop_never_writes_configuration() {
    let mut compass = sensor_with(vec![
        ChannelEvent::Sample(1, 2, 3),
        ChannelEvent::Nack,
        ChannelEvent::Stale,
    ]);
    let mut tracker = fresh_tracker();
    let _ = run(&mut compass, &mut tracker, all_off(), 3);
    assert!(compass.issued_writes().is_empty());
    assert_eq!(compass.sample_rate(), 400);
    assert_eq!(compass.accel_range(), 2);
}
