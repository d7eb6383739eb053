//! Tests of the animation clock: ticking, pausing, restarting, finishing.

use fht_animation::curve::spring;
use fht_animation::{Animation, AnimationCurve, AnimationEvent, AnimationState, Easing};

const SECOND: u64 = 1_000_000_000;

fn spring_params() -> spring::Curve {
    spring::Curve::new(
        0.0f64.to_bits(),
        false,
        1.0f64.to_bits(),
        20.0f64.to_bits(),
        100.0f64.to_bits(),
    )
}

#[test]
fn new_animation_starts_running_with_linear_curve() {
    let a = Animation::new(7 * SECOND, 2 * SECOND);
    assert_eq!(a.state, AnimationState::Running);
    assert_eq!(a.curve, AnimationCurve::Simple(Easing::Linear));
    assert_eq!(a.started_at, 7 * SECOND);
    assert_eq!(a.last_tick, 7 * SECOND);
    assert_eq!(a.duration, 2 * SECOND);
    assert!(!a.is_finished());
}

#[test]
fn linear_animation_over_one_second() {
    // A 1-second animation of a value from 0.0 to 100.0, driven by the clock;
    // the host's interpolation is mirrored here on the reported elapsed time.
    let mut a = Animation::new(0, SECOND);
    let elapsed = a.tick(SECOND / 2).expect("running tick reports elapsed time");
    assert_eq!(elapsed, SECOND / 2);
    let progress = (elapsed as f64 / a.duration as f64).clamp(0.0, 1.0);
    let value = 0.0 + (100.0 - 0.0) * progress;
    assert!((value - 50.0).abs() < 1e-9);
    assert!(!a.is_finished());

    let elapsed = a.tick(SECOND).expect("running tick reports elapsed time");
    assert_eq!(elapsed, SECOND);
    let progress = (elapsed as f64 / a.duration as f64).clamp(0.0, 1.0);
    let value = 0.0 + (100.0 - 0.0) * progress;
    assert_eq!(value, 100.0);
    assert!(a.is_finished());
}

#[test]
fn finished_exactly_when_elapsed_reaches_duration() {
    let mut a = Animation::new(0, SECOND);
    a.tick(SECOND - 1);
    assert!(!a.is_finished());
    a.tick(SECOND);
    assert!(a.is_finished());
    let mut b = Animation::new(5, SECOND);
    b.tick(5 + SECOND + 123);
    assert!(b.is_finished());
}

#[test]
fn pause_freezes_the_clock_and_shifts_the_origin() {
    // Construct at t = 0 with a 1 s duration; tick at 0.3 s, pause, tick at
    // 0.8 s, resume, tick at 1.0 s: the animation sees 0.5 s elapsed.
    let mut a = Animation::new(0, SECOND);
    let elapsed = a.tick(3 * SECOND / 10).unwrap();
    assert_eq!(elapsed, 3 * SECOND / 10);

    a.set_state(AnimationState::Paused);
    let paused = a.tick(8 * SECOND / 10);
    assert!(paused.is_none());
    assert_eq!(a.started_at, 5 * SECOND / 10);
    assert_eq!(a.elapsed_nanos(), 3 * SECOND / 10);

    a.set_state(AnimationState::Running);
    let elapsed = a.tick(SECOND).unwrap();
    assert_eq!(elapsed, 5 * SECOND / 10);
    assert!(!a.is_finished());
}

#[test]
fn paused_tick_absorbs_backward_time() {
    let mut a = Animation::new(SECOND, SECOND);
    a.tick(2 * SECOND);
    a.set_state(AnimationState::Paused);
    a.tick(SECOND / 2);
    assert_eq!(a.last_tick, SECOND / 2);
    assert_eq!(a.elapsed_nanos(), SECOND);
}

#[test]
fn pausing_is_invisible_once_the_interval_is_removed() {
    // Two identical animations; one pauses for 0.7 s. After resuming, a tick
    // sees exactly what the unpaused one sees at the timestamp with the pause
    // interval taken out.
    let mut paused = Animation::new(100, 10 * SECOND);
    let mut plain = Animation::new(100, 10 * SECOND);
    paused.tick(2 * SECOND);
    plain.tick(2 * SECOND);

    paused.set_state(AnimationState::Paused);
    paused.tick(2 * SECOND + 7 * SECOND / 10);
    paused.set_state(AnimationState::Running);

    let resumed = paused.tick(4 * SECOND).unwrap();
    let unpaused = plain.tick(4 * SECOND - 7 * SECOND / 10).unwrap();
    assert_eq!(resumed, unpaused);
}

#[test]
fn repeated_pauses_accumulate_origin_shifts() {
    let mut a = Animation::new(0, 10 * SECOND);
    for round in 1..=3u64 {
        a.set_state(AnimationState::Paused);
        a.tick(round * 2 * SECOND);
        a.set_state(AnimationState::Running);
        a.tick(round * 2 * SECOND + SECOND);
    }
    assert_eq!(a.elapsed_nanos(), 3 * SECOND);
    assert_eq!(a.started_at, 4 * SECOND);
}

#[test]
fn restart_moves_both_timestamps() {
    let mut a = Animation::new(0, SECOND);
    a.tick(3 * SECOND);
    assert!(a.is_finished());
    a.restart(5 * SECOND);
    assert_eq!(a.started_at, 5 * SECOND);
    assert_eq!(a.last_tick, 5 * SECOND);
    assert!(!a.is_finished());
}

#[test]
fn set_duration_is_ignored_for_spring_curves() {
    let mut a = Animation::new(0, SECOND);
    a.set_duration(2 * SECOND);
    assert_eq!(a.duration, 2 * SECOND);

    a.set_curve(AnimationCurve::Spring(spring_params()), 3 * SECOND / 2);
    assert_eq!(a.duration, 3 * SECOND / 2);
    a.set_duration(9 * SECOND);
    assert_eq!(a.duration, 3 * SECOND / 2);
    let a = a.with_duration(9 * SECOND);
    assert_eq!(a.duration, 3 * SECOND / 2);
}

#[test]
fn set_curve_keeps_duration_for_non_spring_curves() {
    let mut a = Animation::new(0, SECOND);
    a.set_curve(AnimationCurve::Simple(Easing::EaseInOut), 7 * SECOND);
    assert_eq!(a.duration, SECOND);
    assert_eq!(a.curve, AnimationCurve::Simple(Easing::EaseInOut));
    let a = a.with_curve(AnimationCurve::Spring(spring_params()), 7 * SECOND);
    assert_eq!(a.duration, 7 * SECOND);
}

#[test]
fn update_dispatches_events() {
    let mut a = Animation::new(0, SECOND);
    let elapsed = a.update(AnimationEvent::Tick(SECOND / 4));
    assert_eq!(elapsed, Some(SECOND / 4));

    let none = a.update(AnimationEvent::SetState(AnimationState::Paused));
    assert!(none.is_none());
    assert_eq!(a.state, AnimationState::Paused);

    let before = a;
    let none = a.update(AnimationEvent::Finished);
    assert!(none.is_none());
    assert_eq!(a, before);

    let none = a.update(AnimationEvent::Tick(SECOND));
    assert!(none.is_none());
    assert_eq!(a.elapsed_nanos(), SECOND / 4);
}

#[test]
fn toggled_swaps_the_states() {
    assert_eq!(AnimationState::Running.toggled(), AnimationState::Paused);
    assert_eq!(AnimationState::Paused.toggled(), AnimationState::Running);
    assert_eq!(AnimationState::Running.toggled().toggled(), AnimationState::Running);
}

#[test]
fn with_state_replaces_only_the_state() {
    let a = Animation::new(11, 22).with_state(AnimationState::Paused);
    assert_eq!(a.state, AnimationState::Paused);
    assert_eq!(a.started_at, 11);
    assert_eq!(a.duration, 22);
}
