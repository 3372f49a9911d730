use scene_timeline::easing::Easing;
use scene_timeline::keyframes::{Keyframe, KeyframeTimeline};

fn linear(ms: u32) -> Easing {
    Easing::Linear { duration_ms: ms }
}

#[test]
fn before_first_keyframe_returns_its_from() {
    let tl = KeyframeTimeline::new(vec![
        Keyframe { start_ms: 1000, from_mu: 100, to_mu: 200, easing: linear(500) },
    ]);
    assert_eq!(tl.evaluate(-5000), 100);
    assert_eq!(tl.evaluate(0), 100);
    assert_eq!(tl.evaluate(999), 100);
}

#[test]
fn inside_the_window_the_ramp_runs() {
    let tl = KeyframeTimeline::new(vec![
        Keyframe { start_ms: 1000, from_mu: 100, to_mu: 200, easing: linear(500) },
    ]);
    assert_eq!(tl.evaluate(1250), 150);
    assert_eq!(tl.evaluate(1500), 200);
}

#[test]
fn far_beyond_a_last_linear_keyframe_returns_its_to() {
    let tl = KeyframeTimeline::new(vec![
        Keyframe { start_ms: 0, from_mu: 1_080_000, to_mu: 0, easing: linear(300) },
        Keyframe { start_ms: 9700, from_mu: 0, to_mu: -1_080_000, easing: linear(300) },
    ]);
    assert_eq!(tl.evaluate(10_000), -1_080_000);
    assert_eq!(tl.evaluate(500_000), -1_080_000);
}

#[test]
fn far_beyond_a_last_spring_keyframe_sits_at_its_converged_value() {
    let spring = Easing::Spring { mass_mu: 1000, stiffness_mu: 80_000, damping_mu: 16_000 };
    let tl = KeyframeTimeline::new(vec![
        Keyframe { start_ms: 2000, from_mu: 16_000, to_mu: 0, easing: spring },
    ]);
    let late = tl.evaluate(30_000);
    assert!(late.abs() <= 100);
    assert_eq!(tl.evaluate(60_000), late);
}

#[test]
fn multi_phase_animation_picks_the_last_started_keyframe() {
    let tl = KeyframeTimeline::new(vec![
        Keyframe { start_ms: 0, from_mu: 1_080_000, to_mu: 0, easing: linear(300) },
        Keyframe { start_ms: 9700, from_mu: 0, to_mu: -1_080_000, easing: linear(300) },
    ]);
    // mid-enter: half the slide done
    assert_eq!(tl.evaluate(150), 540_000);
    // between the phases: the enter ramp has finished
    assert_eq!(tl.evaluate(5000), 0);
    // mid-exit
    assert_eq!(tl.evaluate(9850), -540_000);
}

#[test]
fn empty_timeline_is_zero_and_one_keyframe_is_single_phase() {
    let empty = KeyframeTimeline::new(Vec::new());
    assert_eq!(empty.evaluate(123), 0);
    let constant = KeyframeTimeline::new(vec![
        Keyframe { start_ms: 0, from_mu: 42, to_mu: 42, easing: linear(100) },
    ]);
    assert_eq!(constant.evaluate(-1), 42);
    assert_eq!(constant.evaluate(50), 42);
    assert_eq!(constant.evaluate(5000), 42);
}
