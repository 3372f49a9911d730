use scene_timeline::easing::{evaluate_easing, Easing};

fn spring() -> Easing {
    Easing::Spring { mass_mu: 1000, stiffness_mu: 80000, damping_mu: 16000 }
}

#[test]
fn linear_interpolates_exactly() {
    let e = Easing::Linear { duration_ms: 1000 };
    assert_eq!(evaluate_easing(&e, 0, 1000, 0), 0);
    assert_eq!(evaluate_easing(&e, 0, 1000, 500), 500);
    assert_eq!(evaluate_easing(&e, 0, 1000, 250), 250);
    assert_eq!(evaluate_easing(&e, 0, 1000, 1000), 1000);
}

#[test]
fn linear_clamps_outside_its_window() {
    let e = Easing::Linear { duration_ms: 300 };
    assert_eq!(evaluate_easing(&e, 1_080_000, 0, -50), 1_080_000);
    assert_eq!(evaluate_easing(&e, 1_080_000, 0, 0), 1_080_000);
    assert_eq!(evaluate_easing(&e, 1_080_000, 0, 300), 0);
    assert_eq!(evaluate_easing(&e, 1_080_000, 0, 100_000), 0);
}

#[test]
fn linear_descending_ramp() {
    let e = Easing::Linear { duration_ms: 200 };
    assert_eq!(evaluate_easing(&e, 100, -100, 50), 50);
    assert_eq!(evaluate_easing(&e, 100, -100, 150), -50);
}

#[test]
fn linear_zero_duration_is_a_step() {
    let e = Easing::Linear { duration_ms: 0 };
    assert_eq!(evaluate_easing(&e, 7, 9, -1), 7);
    assert_eq!(evaluate_easing(&e, 7, 9, 0), 9);
    assert_eq!(evaluate_easing(&e, 7, 9, 10), 9);
}

#[test]
fn linear_is_idempotent_at_one_time() {
    let e = Easing::Linear { duration_ms: 700 };
    let first = evaluate_easing(&e, -300, 900, 333);
    let second = evaluate_easing(&e, -300, 900, 333);
    assert_eq!(first, second);
}

#[test]
fn linear_is_monotonic_in_elapsed_time() {
    let up = Easing::Linear { duration_ms: 977 };
    let mut prev = evaluate_easing(&up, -500, 1500, -100);
    for t in [-50i64, 0, 1, 100, 500, 976, 977, 2000] {
        let v = evaluate_easing(&up, -500, 1500, t);
        assert!(v >= prev);
        prev = v;
    }
    let down = Easing::Linear { duration_ms: 977 };
    let mut prev = evaluate_easing(&down, 1500, -500, -100);
    for t in [-50i64, 0, 1, 100, 500, 976, 977, 2000] {
        let v = evaluate_easing(&down, 1500, -500, t);
        assert!(v <= prev);
        prev = v;
    }
}

#[test]
fn spring_starts_at_from() {
    let e = spring();
    assert_eq!(evaluate_easing(&e, 16_000, 0, -10), 16_000);
    assert_eq!(evaluate_easing(&e, 16_000, 0, 0), 16_000);
}

#[test]
fn spring_is_idempotent_at_one_time() {
    let e = spring();
    let first = evaluate_easing(&e, 16_000, 0, 750);
    let second = evaluate_easing(&e, 16_000, 0, 750);
    assert_eq!(first, second);
}

#[test]
fn spring_converges_to_its_target() {
    let e = spring();
    let to: i64 = 0;
    let mut prev = (evaluate_easing(&e, 16_000, to, 3000) - to).abs();
    for t in [4000i64, 5000, 6000, 8000, 10_000] {
        let residual = (evaluate_easing(&e, 16_000, to, t) - to).abs();
        assert!(residual <= prev);
        prev = residual;
    }
    assert!(prev <= 100);
}

#[test]
fn spring_converges_upward_too() {
    let e = Easing::Spring { mass_mu: 1000, stiffness_mu: 80_000, damping_mu: 16_000 };
    let to: i64 = 12_000;
    let late = evaluate_easing(&e, 100, to, 10_000);
    assert!((late - to).abs() <= 100);
}
