//! Easing functions: pure maps from elapsed time to an animated value.
//!
//! Values are fixed-point numbers in thousandths of a unit ("mu"),
//! times are integer milliseconds. A linear ramp interpolates
//! `from..to` over a fixed duration; a damped spring treats `from..to`
//! as a one-dimensional mass-spring-damper released from rest at
//! `from` with target `to`, advanced by a semi-implicit Euler
//! integrator with a one-millisecond step.
use vstd::prelude::*;
use vstd::arithmetic::div_mod::{lemma_div_is_ordered, lemma_div_multiples_vanish};
use vstd::arithmetic::mul::{lemma_mul_inequality, lemma_mul_is_commutative, lemma_mul_nonnegative, lemma_mul_upper_bound};

verus! {

/// Largest magnitude of an animated value, in thousandths of a unit.
pub const VALUE_LIMIT: i64 = 0x4000_0000;

/// Largest spring parameter (mass, stiffness or damping), in
/// thousandths of a unit.
pub const PARAM_LIMIT: i64 = 100_000_000;

/// The spring integrator clamps its position and velocity to this
/// magnitude, so its arithmetic stays far from `i64` overflow. Sane
/// inputs never come near the clamp.
pub const STATE_LIMIT: i64 = 0x8000_0000;

/// How an animated value moves from `from` to `to` over elapsed time.
#[derive(Clone, Copy, Debug)]
pub enum Easing {
    /// Constant-speed ramp lasting `duration_ms` milliseconds; the
    /// value clamps to `from` before the ramp and to `to` after it.
    Linear { duration_ms: u32 },
    /// Damped harmonic oscillator `x'' = -(k/m)(x - to) - (c/m) x'`
    /// with `x(0) = from`, `x'(0) = 0`; parameters in thousandths.
    Spring { mass_mu: i64, stiffness_mu: i64, damping_mu: i64 },
}

/// A spring needs strictly positive mass, stiffness and damping, and
/// the fixed-point arithmetic needs them bounded.
pub open spec fn easing_wf(e: Easing) -> bool {
    match e {
        Easing::Linear { .. } => true,
        Easing::Spring { mass_mu, stiffness_mu, damping_mu } => {
            &&& 1 <= mass_mu <= PARAM_LIMIT
            &&& 1 <= stiffness_mu <= PARAM_LIMIT
            &&& 1 <= damping_mu <= PARAM_LIMIT
        },
    }
}

pub open spec fn clamp_spec(x: int, lo: int, hi: int) -> int {
    if x < lo {
        lo
    } else if x > hi {
        hi
    } else {
        x
    }
}

/// Division rounding toward zero, for a positive divisor; this is what
/// the executable `/` on signed machine integers computes.
pub open spec fn div_trunc(a: int, b: int) -> int
    recommends
        b > 0,
{
    if a >= 0 {
        a / b
    } else {
        -((-a) / b)
    }
}

/// Value of a linear ramp from `from` to `to` of length `duration_ms`
/// at `elapsed_ms`: `from + (to - from) * min(1, max(0, elapsed /
/// duration))`, in exact fixed-point arithmetic. A ramp of zero
/// duration is a step at time zero.
pub open spec fn linear_value(from: int, to: int, duration_ms: int, elapsed_ms: int) -> int {
    let t = clamp_spec(elapsed_ms, 0, duration_ms);
    if duration_ms <= 0 {
        if elapsed_ms >= 0 {
            to
        } else {
            from
        }
    } else if to >= from {
        from + ((to - from) * t) / duration_ms
    } else {
        from - ((from - to) * t) / duration_ms
    }
}

/// Acceleration of the spring at position `x` and velocity `v`, in
/// thousandths of a unit per second squared.
pub open spec fn spring_accel(mass: int, stiffness: int, damping: int, to: int, x: int, v: int) -> int {
    -div_trunc(stiffness * (x - to), mass) - div_trunc(damping * v, mass)
}

/// One millisecond of semi-implicit Euler: the velocity takes the
/// acceleration first, then the position takes the new velocity.
/// Both are clamped to `STATE_LIMIT`.
pub open spec fn spring_step(mass: int, stiffness: int, damping: int, to: int, x: int, v: int) -> (int, int) {
    let a = spring_accel(mass, stiffness, damping, to, x, v);
    let v1 = clamp_spec(v + div_trunc(a, 1000), -STATE_LIMIT as int, STATE_LIMIT as int);
    let x1 = clamp_spec(x + div_trunc(v1, 1000), -STATE_LIMIT as int, STATE_LIMIT as int);
    (x1, v1)
}

/// Position and velocity of the spring released from rest at `from`,
/// after `n` whole milliseconds.
pub open spec fn spring_state(mass: int, stiffness: int, damping: int, from: int, to: int, n: nat) -> (int, int)
    decreases n,
{
    if n == 0 {
        (from, 0)
    } else {
        let (x, v) = spring_state(mass, stiffness, damping, from, to, (n - 1) as nat);
        spring_step(mass, stiffness, damping, to, x, v)
    }
}

/// The value of an easing from `from` to `to` at `elapsed_ms`.
/// Negative elapsed time (before the animation starts) gives `from`.
pub open spec fn easing_value(e: Easing, from: int, to: int, elapsed_ms: int) -> int {
    match e {
        Easing::Linear { duration_ms } => linear_value(from, to, duration_ms as int, elapsed_ms),
        Easing::Spring { mass_mu, stiffness_mu, damping_mu } => {
            if elapsed_ms <= 0 {
                from
            } else {
                spring_state(mass_mu as int, stiffness_mu as int, damping_mu as int, from, to, elapsed_ms as nat).0
            }
        },
    }
}

fn clamp_i64(x: i64, lo: i64, hi: i64) -> (r: i64)
    requires
        lo <= hi,
    ensures
        r == clamp_spec(x as int, lo as int, hi as int),
{
    if x < lo {
        lo
    } else if x > hi {
        hi
    } else {
        x
    }
}

fn div_trunc_i64(a: i64, b: i64) -> (r: i64)
    requires
        b > 0,
        a > i64::MIN,
    ensures
        r == div_trunc(a as int, b as int),
{
    if a >= 0 {
        a / b
    } else {
        -((-a) / b)
    }
}

/// One integrator step on machine integers.
fn spring_step_exec(mass: i64, stiffness: i64, damping: i64, to: i64, x: i64, v: i64) -> (r: (i64, i64))
    requires
        1 <= mass <= PARAM_LIMIT,
        1 <= stiffness <= PARAM_LIMIT,
        1 <= damping <= PARAM_LIMIT,
        -VALUE_LIMIT <= to <= VALUE_LIMIT,
        -STATE_LIMIT <= x <= STATE_LIMIT,
        -STATE_LIMIT <= v <= STATE_LIMIT,
    ensures
        (r.0 as int, r.1 as int) == spring_step(mass as int, stiffness as int, damping as int, to as int, x as int, v as int),
        -STATE_LIMIT <= r.0 <= STATE_LIMIT,
        -STATE_LIMIT <= r.1 <= STATE_LIMIT,
{
    proof {
        // |x - to| <= STATE_LIMIT + VALUE_LIMIT and the parameters are
        // at most PARAM_LIMIT, so both torque products fit in i64.
        lemma_mul_inequality(stiffness as int, PARAM_LIMIT as int, STATE_LIMIT + VALUE_LIMIT);
        assert(stiffness * (STATE_LIMIT + VALUE_LIMIT) <= PARAM_LIMIT * (STATE_LIMIT + VALUE_LIMIT)) by (nonlinear_arith)
            requires
                1 <= stiffness <= PARAM_LIMIT,
        ;
        assert(-(PARAM_LIMIT * (STATE_LIMIT + VALUE_LIMIT)) <= stiffness * ((x - to) as int) <= PARAM_LIMIT * (STATE_LIMIT + VALUE_LIMIT)) by (nonlinear_arith)
            requires
                1 <= stiffness <= PARAM_LIMIT,
                -(STATE_LIMIT + VALUE_LIMIT) <= (x - to) as int <= STATE_LIMIT + VALUE_LIMIT,
        ;
        assert(-(PARAM_LIMIT * STATE_LIMIT) <= damping * (v as int) <= PARAM_LIMIT * STATE_LIMIT) by (nonlinear_arith)
            requires
                1 <= damping <= PARAM_LIMIT,
                -STATE_LIMIT <= v as int <= STATE_LIMIT,
        ;
    }
    let diff: i64 = x - to;
    let torque: i64 = stiffness * diff;
    let drag: i64 = damping * v;
    let a: i64 = -div_trunc_i64(torque, mass) - div_trunc_i64(drag, mass);
    let v1: i64 = clamp_i64(v + div_trunc_i64(a, 1000), -STATE_LIMIT, STATE_LIMIT);
    let x1: i64 = clamp_i64(x + div_trunc_i64(v1, 1000), -STATE_LIMIT, STATE_LIMIT);
    (x1, v1)
}

/// Once one integrator step leaves the state unchanged, every later
/// state is the same: the spring has settled and never moves again.
pub proof fn lemma_spring_fixpoint(mass: int, stiffness: int, damping: int, from: int, to: int, n: nat, m: nat)
    requires
        spring_step(mass, stiffness, damping, to, spring_state(mass, stiffness, damping, from, to, n).0, spring_state(mass, stiffness, damping, from, to, n).1) == spring_state(mass, stiffness, damping, from, to, n),
        n <= m,
    ensures
        spring_state(mass, stiffness, damping, from, to, m) == spring_state(mass, stiffness, damping, from, to, n),
    decreases m - n,
{
    if m > n {
        lemma_spring_fixpoint(mass, stiffness, damping, from, to, n, (m - 1) as nat);
    }
}

/// Evaluates an easing at `elapsed_ms`, exactly as `easing_value`
/// states it. The spring integrator stops early once it reaches a
/// settled state, which `lemma_spring_fixpoint` shows is the state at
/// every later time.
pub fn evaluate_easing(e: &Easing, from_mu: i64, to_mu: i64, elapsed_ms: i64) -> (r: i64)
    requires
        easing_wf(*e),
        -VALUE_LIMIT <= from_mu <= VALUE_LIMIT,
        -VALUE_LIMIT <= to_mu <= VALUE_LIMIT,
    ensures
        r == easing_value(*e, from_mu as int, to_mu as int, elapsed_ms as int),
        -STATE_LIMIT <= r <= STATE_LIMIT,
{
    match e {
        Easing::Linear { duration_ms } => {
            let d: i64 = *duration_ms as i64;
            if d == 0 {
                if elapsed_ms >= 0 {
                    to_mu
                } else {
                    from_mu
                }
            } else {
                let t: i64 = clamp_i64(elapsed_ms, 0, d);
                let span: i64 = if to_mu >= from_mu {
                    to_mu - from_mu
                } else {
                    from_mu - to_mu
                };
                proof {
                    lemma_mul_nonnegative(span as int, t as int);
                    lemma_mul_inequality(t as int, d as int, span as int);
                    lemma_mul_is_commutative(span as int, t as int);
                    lemma_mul_is_commutative(span as int, d as int);
                    lemma_mul_upper_bound(span as int, 2 * VALUE_LIMIT, d as int, u32::MAX as int);
                }
                let prod: i64 = span * t;
                let q: i64 = prod / d;
                proof {
                    lemma_div_is_ordered(0, prod as int, d as int);
                    lemma_div_is_ordered(prod as int, (span as int) * (d as int), d as int);
                    lemma_div_multiples_vanish(span as int, d as int);
                    assert(0 <= q <= span);
                }
                if to_mu >= from_mu {
                    from_mu + q
                } else {
                    from_mu - q
                }
            }
        },
        Easing::Spring { mass_mu, stiffness_mu, damping_mu } => {
            let m: i64 = *mass_mu;
            let k: i64 = *stiffness_mu;
            let c: i64 = *damping_mu;
            if elapsed_ms <= 0 {
                from_mu
            } else {
                let mut x: i64 = from_mu;
                let mut v: i64 = 0;
                let mut i: i64 = 0;
                while i < elapsed_ms
                    invariant
                        0 <= i <= elapsed_ms,
                        *e == (Easing::Spring { mass_mu: m, stiffness_mu: k, damping_mu: c }),
                        1 <= m <= PARAM_LIMIT,
                        1 <= k <= PARAM_LIMIT,
                        1 <= c <= PARAM_LIMIT,
                        -VALUE_LIMIT <= from_mu <= VALUE_LIMIT,
                        -VALUE_LIMIT <= to_mu <= VALUE_LIMIT,
                        -STATE_LIMIT <= x <= STATE_LIMIT,
                        -STATE_LIMIT <= v <= STATE_LIMIT,
                        (x as int, v as int) == spring_state(m as int, k as int, c as int, from_mu as int, to_mu as int, i as nat),
                    decreases elapsed_ms - i,
                {
                    let (x1, v1) = spring_step_exec(m, k, c, to_mu, x, v);
                    if x1 == x && v1 == v {
                        proof {
                            assert(spring_step(m as int, k as int, c as int, to_mu as int, x as int, v as int) == (x as int, v as int));
                            lemma_spring_fixpoint(m as int, k as int, c as int, from_mu as int, to_mu as int, i as nat, elapsed_ms as nat);
                            assert(spring_state(m as int, k as int, c as int, from_mu as int, to_mu as int, elapsed_ms as nat).0 == x as int);
                            assert(easing_value(*e, from_mu as int, to_mu as int, elapsed_ms as int) == x as int);
                        }
                        return x;
                    }
                    x = x1;
                    v = v1;
                    i = i + 1;
                }
                proof {
                    assert(i == elapsed_ms);
                    assert(spring_state(m as int, k as int, c as int, from_mu as int, to_mu as int, elapsed_ms as nat).0 == x as int);
                    assert(easing_value(*e, from_mu as int, to_mu as int, elapsed_ms as int) == x as int);
                }
                x
            }
        },
    }
}

/// A linear ramp is monotonic in elapsed time: when the target is
/// above the start the value never decreases as time passes, and when
/// it is below the start the value never increases.
pub proof fn lemma_linear_easing_monotonic(from: int, to: int, duration_ms: int, e1: int, e2: int)
    requires
        e1 <= e2,
    ensures
        from <= to ==> linear_value(from, to, duration_ms, e1) <= linear_value(from, to, duration_ms, e2),
        to <= from ==> linear_value(from, to, duration_ms, e2) <= linear_value(from, to, duration_ms, e1),
{
    let t1 = clamp_spec(e1, 0, duration_ms);
    let t2 = clamp_spec(e2, 0, duration_ms);
    if duration_ms > 0 {
        assert(0 <= t1 <= t2);
        if from <= to {
            lemma_mul_inequality(t1, t2, to - from);
            lemma_mul_is_commutative(to - from, t1);
            lemma_mul_is_commutative(to - from, t2);
            lemma_div_is_ordered((to - from) * t1, (to - from) * t2, duration_ms);
        }
        if to <= from {
            lemma_mul_inequality(t1, t2, from - to);
            lemma_mul_is_commutative(from - to, t1);
            lemma_mul_is_commutative(from - to, t2);
            lemma_div_is_ordered((from - to) * t1, (from - to) * t2, duration_ms);
            if to == from {
                vstd::arithmetic::mul::lemma_mul_basics(t1);
                vstd::arithmetic::mul::lemma_mul_basics(t2);
                vstd::arithmetic::div_mod::lemma_div_basics(duration_ms);
            }
        }
    }
}

/// Evaluating an easing twice at the same elapsed time gives the same
/// value: the result is a function of the inputs alone.
pub proof fn lemma_easing_idempotent(e: Easing, from: int, to: int, elapsed_ms: int, r1: int, r2: int)
    requires
        r1 == easing_value(e, from, to, elapsed_ms),
        r2 == easing_value(e, from, to, elapsed_ms),
    ensures
        r1 == r2,
{
}

/// Truncating division gives zero exactly for numerators smaller in
/// magnitude than the divisor.
proof fn lemma_div_trunc_zero(a: int, b: int)
    requires
        b > 0,
        div_trunc(a, b) == 0,
    ensures
        -b < a < b,
{
    if a >= 0 {
        vstd::arithmetic::div_mod::lemma_fundamental_div_mod(a, b);
        vstd::arithmetic::div_mod::lemma_mod_bound(a, b);
    } else {
        vstd::arithmetic::div_mod::lemma_fundamental_div_mod(-a, b);
        vstd::arithmetic::div_mod::lemma_mod_bound(-a, b);
    }
}

/// A nonnegative truncated quotient scaled back by the divisor stays
/// within one divisor of the numerator.
proof fn lemma_div_trunc_scale(a: int, b: int)
    requires
        b > 0,
    ensures
        b * div_trunc(a, b) <= a < b * (div_trunc(a, b) + 1) || a < 0,
        a <= b * div_trunc(a, b) && b * (div_trunc(a, b) - 1) < a || a >= 0,
{
    if a >= 0 {
        vstd::arithmetic::div_mod::lemma_fundamental_div_mod(a, b);
        vstd::arithmetic::div_mod::lemma_mod_bound(a, b);
        assert(b * (div_trunc(a, b) + 1) == b * div_trunc(a, b) + b) by (nonlinear_arith);
    } else {
        vstd::arithmetic::div_mod::lemma_fundamental_div_mod(-a, b);
        vstd::arithmetic::div_mod::lemma_mod_bound(-a, b);
        assert(b * -((-a) / b) == -(b * ((-a) / b))) by (nonlinear_arith);
        assert(b * (-((-a) / b) - 1) == -(b * ((-a) / b)) - b) by (nonlinear_arith);
    }
}

/// Where the spring integrator settles, it settles close to its
/// target: a state that one step leaves unchanged (away from the
/// safety clamp) has a velocity below one thousandth-unit per
/// millisecond and a position within `1000 * (mass + damping) /
/// stiffness` thousandths of the target. Together with
/// `lemma_spring_fixpoint`, the spring never again leaves that
/// neighborhood of `to`.
pub proof fn lemma_spring_settled_near_target(mass: int, stiffness: int, damping: int, to: int, x: int, v: int)
    requires
        1 <= mass,
        1 <= stiffness,
        1 <= damping,
        -STATE_LIMIT < x < STATE_LIMIT,
        -STATE_LIMIT < v < STATE_LIMIT,
        spring_step(mass, stiffness, damping, to, x, v) == (x, v),
    ensures
        -1000 < v < 1000,
        -(1000 * (mass + damping)) < stiffness * (x - to) < 1000 * (mass + damping),
{
    let a = spring_accel(mass, stiffness, damping, to, x, v);
    let dv = div_trunc(a, 1000);
    // the clamp did not bite, so the raw updates were zero
    assert(clamp_spec(v + dv, -STATE_LIMIT as int, STATE_LIMIT as int) == v);
    assert(v + dv == v);
    let dx = div_trunc(v, 1000);
    assert(clamp_spec(x + dx, -STATE_LIMIT as int, STATE_LIMIT as int) == x);
    assert(x + dx == x);
    lemma_div_trunc_zero(v, 1000);
    lemma_div_trunc_zero(a, 1000);
    // the two torque terms nearly cancel, so the spring term is small
    let d1 = div_trunc(stiffness * (x - to), mass);
    let d2 = div_trunc(damping * v, mass);
    assert(a == -d1 - d2);
    assert(-(damping * 1000) < damping * v < damping * 1000) by (nonlinear_arith)
        requires
            1 <= damping,
            -1000 < v < 1000,
    ;
    lemma_div_trunc_scale(damping * v, mass);
    assert(-(damping * 1000) < mass * d2 < damping * 1000) by (nonlinear_arith)
        requires
            1 <= mass,
            -(damping * 1000) < damping * v < damping * 1000,
            (mass * d2 <= damping * v && damping * v < mass * (d2 + 1)) || damping * v < 0,
            (damping * v <= mass * d2 && mass * (d2 - 1) < damping * v) || damping * v >= 0,
    ;
    lemma_div_trunc_scale(stiffness * (x - to), mass);
    assert(-(1000 * (mass + damping)) < stiffness * (x - to) < 1000 * (mass + damping)) by (nonlinear_arith)
        requires
            1 <= mass,
            -1000 < -d1 - d2 < 1000,
            -(damping * 1000) < mass * d2 < damping * 1000,
            (mass * d1 <= stiffness * (x - to) && stiffness * (x - to) < mass * (d1 + 1)) || stiffness * (x - to) < 0,
            (stiffness * (x - to) <= mass * d1 && mass * (d1 - 1) < stiffness * (x - to)) || stiffness * (x - to) >= 0,
    ;
}

/// Spring convergence, as far as the integer integrator admits it:
/// once the integrator reaches a settled state (one its next step
/// leaves unchanged, away from the safety clamp), the spring's value
/// at every later time is that same value, and it lies within
/// `1000 * (mass + damping) / stiffness` thousandths of the target.
/// The residual is therefore constant — in particular non-increasing —
/// from that time on.
pub proof fn lemma_spring_converged(mass: int, stiffness: int, damping: int, from: int, to: int, n: nat, m: nat)
    requires
        1 <= mass,
        1 <= stiffness,
        1 <= damping,
        n <= m,
        -STATE_LIMIT < spring_state(mass, stiffness, damping, from, to, n).0 < STATE_LIMIT,
        -STATE_LIMIT < spring_state(mass, stiffness, damping, from, to, n).1 < STATE_LIMIT,
        spring_step(mass, stiffness, damping, to, spring_state(mass, stiffness, damping, from, to, n).0, spring_state(mass, stiffness, damping, from, to, n).1) == spring_state(mass, stiffness, damping, from, to, n),
    ensures
        spring_state(mass, stiffness, damping, from, to, m) == spring_state(mass, stiffness, damping, from, to, n),
        -(1000 * (mass + damping)) < stiffness * (spring_state(mass, stiffness, damping, from, to, m).0 - to) < 1000 * (mass + damping),
{
    lemma_spring_fixpoint(mass, stiffness, damping, from, to, n, m);
    let (x, v) = spring_state(mass, stiffness, damping, from, to, n);
    lemma_spring_settled_near_target(mass, stiffness, damping, to, x, v);
}

/// A linear ramp never leaves the closed interval between `from` and
/// `to`.
pub proof fn lemma_linear_easing_bounded(from: int, to: int, duration_ms: int, elapsed_ms: int)
    ensures
        from <= to ==> from <= linear_value(from, to, duration_ms, elapsed_ms) <= to,
        to <= from ==> to <= linear_value(from, to, duration_ms, elapsed_ms) <= from,
{
    let t = clamp_spec(elapsed_ms, 0, duration_ms);
    if duration_ms > 0 {
        if from <= to {
            lemma_mul_nonnegative(to - from, t);
            lemma_mul_inequality(t, duration_ms, to - from);
            lemma_mul_is_commutative(to - from, t);
            lemma_mul_is_commutative(to - from, duration_ms);
            lemma_div_is_ordered(0, (to - from) * t, duration_ms);
            lemma_div_is_ordered((to - from) * t, (to - from) * duration_ms, duration_ms);
            lemma_div_multiples_vanish(to - from, duration_ms);
        } else {
            lemma_mul_nonnegative(from - to, t);
            lemma_mul_inequality(t, duration_ms, from - to);
            lemma_mul_is_commutative(from - to, t);
            lemma_mul_is_commutative(from - to, duration_ms);
            lemma_div_is_ordered(0, (from - to) * t, duration_ms);
            lemma_div_is_ordered((from - to) * t, (from - to) * duration_ms, duration_ms);
            lemma_div_multiples_vanish(from - to, duration_ms);
        }
    }
}

} // verus!
