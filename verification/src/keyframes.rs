//! Keyframe timelines: an ordered list of keyframes, each anchored at
//! an absolute scene-local start time with a `from -> to` value change
//! and an easing function.
//!
//! Evaluation selects the last keyframe whose start time is at or
//! before the query time and evaluates its easing at the elapsed time
//! since that start; before the first keyframe the value is the first
//! keyframe's `from`. Zero or one keyframe degenerates to a constant
//! or a single-phase animation.
use vstd::prelude::*;
use crate::easing::{Easing, easing_value, easing_wf, evaluate_easing, linear_value, STATE_LIMIT, VALUE_LIMIT};
use vstd::arithmetic::div_mod::lemma_div_multiples_vanish;
use vstd::arithmetic::mul::lemma_mul_is_commutative;

verus! {

/// Largest magnitude of a keyframe start or query time, in
/// milliseconds, so that elapsed times stay far inside `i64`.
pub const TIME_LIMIT: i64 = 0x4_0000_0000_0000;

/// A value change starting at an absolute scene-local time: the value
/// eases from `from_mu` to `to_mu` beginning at `start_ms`.
#[derive(Clone, Copy, Debug)]
pub struct Keyframe {
    pub start_ms: i64,
    pub from_mu: i64,
    pub to_mu: i64,
    pub easing: Easing,
}

pub open spec fn keyframe_wf(k: Keyframe) -> bool {
    &&& easing_wf(k.easing)
    &&& -VALUE_LIMIT <= k.from_mu <= VALUE_LIMIT
    &&& -VALUE_LIMIT <= k.to_mu <= VALUE_LIMIT
    &&& -TIME_LIMIT <= k.start_ms <= TIME_LIMIT
}

pub open spec fn keyframes_sorted(s: Seq<Keyframe>) -> bool {
    forall|i: int, j: int| 0 <= i <= j < s.len() ==> s[i].start_ms <= s[j].start_ms
}

pub open spec fn timeline_wf(s: Seq<Keyframe>) -> bool {
    &&& forall|i: int| 0 <= i < s.len() ==> keyframe_wf(s[i])
    &&& keyframes_sorted(s)
}

/// Index of the last keyframe whose start time is at or before `q`,
/// or `-1` when every keyframe starts after `q`.
pub open spec fn active_index(s: Seq<Keyframe>, q: int) -> int
    decreases s.len(),
{
    if s.len() == 0 {
        -1
    } else if s[s.len() - 1].start_ms <= q {
        s.len() - 1
    } else {
        active_index(s.drop_last(), q)
    }
}

/// The value of a timeline at query time `q`: the active keyframe's
/// easing evaluated at the time elapsed since that keyframe started;
/// the first keyframe's `from` before any keyframe has started; zero
/// for an empty timeline.
pub open spec fn timeline_value(s: Seq<Keyframe>, q: int) -> int {
    if s.len() == 0 {
        0
    } else {
        let i = active_index(s, q);
        if i < 0 {
            s[0].from_mu as int
        } else {
            easing_value(s[i].easing, s[i].from_mu as int, s[i].to_mu as int, q - s[i].start_ms)
        }
    }
}

/// When `s[j]` has started by time `q` and every later keyframe starts
/// after `q`, then `j` is the active index.
proof fn lemma_active_index_is(s: Seq<Keyframe>, q: int, j: int)
    requires
        0 <= j < s.len(),
        s[j].start_ms <= q,
        forall|t: int| j < t < s.len() ==> s[t].start_ms > q,
    ensures
        active_index(s, q) == j,
    decreases s.len(),
{
    if j < s.len() - 1 {
        lemma_active_index_is(s.drop_last(), q, j);
    }
}

/// When every keyframe starts after `q`, no keyframe is active.
proof fn lemma_active_index_none(s: Seq<Keyframe>, q: int)
    requires
        forall|t: int| 0 <= t < s.len() ==> s[t].start_ms > q,
    ensures
        active_index(s, q) == -1,
    decreases s.len(),
{
    if s.len() > 0 {
        lemma_active_index_none(s.drop_last(), q);
    }
}

/// An ordered list of keyframes, evaluated as one animation.
#[derive(Debug)]
pub struct KeyframeTimeline {
    frames: Vec<Keyframe>,
}

impl View for KeyframeTimeline {
    type V = Seq<Keyframe>;

    closed spec fn view(&self) -> Seq<Keyframe> {
        self.frames@
    }
}

impl KeyframeTimeline {
    /// Builds a timeline from keyframes already ordered by start time.
    pub fn new(frames: Vec<Keyframe>) -> (r: KeyframeTimeline)
        requires
            timeline_wf(frames@),
        ensures
            r@ == frames@,
    {
        KeyframeTimeline { frames }
    }

    pub fn len(&self) -> (r: usize)
        ensures
            r == self@.len(),
    {
        self.frames.len()
    }

    /// The timeline's value at `query_ms`, exactly as `timeline_value`
    /// states it.
    pub fn evaluate(&self, query_ms: i64) -> (r: i64)
        requires
            timeline_wf(self@),
            -TIME_LIMIT <= query_ms <= TIME_LIMIT,
        ensures
            r == timeline_value(self@, query_ms as int),
            -STATE_LIMIT <= r <= STATE_LIMIT,
    {
        let n = self.frames.len();
        let mut j = n;
        while j > 0
            invariant
                timeline_wf(self@),
                -TIME_LIMIT <= query_ms <= TIME_LIMIT,
                0 <= j <= n,
                n == self@.len(),
                forall|t: int| j <= t < n ==> self@[t].start_ms > query_ms,
            decreases j,
        {
            let kf = &self.frames[j - 1];
            if kf.start_ms <= query_ms {
                proof {
                    lemma_active_index_is(self@, query_ms as int, j - 1);
                }
                return evaluate_easing(&kf.easing, kf.from_mu, kf.to_mu, query_ms - kf.start_ms);
            }
            j = j - 1;
        }
        proof {
            lemma_active_index_none(self@, query_ms as int);
        }
        if n == 0 {
            0
        } else {
            self.frames[0].from_mu
        }
    }
}

/// A linear ramp that has run for its whole duration (or longer) sits
/// exactly at its target.
pub proof fn lemma_linear_easing_terminal(from: int, to: int, duration_ms: int, elapsed_ms: int)
    requires
        duration_ms >= 0,
        elapsed_ms >= duration_ms,
    ensures
        linear_value(from, to, duration_ms, elapsed_ms) == to,
{
    if duration_ms > 0 {
        if to >= from {
            lemma_mul_is_commutative(to - from, duration_ms);
            lemma_div_multiples_vanish(to - from, duration_ms);
        } else {
            lemma_mul_is_commutative(from - to, duration_ms);
            lemma_div_multiples_vanish(from - to, duration_ms);
        }
    }
}

/// Before the first keyframe's start time the timeline's value is
/// exactly the first keyframe's `from`.
pub proof fn lemma_timeline_before_first(s: Seq<Keyframe>, q: int)
    requires
        timeline_wf(s),
        s.len() > 0,
        q < s[0].start_ms,
    ensures
        timeline_value(s, q) == s[0].from_mu,
{
    assert forall|t: int| 0 <= t < s.len() implies s[t].start_ms > q by {
        assert(s[0].start_ms <= s[t].start_ms);
    }
    lemma_active_index_none(s, q);
}

/// At or beyond the end of a last linear keyframe's window the
/// timeline's value is exactly that keyframe's `to`.
pub proof fn lemma_timeline_after_last_linear(s: Seq<Keyframe>, q: int)
    requires
        timeline_wf(s),
        s.len() > 0,
        s.last().easing is Linear,
        q >= s.last().start_ms + s.last().easing->duration_ms,
    ensures
        timeline_value(s, q) == s.last().to_mu,
{
    let j = s.len() - 1;
    lemma_active_index_is(s, q, j);
    lemma_linear_easing_terminal(s[j].from_mu as int, s[j].to_mu as int, s[j].easing->duration_ms as int, q - s[j].start_ms);
}

} // verus!
