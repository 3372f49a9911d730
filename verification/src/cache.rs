//! Lazy timeline cache for the scene-transition animation.
//!
//! A transition scene slides in from above, then slides out and skews
//! away just before its end. The exit keyframes' start times depend on
//! the scene's placed duration, which the sequencer knows only after
//! every earlier scene's duration is resolved — so the timelines are
//! built lazily, on the first frame that queries them, and memoized
//! for the scene's whole lifetime. Construction is a pure function of
//! the placement metadata, so every construction from the same
//! metadata yields the same timelines.
use vstd::prelude::*;
use crate::easing::Easing;
use crate::keyframes::{Keyframe, KeyframeTimeline, timeline_wf};
use crate::sequencer::{MAX_FPS, MAX_SCENE_FRAMES, SceneInfo, scene_info_wf};
use crate::{frames_to_millis, lemma_millis_of_frames_bounds, millis_of_frames};
use once_cell::sync::OnceCell;

verus! {

/// How long the slide-out animation lasts, in milliseconds.
pub const EXIT_DURATION_MS: u32 = 300;

/// The horizontal distance a transition scene slides over, in
/// thousandths of a unit (1080 units: the video's width).
pub const SLIDE_DISTANCE_MU: i64 = 1_080_000;

/// The skew angle a scene exits with, in thousandths of a degree.
pub const EXIT_SKEW_MU: i64 = 10_000;

/// The two animations of a scene transition: horizontal translation,
/// and a skew that only scenes with a successor play.
#[derive(Debug)]
pub struct TimelinePair {
    pub translate: KeyframeTimeline,
    pub skew: Option<KeyframeTimeline>,
}

#[verifier::external_type_specification]
#[verifier::external_body]
#[verifier::reject_recursive_types(T)]
pub struct ExOnceCell<T>(OnceCell<T>);

pub assume_specification<T>[ OnceCell::<T>::new ]() -> OnceCell<T>;

/// The linear ramp every transition keyframe eases with.
pub open spec fn transition_easing() -> Easing {
    Easing::Linear { duration_ms: EXIT_DURATION_MS }
}

/// The enter keyframe: slide from one screen above to resting
/// position, starting as the scene starts.
pub open spec fn is_enter_keyframe(k: Keyframe) -> bool {
    &&& k.start_ms == 0
    &&& k.from_mu == SLIDE_DISTANCE_MU
    &&& k.to_mu == 0
    &&& k.easing == transition_easing()
}

/// The exit keyframe: slide from resting position one screen further,
/// starting one exit window before the scene's end (at `dur_ms -
/// 300`).
pub open spec fn is_exit_keyframe(k: Keyframe, dur_ms: int) -> bool {
    &&& k.start_ms == dur_ms - EXIT_DURATION_MS
    &&& k.from_mu == 0
    &&& k.to_mu == -SLIDE_DISTANCE_MU
    &&& k.easing == transition_easing()
}

/// The skew keyframe: lean away while sliding out, over the same exit
/// window.
pub open spec fn is_skew_keyframe(k: Keyframe, dur_ms: int) -> bool {
    &&& k.start_ms == dur_ms - EXIT_DURATION_MS
    &&& k.from_mu == 0
    &&& k.to_mu == EXIT_SKEW_MU
    &&& k.easing == transition_easing()
}

/// Which keyframes the translation timeline holds, ordered by start
/// time: the first scene only exits, the last scene only enters, and
/// every other scene does both.
pub open spec fn translate_timeline_matches(s: Seq<Keyframe>, info: SceneInfo, fps: int) -> bool {
    let dur_ms = millis_of_frames(info.duration_in_frames as int, fps);
    if info.index == 0 {
        s.len() == 1 && is_exit_keyframe(s[0], dur_ms)
    } else if info.is_last {
        s.len() == 1 && is_enter_keyframe(s[0])
    } else if dur_ms >= EXIT_DURATION_MS {
        s.len() == 2 && is_enter_keyframe(s[0]) && is_exit_keyframe(s[1], dur_ms)
    } else {
        s.len() == 2 && is_exit_keyframe(s[0], dur_ms) && is_enter_keyframe(s[1])
    }
}

/// What the whole transition animation of a scene looks like.
pub open spec fn transition_pair_matches(p: TimelinePair, info: SceneInfo, fps: int) -> bool {
    let dur_ms = millis_of_frames(info.duration_in_frames as int, fps);
    &&& translate_timeline_matches(p.translate@, info, fps)
    &&& timeline_wf(p.translate@)
    &&& info.is_last ==> p.skew is None
    &&& !info.is_last ==> (p.skew matches Some(t) && t@.len() == 1 && is_skew_keyframe(t@[0], dur_ms) && timeline_wf(t@))
}

/// Builds the transition timelines for a scene with the given
/// placement. Pure: the result depends on `info` and `fps` alone.
pub fn build_transition_timelines(info: &SceneInfo, fps: u32) -> (r: TimelinePair)
    requires
        scene_info_wf(*info),
        info.duration_in_frames <= MAX_SCENE_FRAMES,
        1 <= fps <= MAX_FPS,
    ensures
        transition_pair_matches(r, *info, fps as int),
{
    let dur_ms_u: u64 = frames_to_millis(info.duration_in_frames, fps);
    proof {
        lemma_millis_of_frames_bounds(info.duration_in_frames as int, fps as int);
        assert(info.duration_in_frames * 1000 <= MAX_SCENE_FRAMES * 1000) by (nonlinear_arith)
            requires
                0 <= info.duration_in_frames <= MAX_SCENE_FRAMES,
        ;
    }
    let dur_ms: i64 = dur_ms_u as i64;
    let exit_start: i64 = dur_ms - (EXIT_DURATION_MS as i64);
    let enter = Keyframe {
        start_ms: 0,
        from_mu: SLIDE_DISTANCE_MU,
        to_mu: 0,
        easing: Easing::Linear { duration_ms: EXIT_DURATION_MS },
    };
    let exit = Keyframe {
        start_ms: exit_start,
        from_mu: 0,
        to_mu: -SLIDE_DISTANCE_MU,
        easing: Easing::Linear { duration_ms: EXIT_DURATION_MS },
    };
    let translate_frames: Vec<Keyframe> = if info.index == 0 {
        vec![exit]
    } else if info.is_last {
        vec![enter]
    } else if exit_start >= 0 {
        vec![enter, exit]
    } else {
        vec![exit, enter]
    };
    let translate = KeyframeTimeline::new(translate_frames);
    let skew: Option<KeyframeTimeline> = if info.is_last {
        Option::None
    } else {
        let skew_frames: Vec<Keyframe> = vec![
            Keyframe {
                start_ms: exit_start,
                from_mu: 0,
                to_mu: EXIT_SKEW_MU,
                easing: Easing::Linear { duration_ms: EXIT_DURATION_MS },
            },
        ];
        Option::Some(KeyframeTimeline::new(skew_frames))
    };
    TimelinePair { translate, skew }
}

/// Redundant construction is idempotent: any two timeline pairs built
/// from the same placement are identical, keyframe for keyframe, so a
/// cache that races to populate may safely keep either result.
pub proof fn lemma_transition_build_idempotent(p1: TimelinePair, p2: TimelinePair, info: SceneInfo, fps: int)
    requires
        transition_pair_matches(p1, info, fps),
        transition_pair_matches(p2, info, fps),
    ensures
        p1.translate@ =~= p2.translate@,
        p1.skew is None <==> p2.skew is None,
        p1.skew matches Some(t1) ==> (p2.skew matches Some(t2) && t1@ =~= t2@),
{
    let dur_ms = millis_of_frames(info.duration_in_frames as int, fps);
    assert forall|i: int| 0 <= i < p1.translate@.len() implies p1.translate@[i] == p2.translate@[i] by {
        if info.index == 0 {
            assert(is_exit_keyframe(p1.translate@[0], dur_ms));
            assert(is_exit_keyframe(p2.translate@[0], dur_ms));
        }
    }
}

/// A pair that some well-formed placement's builder produced: what a
/// cache can hand back, whichever call populated it.
pub open spec fn cached_pair_wf(p: TimelinePair) -> bool {
    exists|info2: SceneInfo, fps2: u32| transition_pair_matches(p, info2, fps2 as int) && scene_info_wf(info2) && 1 <= fps2 <= MAX_FPS
}

/// A cached pair is a filled table, never an empty one: its
/// translation timeline holds the one or two slide keyframes of some
/// placement, and its skew timeline, where present, holds exactly the
/// one skew keyframe.
pub proof fn lemma_cached_pair_nonempty(p: TimelinePair)
    requires
        cached_pair_wf(p),
    ensures
        1 <= p.translate@.len() <= 2,
        timeline_wf(p.translate@),
        p.skew matches Some(t) ==> (t@.len() == 1 && timeline_wf(t@)),
{
    let (info2, fps2) = choose|info2: SceneInfo, fps2: u32| transition_pair_matches(p, info2, fps2 as int) && scene_info_wf(info2) && 1 <= fps2 <= MAX_FPS;
    assert(transition_pair_matches(p, info2, fps2 as int));
}

/// Memoizes a scene's transition timelines: empty until the first
/// frame render queries it, then populated exactly once for the
/// scene's whole lifetime, also under concurrent first use.
#[derive(Debug)]
pub struct TransitionTimelines {
    cell: OnceCell<TimelinePair>,
}

impl TransitionTimelines {
    /// A still-empty cache.
    pub fn init() -> (r: TransitionTimelines) {
        TransitionTimelines { cell: OnceCell::new() }
    }

    /// Relies on once_cell::sync::OnceCell::get_or_init: it returns
    /// the stored value, first storing the closure's result if the
    /// cell was empty, and runs the closure at most once even under
    /// concurrent callers. The `cell` field is private and only this
    /// method fills it, always from `build_transition_timelines` with
    /// arguments meeting its contract, so whatever call populated the
    /// cell, the reference handed back is one of that builder's
    /// results.
    #[verifier::external_body]
    fn get_cached(&self, info: &SceneInfo, fps: u32) -> (r: &TimelinePair)
        requires
            scene_info_wf(*info),
            info.duration_in_frames <= MAX_SCENE_FRAMES,
            1 <= fps <= MAX_FPS,
        ensures
            cached_pair_wf(*r),
    {
        self.cell.get_or_init(|| build_transition_timelines(info, fps))
    }

    /// The scene's transition timelines, built on first use and the
    /// same stored pair on every later call. Whatever call populated
    /// the cache, the pair is some well-formed placement's builder
    /// product — one or two pinned slide keyframes, never an empty
    /// table — and ready to evaluate.
    pub fn get(&self, info: &SceneInfo, fps: u32) -> (r: &TimelinePair)
        requires
            scene_info_wf(*info),
            info.duration_in_frames <= MAX_SCENE_FRAMES,
            1 <= fps <= MAX_FPS,
        ensures
            cached_pair_wf(*r),
            timeline_wf(r.translate@),
            r.skew matches Some(t) ==> timeline_wf(t@),
    {
        let r = self.get_cached(info, fps);
        proof {
            let (info2, fps2) = choose|info2: SceneInfo, fps2: u32| transition_pair_matches(*r, info2, fps2 as int) && scene_info_wf(info2) && 1 <= fps2 <= MAX_FPS;
            assert(transition_pair_matches(*r, info2, fps2 as int));
        }
        r
    }
}

} // verus!
