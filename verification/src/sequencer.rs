//! Scene sequencer: places an ordered list of scenes, each with a
//! duration in frames and a desired crossfade overlap with the next
//! scene, on one global frame axis.
//!
//! The first scene starts at frame zero and each later scene starts
//! where the previous one ends minus the declared overlap. An overlap
//! larger than either adjacent scene's duration is a configuration
//! error reported with the offending scene index, never silently
//! clamped. The final scene's overlap is ignored; the video's total
//! length is the final scene's start plus its duration.
use vstd::prelude::*;
use vstd::arithmetic::div_mod::{lemma_div_is_ordered, lemma_div_multiples_vanish};
use vstd::arithmetic::mul::{lemma_mul_inequality, lemma_mul_is_commutative, lemma_mul_nonnegative};

verus! {

/// Most scenes one video can hold.
pub const MAX_SCENES: usize = 0x10000;

/// Largest duration or overlap of one scene, in frames.
pub const MAX_SCENE_FRAMES: u64 = 0x1_0000_0000;

/// Largest time a scene or overlap may declare, in milliseconds
/// (about 24 days).
pub const MAX_TIME_MS: u32 = 0x7FFF_FFFF;

/// Largest supported frame rate.
pub const MAX_FPS: u32 = 1000;

/// How a scene states its length: a literal time, the measured length
/// of an audio file, or that length plus a literal padding.
#[derive(Clone, Debug)]
pub enum Duration {
    Millis(u32),
    FromAudio(String),
    FromAudioPlus(String, u32),
}

/// How long a scene's tail visually coexists with the next scene's
/// head (the crossfade window), in milliseconds.
#[derive(Clone, Copy, Debug, PartialEq, Eq, Structural)]
pub enum Overlap {
    Absent,
    Next(u32),
}

pub open spec fn duration_wf(d: Duration) -> bool {
    match d {
        Duration::Millis(ms) => ms <= MAX_TIME_MS,
        Duration::FromAudio(_) => true,
        Duration::FromAudioPlus(_, pad) => pad <= MAX_TIME_MS,
    }
}

pub open spec fn overlap_wf(o: Overlap) -> bool {
    match o {
        Overlap::Absent => true,
        Overlap::Next(ms) => ms <= MAX_TIME_MS,
    }
}

/// Whole frames in `ms` milliseconds at `fps`, truncating.
pub open spec fn frames_of_millis(ms: int, fps: int) -> int {
    (ms * fps) / 1000
}

/// At no more than 1000 frames per second, a time in milliseconds
/// never yields more frames than it has milliseconds.
pub proof fn lemma_frames_le_millis(ms: int, fps: int)
    requires
        0 <= ms,
        0 <= fps <= 1000,
    ensures
        0 <= frames_of_millis(ms, fps) <= ms,
{
    lemma_mul_nonnegative(ms, fps);
    lemma_div_is_ordered(0, ms * fps, 1000);
    lemma_mul_inequality(fps, 1000, ms);
    lemma_mul_is_commutative(ms, fps);
    lemma_mul_is_commutative(ms, 1000);
    lemma_div_is_ordered(ms * fps, ms * 1000, 1000);
    lemma_div_multiples_vanish(ms, 1000);
}

/// The duration a scene resolves to, in frames: `None` when it needs
/// an audio length that is not available.
pub open spec fn duration_frames_spec(d: Duration, audio_ms: Option<u32>, fps: int) -> Option<int> {
    match d {
        Duration::Millis(ms) => Some(frames_of_millis(ms as int, fps)),
        Duration::FromAudio(_) => match audio_ms {
            Some(a) => Some(frames_of_millis(a as int, fps)),
            None => None,
        },
        Duration::FromAudioPlus(_, pad) => match audio_ms {
            Some(a) => Some(frames_of_millis(a as int, fps) + frames_of_millis(pad as int, fps)),
            None => None,
        },
    }
}

/// The overlap a scene resolves to, in frames.
pub open spec fn overlap_frames_spec(o: Overlap, fps: int) -> int {
    match o {
        Overlap::Absent => 0,
        Overlap::Next(ms) => frames_of_millis(ms as int, fps),
    }
}

/// Resolves one scene's declared duration against the measured length
/// of its audio file, if it needs one; `None` exactly when the length
/// is needed and missing.
pub fn resolve_duration(d: &Duration, audio_ms: Option<u32>, fps: u32) -> (r: Option<u64>)
    requires
        duration_wf(*d),
        1 <= fps <= MAX_FPS,
        audio_ms matches Some(a) ==> a <= MAX_TIME_MS,
    ensures
        match r {
            Some(frames) => duration_frames_spec(*d, audio_ms, fps as int) == Some(frames as int) && frames <= MAX_SCENE_FRAMES,
            None => duration_frames_spec(*d, audio_ms, fps as int) is None,
        },
{
    proof {
        lemma_frames_le_millis(MAX_TIME_MS as int, fps as int);
    }
    match d {
        Duration::Millis(ms) => {
            proof {
                lemma_frames_le_millis(*ms as int, fps as int);
            }
            Some(crate::millis_to_frames(*ms, fps))
        },
        Duration::FromAudio(_) => match audio_ms {
            Some(a) => {
                proof {
                    lemma_frames_le_millis(a as int, fps as int);
                }
                Some(crate::millis_to_frames(a, fps))
            },
            None => None,
        },
        Duration::FromAudioPlus(_, pad) => match audio_ms {
            Some(a) => {
                proof {
                    lemma_frames_le_millis(a as int, fps as int);
                    lemma_frames_le_millis(*pad as int, fps as int);
                }
                Some(crate::millis_to_frames(a, fps) + crate::millis_to_frames(*pad, fps))
            },
            None => None,
        },
    }
}

/// Resolves a declared overlap to frames.
pub fn resolve_overlap(o: &Overlap, fps: u32) -> (r: u64)
    requires
        overlap_wf(*o),
        1 <= fps <= MAX_FPS,
    ensures
        r == overlap_frames_spec(*o, fps as int),
        r <= MAX_SCENE_FRAMES,
{
    match o {
        Overlap::Absent => 0,
        Overlap::Next(ms) => {
            proof {
                lemma_frames_le_millis(*ms as int, fps as int);
            }
            crate::millis_to_frames(*ms, fps)
        },
    }
}

/// Resolves every scene's duration and overlap into sequence entries.
/// Fails with the first scene whose duration needs an audio length
/// that `audio_ms` does not give.
pub fn resolve_entries(durations: &Vec<Duration>, overlaps: &Vec<Overlap>, audio_ms: &Vec<Option<u32>>, fps: u32) -> (r: Result<Vec<SequenceEntry>, TimelineError>)
    requires
        durations@.len() == overlaps@.len(),
        durations@.len() == audio_ms@.len(),
        durations@.len() <= MAX_SCENES,
        1 <= fps <= MAX_FPS,
        forall|i: int| 0 <= i < durations@.len() ==> duration_wf(#[trigger] durations@[i]),
        forall|i: int| 0 <= i < overlaps@.len() ==> overlap_wf(#[trigger] overlaps@[i]),
        forall|i: int| 0 <= i < audio_ms@.len() ==> (#[trigger] audio_ms@[i] matches Some(a) ==> a <= MAX_TIME_MS),
    ensures
        r is Ok <==> (forall|i: int| 0 <= i < durations@.len() ==> duration_frames_spec(#[trigger] durations@[i], audio_ms@[i], fps as int) is Some),
        r matches Ok(entries) ==> {
            &&& entries@.len() == durations@.len()
            &&& entries_wf(entries@)
            &&& forall|i: int| 0 <= i < entries@.len() ==> {
                &&& duration_frames_spec(durations@[i], audio_ms@[i], fps as int) == Some((#[trigger] entries@[i]).duration_frames as int)
                &&& entries@[i].overlap_frames == overlap_frames_spec(overlaps@[i], fps as int)
            }
        },
        r matches Err(e) ==> (e matches TimelineError::UnresolvableDuration { scene_index } && 0 <= (scene_index as int) < durations@.len() && duration_frames_spec(durations@[scene_index as int], audio_ms@[scene_index as int], fps as int) is None),
{
    let n = durations.len();
    let mut entries: Vec<SequenceEntry> = Vec::new();
    let mut i: usize = 0;
    while i < n
        invariant
            n == durations@.len(),
            durations@.len() == overlaps@.len(),
            durations@.len() == audio_ms@.len(),
            n <= MAX_SCENES,
            1 <= fps <= MAX_FPS,
            forall|j: int| 0 <= j < durations@.len() ==> duration_wf(#[trigger] durations@[j]),
            forall|j: int| 0 <= j < overlaps@.len() ==> overlap_wf(#[trigger] overlaps@[j]),
            forall|j: int| 0 <= j < audio_ms@.len() ==> (#[trigger] audio_ms@[j] matches Some(a) ==> a <= MAX_TIME_MS),
            0 <= i <= n,
            entries@.len() == i,
            forall|j: int| 0 <= j < i ==> duration_frames_spec(durations@[j], audio_ms@[j], fps as int) == Some((#[trigger] entries@[j]).duration_frames as int),
            forall|j: int| 0 <= j < i ==> (#[trigger] entries@[j]).overlap_frames == overlap_frames_spec(overlaps@[j], fps as int),
            forall|j: int| 0 <= j < i ==> entry_wf(#[trigger] entries@[j]),
        decreases n - i,
    {
        let duration_frames = match resolve_duration(&durations[i], audio_ms[i], fps) {
            Some(f) => f,
            None => {
                return Err(TimelineError::UnresolvableDuration { scene_index: i });
            },
        };
        let overlap_frames = resolve_overlap(&overlaps[i], fps);
        entries.push(SequenceEntry { duration_frames, overlap_frames });
        i = i + 1;
    }
    proof {
        assert forall|j: int| 0 <= j < durations@.len() implies duration_frames_spec(#[trigger] durations@[j], audio_ms@[j], fps as int) is Some by {
            assert(duration_frames_spec(durations@[j], audio_ms@[j], fps as int) == Some(entries@[j].duration_frames as int));
        }
    }
    Ok(entries)
}

/// A scene's contribution to the sequence: its resolved duration and
/// its desired overlap with the next scene, both in frames.
#[derive(Clone, Copy, Debug)]
pub struct SequenceEntry {
    pub duration_frames: u64,
    pub overlap_frames: u64,
}

/// Sequencer output for one scene: where it stands on the global
/// frame axis.
#[derive(Clone, Copy, Debug)]
pub struct SceneSlot {
    pub scene_index: usize,
    pub start_frame: u64,
    pub duration_frames: u64,
    pub overlap_frames_with_next: u64,
}

/// Read-only placement metadata handed back to a scene while a frame
/// of it renders; identical for every frame of the same scene.
#[derive(Clone, Copy, Debug)]
pub struct SceneInfo {
    pub index: usize,
    pub total_scenes_in_video: usize,
    pub is_first: bool,
    pub is_last: bool,
    pub duration_in_frames: u64,
}

/// A configuration error that makes the global timeline undefined.
#[derive(Clone, Copy, Debug, PartialEq, Eq, Structural)]
pub enum TimelineError {
    /// A scene derives its duration from an audio file whose length
    /// could not be measured.
    UnresolvableDuration { scene_index: usize },
    /// A scene's overlap exceeds its own or its successor's duration.
    InvalidOverlap { scene_index: usize },
}

pub open spec fn entry_wf(e: SequenceEntry) -> bool {
    &&& e.duration_frames <= MAX_SCENE_FRAMES
    &&& e.overlap_frames <= MAX_SCENE_FRAMES
}

pub open spec fn entries_wf(s: Seq<SequenceEntry>) -> bool {
    &&& s.len() <= MAX_SCENES
    &&& forall|i: int| 0 <= i < s.len() ==> entry_wf(#[trigger] s[i])
}

/// The overlap declared at `i` fits inside both adjacent scenes.
pub open spec fn overlap_ok_at(s: Seq<SequenceEntry>, i: int) -> bool {
    &&& s[i].overlap_frames <= s[i].duration_frames
    &&& s[i].overlap_frames <= s[i + 1].duration_frames
}

/// Every overlap between adjacent scenes is valid; the final entry's
/// overlap has no successor and is ignored.
pub open spec fn overlaps_ok(s: Seq<SequenceEntry>) -> bool {
    forall|i: int| 0 <= i < s.len() - 1 ==> #[trigger] overlap_ok_at(s, i)
}

/// The start frame of scene `i`: scene 0 starts at frame 0, and each
/// later scene starts at the previous start plus the previous duration
/// minus the previous overlap.
pub open spec fn start_frame_at(s: Seq<SequenceEntry>, i: int) -> int
    decreases i,
{
    if i <= 0 {
        0
    } else {
        start_frame_at(s, i - 1) + s[i - 1].duration_frames - s[i - 1].overlap_frames
    }
}

/// Total video length in frames: the final scene's start plus its
/// duration.
pub open spec fn total_frames_spec(s: Seq<SequenceEntry>) -> int {
    if s.len() == 0 {
        0
    } else {
        start_frame_at(s, s.len() - 1) + s[s.len() - 1].duration_frames
    }
}

pub open spec fn slot_matches(s: Seq<SequenceEntry>, slot: SceneSlot, i: int) -> bool {
    &&& slot.scene_index == i
    &&& slot.start_frame == start_frame_at(s, i)
    &&& slot.duration_frames == s[i].duration_frames
    &&& slot.overlap_frames_with_next == if i < s.len() - 1 {
        s[i].overlap_frames as int
    } else {
        0
    }
}

/// Computes every scene's slot on the global frame axis.
///
/// Succeeds exactly when every overlap fits inside both scenes beside
/// it; otherwise reports the first offending scene index. On success,
/// scene 0 starts at frame 0 and every adjacent pair obeys
/// `start[i + 1] == start[i] + duration[i] - overlap[i]`.
pub fn sequence(entries: &Vec<SequenceEntry>) -> (r: Result<Vec<SceneSlot>, TimelineError>)
    requires
        entries_wf(entries@),
    ensures
        r is Ok <==> overlaps_ok(entries@),
        r matches Ok(slots) ==> {
            &&& slots@.len() == entries@.len()
            &&& forall|i: int| 0 <= i < slots@.len() ==> slot_matches(entries@, #[trigger] slots@[i], i)
            &&& forall|i: int| 0 <= i < slots@.len() - 1 ==> (#[trigger] slots@[i + 1].start_frame) as int == slots@[i].start_frame + slots@[i].duration_frames - slots@[i].overlap_frames_with_next
        },
        r matches Err(e) ==> (e matches TimelineError::InvalidOverlap { scene_index } && 0 <= (scene_index as int) < entries@.len() - 1 && !overlap_ok_at(entries@, scene_index as int) && (forall|j: int| 0 <= j < scene_index ==> #[trigger] overlap_ok_at(entries@, j))),
{
    let n = entries.len();
    let mut slots: Vec<SceneSlot> = Vec::new();
    let mut start: u64 = 0;
    let mut i: usize = 0;
    while i < n
        invariant
            entries_wf(entries@),
            n == entries@.len(),
            0 <= i <= n,
            slots@.len() == i,
            forall|j: int| 0 <= j < i ==> slot_matches(entries@, #[trigger] slots@[j], j),
            forall|j: int| 0 <= j < i && j < n - 1 ==> #[trigger] overlap_ok_at(entries@, j),
            i < n ==> start == start_frame_at(entries@, i as int),
            start <= (i as int) * MAX_SCENE_FRAMES,
        decreases n - i,
    {
        let duration = entries[i].duration_frames;
        let overlap = entries[i].overlap_frames;
        let last = i == n - 1;
        if !last {
            if overlap > duration || overlap > entries[i + 1].duration_frames {
                proof {
                    assert(!overlap_ok_at(entries@, i as int));
                }
                return Err(TimelineError::InvalidOverlap { scene_index: i });
            }
        }
        proof {
            assert((i as int) * MAX_SCENE_FRAMES <= MAX_SCENES * MAX_SCENE_FRAMES) by (nonlinear_arith)
                requires
                    0 <= i as int <= MAX_SCENES,
            ;
            assert((i as int) * MAX_SCENE_FRAMES + MAX_SCENE_FRAMES == (i as int + 1) * MAX_SCENE_FRAMES) by (nonlinear_arith);
        }
        slots.push(SceneSlot {
            scene_index: i,
            start_frame: start,
            duration_frames: duration,
            overlap_frames_with_next: if last {
                0
            } else {
                overlap
            },
        });
        if !last {
            start = start + duration - overlap;
            proof {
                assert(start == start_frame_at(entries@, i as int + 1));
            }
        }
        i = i + 1;
    }
    Ok(slots)
}

/// A slot that the sequencer could have produced stays within these
/// bounds.
pub open spec fn slot_bounded(slot: SceneSlot) -> bool {
    &&& slot.start_frame <= MAX_SCENES * MAX_SCENE_FRAMES
    &&& slot.duration_frames <= MAX_SCENE_FRAMES
}

/// Total video length in frames: the final scene's start frame plus
/// its duration. The final overlap plays no part.
pub fn total_video_frames(slots: &Vec<SceneSlot>) -> (r: u64)
    requires
        forall|i: int| 0 <= i < slots@.len() ==> slot_bounded(#[trigger] slots@[i]),
    ensures
        slots@.len() == 0 ==> r == 0,
        slots@.len() > 0 ==> r == slots@.last().start_frame + slots@.last().duration_frames,
{
    let n = slots.len();
    if n == 0 {
        0
    } else {
        slots[n - 1].start_frame + slots[n - 1].duration_frames
    }
}

/// Placement metadata is consistent: the flags agree with the index
/// and the count.
pub open spec fn scene_info_wf(info: SceneInfo) -> bool {
    &&& info.index < info.total_scenes_in_video
    &&& info.is_first <==> info.index == 0
    &&& info.is_last <==> info.index + 1 == info.total_scenes_in_video
}

pub open spec fn scene_info_matches(slots: Seq<SceneSlot>, info: SceneInfo, i: int) -> bool {
    &&& info.index == i
    &&& info.total_scenes_in_video == slots.len()
    &&& (info.is_first <==> i == 0)
    &&& (info.is_last <==> i == slots.len() - 1)
    &&& info.duration_in_frames == slots[i].duration_frames
}

/// Derives each scene's read-only placement metadata from its slot.
pub fn scene_infos(slots: &Vec<SceneSlot>) -> (r: Vec<SceneInfo>)
    ensures
        r@.len() == slots@.len(),
        forall|i: int| 0 <= i < slots@.len() ==> scene_info_matches(slots@, #[trigger] r@[i], i),
        forall|i: int| 0 <= i < slots@.len() ==> scene_info_wf(#[trigger] r@[i]),
{
    let n = slots.len();
    let mut infos: Vec<SceneInfo> = Vec::new();
    let mut i: usize = 0;
    while i < n
        invariant
            n == slots@.len(),
            0 <= i <= n,
            infos@.len() == i,
            forall|j: int| 0 <= j < i ==> scene_info_matches(slots@, #[trigger] infos@[j], j),
            forall|j: int| 0 <= j < i ==> scene_info_wf(#[trigger] infos@[j]),
        decreases n - i,
    {
        infos.push(SceneInfo {
            index: i,
            total_scenes_in_video: n,
            is_first: i == 0,
            is_last: i == n - 1,
            duration_in_frames: slots[i].duration_frames,
        });
        i = i + 1;
    }
    infos
}

} // verus!
