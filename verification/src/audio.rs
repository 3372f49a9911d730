//! Audio map resolver: turns a scene's declared audio cues into
//! absolute-frame playback windows for an external mixer.
//!
//! A cue anchors its start and end either at a scene-local time in
//! milliseconds, at a frame offset counted back from the scene's end
//! (clamped at the scene start), or — for the end only — at the source
//! audio file's natural end, which resolves to no fixed frame at all.
//! Resolution is relative to the scene's own duration in frames,
//! shifted by the scene's global start frame.
use vstd::prelude::*;
use crate::sequencer::{MAX_FPS, MAX_SCENES, MAX_SCENE_FRAMES, MAX_TIME_MS, SceneInfo, frames_of_millis, lemma_frames_le_millis};

verus! {

/// Where an audio cue begins, relative to its scene.
#[derive(Clone, Copy, Debug, PartialEq, Eq, Structural)]
pub enum StartAnchor {
    /// A scene-local time in milliseconds.
    AbsoluteMillis(u32),
    /// This many frames before the scene's end; an offset longer than
    /// the scene clamps to the scene's start.
    FrameOffsetFromSceneEnd(u64),
}

/// Where an audio cue stops.
#[derive(Clone, Copy, Debug, PartialEq, Eq, Structural)]
pub enum EndAnchor {
    /// A scene-local time in milliseconds.
    AbsoluteMillis(u32),
    /// This many frames before the scene's end; an offset longer than
    /// the scene clamps to the scene's start.
    FrameOffsetFromSceneEnd(u64),
    /// Play until the source audio file's natural end: no fixed end
    /// frame.
    EndOfFile,
}

/// One audio file a scene wants played, with its anchors.
#[derive(Clone, Debug)]
pub struct AudioCue {
    pub file: String,
    pub start: StartAnchor,
    pub end: EndAnchor,
}

/// Where a resolved window stops on the global frame axis.
#[derive(Clone, Copy, Debug, PartialEq, Eq, Structural)]
pub enum ResolvedEnd {
    Frame(u64),
    /// The source file plays to its natural end.
    SourceEnd,
}

/// One audio file placed on the global frame axis.
#[derive(Clone, Debug)]
pub struct ResolvedAudioWindow {
    pub file: String,
    pub start_frame: u64,
    pub end: ResolvedEnd,
}

pub open spec fn start_anchor_wf(a: StartAnchor) -> bool {
    match a {
        StartAnchor::AbsoluteMillis(ms) => ms <= MAX_TIME_MS,
        StartAnchor::FrameOffsetFromSceneEnd(_) => true,
    }
}

pub open spec fn end_anchor_wf(a: EndAnchor) -> bool {
    match a {
        EndAnchor::AbsoluteMillis(ms) => ms <= MAX_TIME_MS,
        EndAnchor::FrameOffsetFromSceneEnd(_) => true,
        EndAnchor::EndOfFile => true,
    }
}

pub open spec fn cue_wf(c: AudioCue) -> bool {
    &&& start_anchor_wf(c.start)
    &&& end_anchor_wf(c.end)
}

/// A frame offset counted back from the scene's end, clamped so it
/// never falls before the scene's start.
pub open spec fn offset_from_end(k: int, scene_duration: int) -> int {
    if k <= scene_duration {
        scene_duration - k
    } else {
        0
    }
}

/// The global frame a start anchor resolves to.
pub open spec fn start_anchor_frame(a: StartAnchor, scene_start: int, scene_duration: int, fps: int) -> int {
    match a {
        StartAnchor::AbsoluteMillis(ms) => scene_start + frames_of_millis(ms as int, fps),
        StartAnchor::FrameOffsetFromSceneEnd(k) => scene_start + offset_from_end(k as int, scene_duration),
    }
}

/// What an end anchor resolves to: a global frame, or no fixed frame
/// for end-of-file.
pub open spec fn end_matches(a: EndAnchor, scene_start: int, scene_duration: int, fps: int, end: ResolvedEnd) -> bool {
    match a {
        EndAnchor::AbsoluteMillis(ms) => end matches ResolvedEnd::Frame(f) && f == scene_start + frames_of_millis(ms as int, fps),
        EndAnchor::FrameOffsetFromSceneEnd(k) => end matches ResolvedEnd::Frame(f) && f == scene_start + offset_from_end(k as int, scene_duration),
        EndAnchor::EndOfFile => end is SourceEnd,
    }
}

pub open spec fn window_matches(c: AudioCue, scene_start: int, scene_duration: int, fps: int, w: ResolvedAudioWindow) -> bool {
    &&& w.file == c.file
    &&& w.start_frame == start_anchor_frame(c.start, scene_start, scene_duration, fps)
    &&& end_matches(c.end, scene_start, scene_duration, fps, w.end)
}

/// Resolves one cue against its scene's placement.
pub fn resolve_cue(cue: &AudioCue, info: &SceneInfo, scene_start_frame: u64, fps: u32) -> (r: ResolvedAudioWindow)
    requires
        cue_wf(*cue),
        info.duration_in_frames <= MAX_SCENE_FRAMES,
        scene_start_frame <= MAX_SCENES * MAX_SCENE_FRAMES,
        1 <= fps <= MAX_FPS,
    ensures
        window_matches(*cue, scene_start_frame as int, info.duration_in_frames as int, fps as int, r),
{
    let start_frame: u64 = match &cue.start {
        StartAnchor::AbsoluteMillis(ms) => {
            proof {
                lemma_frames_le_millis(*ms as int, fps as int);
            }
            scene_start_frame + crate::millis_to_frames(*ms, fps)
        },
        StartAnchor::FrameOffsetFromSceneEnd(k) => {
            if *k <= info.duration_in_frames {
                scene_start_frame + (info.duration_in_frames - *k)
            } else {
                scene_start_frame
            }
        },
    };
    let end: ResolvedEnd = match &cue.end {
        EndAnchor::AbsoluteMillis(ms) => {
            proof {
                lemma_frames_le_millis(*ms as int, fps as int);
            }
            ResolvedEnd::Frame(scene_start_frame + crate::millis_to_frames(*ms, fps))
        },
        EndAnchor::FrameOffsetFromSceneEnd(k) => {
            if *k <= info.duration_in_frames {
                ResolvedEnd::Frame(scene_start_frame + (info.duration_in_frames - *k))
            } else {
                ResolvedEnd::Frame(scene_start_frame)
            }
        },
        EndAnchor::EndOfFile => ResolvedEnd::SourceEnd,
    };
    ResolvedAudioWindow { file: cue.file.clone(), start_frame, end }
}

/// Resolves a scene's whole audio map: one window per declared cue,
/// in order. A scene that declares no cues gets no windows; omitted
/// cues leave no gap, since only declared cues are resolved.
pub fn resolve_audio_map(cues: &Vec<AudioCue>, info: &SceneInfo, scene_start_frame: u64, fps: u32) -> (r: Vec<ResolvedAudioWindow>)
    requires
        forall|i: int| 0 <= i < cues@.len() ==> cue_wf(#[trigger] cues@[i]),
        info.duration_in_frames <= MAX_SCENE_FRAMES,
        scene_start_frame <= MAX_SCENES * MAX_SCENE_FRAMES,
        1 <= fps <= MAX_FPS,
    ensures
        r@.len() == cues@.len(),
        forall|i: int| 0 <= i < cues@.len() ==> window_matches(cues@[i], scene_start_frame as int, info.duration_in_frames as int, fps as int, #[trigger] r@[i]),
{
    let n = cues.len();
    let mut windows: Vec<ResolvedAudioWindow> = Vec::new();
    let mut i: usize = 0;
    while i < n
        invariant
            n == cues@.len(),
            forall|j: int| 0 <= j < cues@.len() ==> cue_wf(#[trigger] cues@[j]),
            info.duration_in_frames <= MAX_SCENE_FRAMES,
            scene_start_frame <= MAX_SCENES * MAX_SCENE_FRAMES,
            1 <= fps <= MAX_FPS,
            0 <= i <= n,
            windows@.len() == i,
            forall|j: int| 0 <= j < i ==> window_matches(cues@[j], scene_start_frame as int, info.duration_in_frames as int, fps as int, #[trigger] windows@[j]),
        decreases n - i,
    {
        let w = resolve_cue(&cues[i], info, scene_start_frame, fps);
        windows.push(w);
        i = i + 1;
    }
    windows
}

} // verus!
