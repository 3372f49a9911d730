//! The video's scene kinds: concrete, immutable content plus the
//! verified capability set every scene offers — its duration, its
//! overlap with the next scene, its audio cues, and the animation
//! timelines its frames are rendered from. A scene never knows its own
//! global placement; it reads the sequencer-provided `SceneInfo`.
use vstd::prelude::*;
use crate::audio::{AudioCue, EndAnchor, StartAnchor, cue_wf};
use crate::cache::TransitionTimelines;
use crate::cues::{WordCue, stack_text};
use crate::easing::Easing;
use crate::keyframes::{Keyframe, KeyframeTimeline, timeline_wf};
use crate::sequencer::{Duration, Overlap, SceneInfo};
use vstd::string::{StrSliceExecFns, StringExecFns};

verus! {

/// Largest scene duration the timeline builders accept, in
/// milliseconds (a scene of the longest frame count at one frame per
/// second).
pub const MAX_SCENE_MS: i64 = 0x3E8_0000_0000;

/// The spring every bubble animation eases with: mass 1, stiffness
/// 80, damping 16, in thousandths.
pub open spec fn bubble_spring() -> Easing {
    Easing::Spring { mass_mu: 1000, stiffness_mu: 80000, damping_mu: 16000 }
}

/// The cue starts at a scene-local time in milliseconds.
pub open spec fn cue_starts_at_ms(c: AudioCue, ms: int) -> bool {
    c.start matches StartAnchor::AbsoluteMillis(m) && m == ms
}

/// The cue starts a fixed number of frames before the scene's end.
pub open spec fn cue_starts_before_end(c: AudioCue, k: int) -> bool {
    c.start matches StartAnchor::FrameOffsetFromSceneEnd(kk) && kk == k
}

/// The cue plays to its source file's natural end.
pub open spec fn cue_runs_to_eof(c: AudioCue) -> bool {
    c.end is EndOfFile
}

/// What a bubble transition scene is: either the closing card that
/// slides the story out, or the opening card that reads the story's
/// title aloud.
#[derive(Clone, Debug)]
pub enum Variant {
    Exit,
    Title { audio_file: String },
}

/// A transition card drawn inside a blob-shaped bubble: the story's
/// title, score and author over a colored fill.
pub struct BubbleTransitionScene {
    pub fill: String,
    pub variant: Variant,
    pub title: String,
    pub upvotes_count: String,
    pub author: String,
    pub when: String,
}

pub open spec fn bubble_audio_map_matches(r: Seq<AudioCue>, s: BubbleTransitionScene) -> bool {
    match s.variant {
        Variant::Exit => r.len() == 0,
        Variant::Title { audio_file } => {
            &&& r.len() == 1
            &&& r[0].file@ == audio_file@
            &&& cue_starts_at_ms(r[0], 0)
            &&& cue_runs_to_eof(r[0])
        },
    }
}

pub open spec fn bubble_duration_matches(d: Duration, s: BubbleTransitionScene) -> bool {
    match s.variant {
        Variant::Exit => d matches Duration::Millis(ms) && ms == 2700,
        Variant::Title { audio_file } => d matches Duration::FromAudio(f) && f@ == audio_file@,
    }
}

pub open spec fn bubble_overlap_matches(o: Overlap, s: BubbleTransitionScene) -> bool {
    match s.variant {
        Variant::Exit => o matches Overlap::Next(ms) && ms == 900,
        Variant::Title { .. } => o matches Overlap::Next(ms) && ms == 940,
    }
}

/// The bubble's scale animation: the exit card pops the bubble up
/// from a dot shortly after the scene starts; the title card shrinks
/// it away over the last 0.9 seconds.
pub open spec fn bubble_scale_matches(s: Seq<Keyframe>, v: Variant, dur_ms: int) -> bool {
    match v {
        Variant::Exit => {
            &&& s.len() == 1
            &&& s[0].start_ms == 100
            &&& s[0].from_mu == 100
            &&& s[0].to_mu == 12_000
            &&& s[0].easing == bubble_spring()
        },
        Variant::Title { .. } => {
            &&& s.len() == 1
            &&& s[0].start_ms == dur_ms - 900
            &&& s[0].from_mu == 16_000
            &&& s[0].to_mu == 0
            &&& s[0].easing == bubble_spring()
        },
    }
}

/// The text slide animation: the exit card pushes its text one screen
/// to the right over the last 1.5 seconds; the title card's text does
/// not move.
pub open spec fn bubble_text_translate_matches(r: Option<KeyframeTimeline>, v: Variant, dur_ms: int) -> bool {
    match v {
        Variant::Exit => {
            &&& r matches Some(t)
            &&& t@.len() == 1
            &&& t@[0].start_ms == dur_ms - 1500
            &&& t@[0].from_mu == 0
            &&& t@[0].to_mu == 1_080_000
            &&& t@[0].easing == bubble_spring()
        },
        Variant::Title { .. } => r is None,
    }
}

impl BubbleTransitionScene {
    /// The exit card is silent; the title card reads its audio file
    /// from the scene's start to the file's end.
    pub fn audio_map(&self) -> (r: Vec<AudioCue>)
        ensures
            bubble_audio_map_matches(r@, *self),
            forall|i: int| 0 <= i < r@.len() ==> cue_wf(#[trigger] r@[i]),
    {
        match &self.variant {
            Variant::Exit => Vec::new(),
            Variant::Title { audio_file } => {
                let mut r: Vec<AudioCue> = Vec::new();
                r.push(AudioCue {
                    file: audio_file.clone(),
                    start: StartAnchor::AbsoluteMillis(0),
                    end: EndAnchor::EndOfFile,
                });
                r
            },
        }
    }

    /// The exit card lasts a literal 2.7 seconds; the title card lasts
    /// as long as its audio file.
    pub fn duration(&self) -> (r: Duration)
        ensures
            bubble_duration_matches(r, *self),
    {
        match &self.variant {
            Variant::Exit => Duration::Millis(2700),
            Variant::Title { audio_file } => Duration::FromAudio(audio_file.clone()),
        }
    }

    /// The crossfade into the next scene: 0.94 seconds after the title
    /// card, 0.9 seconds after the exit card.
    pub fn overlap(&self) -> (r: Overlap)
        ensures
            bubble_overlap_matches(r, *self),
    {
        match &self.variant {
            Variant::Title { .. } => Overlap::Next(940),
            Variant::Exit => Overlap::Next(900),
        }
    }

    /// The bubble's scale timeline for a scene of the given placed
    /// duration.
    pub fn scale_timeline(&self, duration_ms: i64) -> (r: KeyframeTimeline)
        requires
            0 <= duration_ms <= MAX_SCENE_MS,
        ensures
            bubble_scale_matches(r@, self.variant, duration_ms as int),
            timeline_wf(r@),
    {
        let spring = Easing::Spring { mass_mu: 1000, stiffness_mu: 80000, damping_mu: 16000 };
        let kf = match &self.variant {
            Variant::Exit => Keyframe { start_ms: 100, from_mu: 100, to_mu: 12_000, easing: spring },
            Variant::Title { .. } => Keyframe {
                start_ms: duration_ms - 900,
                from_mu: 16_000,
                to_mu: 0,
                easing: spring,
            },
        };
        KeyframeTimeline::new(vec![kf])
    }

    /// The text slide timeline, when this variant has one.
    pub fn text_translate_timeline(&self, duration_ms: i64) -> (r: Option<KeyframeTimeline>)
        requires
            0 <= duration_ms <= MAX_SCENE_MS,
        ensures
            bubble_text_translate_matches(r, self.variant, duration_ms as int),
            r matches Some(t) ==> timeline_wf(t@),
    {
        match &self.variant {
            Variant::Exit => {
                let kf = Keyframe {
                    start_ms: duration_ms - 1500,
                    from_mu: 0,
                    to_mu: 1_080_000,
                    easing: Easing::Spring { mass_mu: 1000, stiffness_mu: 80000, damping_mu: 16000 },
                };
                Option::Some(KeyframeTimeline::new(vec![kf]))
            },
            Variant::Title { .. } => Option::None,
        }
    }
}

/// One story post read aloud: its author line, avatar, score and
/// reply count, with the spoken text highlighted word by word.
pub struct Post {
    pub title: String,
    pub audio_file: String,
    pub avatar: String,
    pub timelines: TransitionTimelines,
    pub posted_when: String,
    pub upvote_count: String,
    pub replies_count: String,
}

pub open spec fn post_audio_map_matches(r: Seq<AudioCue>, p: Post, info: SceneInfo) -> bool {
    let with_woosh = info.index + 2 != info.total_scenes_in_video;
    &&& r.len() == if with_woosh {
        3int
    } else {
        2int
    }
    &&& r[0].file@ == p.audio_file@
    &&& cue_starts_at_ms(r[0], 0)
    &&& cue_runs_to_eof(r[0])
    &&& with_woosh ==> {
        &&& r[1].file@ == "woosh.mp3"@
        &&& cue_starts_before_end(r[1], 20)
        &&& cue_runs_to_eof(r[1])
    }
    &&& r.last().file@ == "click.mp3"@
    &&& cue_starts_before_end(r.last(), 80)
    &&& cue_runs_to_eof(r.last())
}

impl Post {
    /// The post's voice track plays from the scene's start to its
    /// file's end; a click sounds 80 frames before the scene's end;
    /// and a woosh accompanies the slide-out 20 frames before the end
    /// on every post but the video's second-to-last scene, whose
    /// successor brings its own sound.
    pub fn audio_map(&self, info: &SceneInfo) -> (r: Vec<AudioCue>)
        requires
            crate::sequencer::scene_info_wf(*info),
            info.total_scenes_in_video <= crate::sequencer::MAX_SCENES,
        ensures
            post_audio_map_matches(r@, *self, *info),
            forall|i: int| 0 <= i < r@.len() ==> cue_wf(#[trigger] r@[i]),
    {
        let mut r: Vec<AudioCue> = Vec::new();
        r.push(AudioCue {
            file: self.audio_file.clone(),
            start: StartAnchor::AbsoluteMillis(0),
            end: EndAnchor::EndOfFile,
        });
        if info.index + 2 != info.total_scenes_in_video {
            r.push(AudioCue {
                file: String::from_str("woosh.mp3"),
                start: StartAnchor::FrameOffsetFromSceneEnd(20),
                end: EndAnchor::EndOfFile,
            });
        }
        r.push(AudioCue {
            file: String::from_str("click.mp3"),
            start: StartAnchor::FrameOffsetFromSceneEnd(80),
            end: EndAnchor::EndOfFile,
        });
        r
    }

    /// A post crossfades into its successor over the exit window.
    pub fn overlap(&self) -> (r: Overlap)
        ensures
            r matches Overlap::Next(ms) && ms == crate::cache::EXIT_DURATION_MS,
    {
        Overlap::Next(crate::cache::EXIT_DURATION_MS)
    }

    /// A post lasts as long as its voice track plus one second of
    /// quiet padding.
    pub fn duration(&self) -> (r: Duration)
        ensures
            r matches Duration::FromAudioPlus(f, pad) && f@ == self.audio_file@ && pad == 1000,
    {
        Duration::FromAudioPlus(self.audio_file.clone(), 1000)
    }

    /// Horizontal position of the downvote arrow after the score
    /// text, by the score's length in characters.
    pub fn downvote_arrow_offset(&self) -> (r: usize)
        requires
            self.upvote_count@.len() <= 0x100_0000,
        ensures
            r == downvote_arrow_offset_spec(self.upvote_count@.len() as int),
    {
        let count = self.upvote_count.as_str().unicode_len();
        match count {
            4 => 30,
            5 => 55,
            c => c * 11,
        }
    }
}

/// Offset of the downvote arrow for a score of `count` characters:
/// two hand-tuned cases, else eleven per character.
pub open spec fn downvote_arrow_offset_spec(count: int) -> int {
    if count == 4 {
        30
    } else if count == 5 {
        55
    } else {
        count * 11
    }
}

/// The opening title card; kept for videos that open on a plain card
/// instead of a bubble.
pub struct TitleScene {
    pub title: String,
    pub posted_by: String,
    pub when: String,
    pub upvote_count: String,
    pub comment_count: String,
    pub timelines: TransitionTimelines,
}

impl TitleScene {
    /// The title card lasts as long as the title voice track plus 0.4
    /// seconds.
    pub fn duration(&self) -> (r: Duration)
        ensures
            r matches Duration::FromAudioPlus(f, pad) && f@ == "title.mp3"@ && pad == 400,
    {
        Duration::FromAudioPlus(String::from_str("title.mp3"), 400)
    }

    /// The title voice track plays from the scene's start to the
    /// file's end.
    pub fn audio_map(&self) -> (r: Vec<AudioCue>)
        ensures
            r@.len() == 1,
            r@[0].file@ == "title.mp3"@,
            cue_starts_at_ms(r@[0], 0),
            cue_runs_to_eof(r@[0]),
            forall|i: int| 0 <= i < r@.len() ==> cue_wf(#[trigger] r@[i]),
    {
        let mut r: Vec<AudioCue> = Vec::new();
        r.push(AudioCue {
            file: String::from_str("title.mp3"),
            start: StartAnchor::AbsoluteMillis(0),
            end: EndAnchor::EndOfFile,
        });
        r
    }
}

/// Every scene kind this video composes; the closed set the renderer
/// dispatches over.
pub enum SceneKind {
    Bubble(BubbleTransitionScene),
    Post(Post),
    Title(TitleScene),
}

pub open spec fn scene_duration_matches(s: SceneKind, d: Duration) -> bool {
    match s {
        SceneKind::Bubble(b) => bubble_duration_matches(d, b),
        SceneKind::Post(p) => d matches Duration::FromAudioPlus(f, pad) && f@ == p.audio_file@ && pad == 1000,
        SceneKind::Title(_) => d matches Duration::FromAudioPlus(f, pad) && f@ == "title.mp3"@ && pad == 400,
    }
}

pub open spec fn scene_overlap_matches(s: SceneKind, o: Overlap) -> bool {
    match s {
        SceneKind::Bubble(b) => bubble_overlap_matches(o, b),
        SceneKind::Post(_) => o matches Overlap::Next(ms) && ms == crate::cache::EXIT_DURATION_MS,
        SceneKind::Title(_) => o is Absent,
    }
}

pub open spec fn scene_audio_map_matches(s: SceneKind, info: SceneInfo, r: Seq<AudioCue>) -> bool {
    match s {
        SceneKind::Bubble(b) => bubble_audio_map_matches(r, b),
        SceneKind::Post(p) => post_audio_map_matches(r, p, info),
        SceneKind::Title(_) => r.len() == 1 && r[0].file@ == "title.mp3"@ && cue_starts_at_ms(r[0], 0) && cue_runs_to_eof(r[0]),
    }
}

impl SceneKind {
    pub fn duration(&self) -> (r: Duration)
        ensures
            scene_duration_matches(*self, r),
    {
        match self {
            SceneKind::Bubble(b) => b.duration(),
            SceneKind::Post(p) => p.duration(),
            SceneKind::Title(t) => t.duration(),
        }
    }

    pub fn overlap(&self) -> (r: Overlap)
        ensures
            scene_overlap_matches(*self, r),
    {
        match self {
            SceneKind::Bubble(b) => b.overlap(),
            SceneKind::Post(p) => p.overlap(),
            SceneKind::Title(_) => Overlap::Absent,
        }
    }

    pub fn audio_map(&self, info: &SceneInfo) -> (r: Vec<AudioCue>)
        requires
            crate::sequencer::scene_info_wf(*info),
            info.total_scenes_in_video <= crate::sequencer::MAX_SCENES,
        ensures
            scene_audio_map_matches(*self, *info, r@),
            forall|i: int| 0 <= i < r@.len() ==> cue_wf(#[trigger] r@[i]),
    {
        match self {
            SceneKind::Bubble(b) => b.audio_map(),
            SceneKind::Post(p) => p.audio_map(info),
            SceneKind::Title(t) => t.audio_map(),
        }
    }

    /// The audio file a scene's duration is measured from, when it has
    /// one.
    pub fn duration_audio_file(&self) -> (r: Option<String>)
        ensures
            match r {
                Some(f) => {
                    &&& scene_duration_needs_audio(*self)
                    &&& f@ == scene_duration_audio_file(*self)
                },
                None => !scene_duration_needs_audio(*self),
            },
    {
        match self {
            SceneKind::Bubble(b) => match &b.variant {
                Variant::Exit => Option::None,
                Variant::Title { audio_file } => Option::Some(audio_file.clone()),
            },
            SceneKind::Post(p) => Option::Some(p.audio_file.clone()),
            SceneKind::Title(_) => Option::Some(String::from_str("title.mp3")),
        }
    }
}

/// Whether a scene's duration depends on an audio file's measured
/// length.
pub open spec fn scene_duration_needs_audio(s: SceneKind) -> bool {
    match s {
        SceneKind::Bubble(b) => b.variant is Title,
        SceneKind::Post(_) => true,
        SceneKind::Title(_) => true,
    }
}

/// The audio file that length is measured from.
pub open spec fn scene_duration_audio_file(s: SceneKind) -> Seq<char> {
    match s {
        SceneKind::Bubble(b) => match b.variant {
            Variant::Title { audio_file } => audio_file@,
            Variant::Exit => Seq::empty(),
        },
        SceneKind::Post(p) => p.audio_file@,
        SceneKind::Title(_) => "title.mp3"@,
    }
}

pub open spec fn is_space_char(c: char) -> bool {
    c == ' ' || c == '\t' || c == '\n' || c == '\r'
}

/// The text with its leading whitespace removed.
pub open spec fn trim_front(s: Seq<char>) -> Seq<char>
    decreases s.len(),
{
    if s.len() > 0 && is_space_char(s[0]) {
        trim_front(s.subrange(1, s.len() as int))
    } else {
        s
    }
}

/// The text with its trailing whitespace removed.
pub open spec fn trim_back(s: Seq<char>) -> Seq<char>
    decreases s.len(),
{
    if s.len() > 0 && is_space_char(s.last()) {
        trim_back(s.drop_last())
    } else {
        s
    }
}

/// The text with whitespace removed from both ends.
pub open spec fn trim_spaces(s: Seq<char>) -> Seq<char> {
    trim_back(trim_front(s))
}

/// When everything before `lo` is whitespace and `lo` is not (or is
/// the end), trimming the front keeps exactly the text from `lo` on.
proof fn lemma_trim_front_range(s: Seq<char>, lo: int)
    requires
        0 <= lo <= s.len(),
        forall|j: int| 0 <= j < lo ==> is_space_char(#[trigger] s[j]),
        lo < s.len() ==> !is_space_char(s[lo]),
    ensures
        trim_front(s) =~= s.subrange(lo, s.len() as int),
    decreases lo,
{
    if lo == 0 {
        assert(s.subrange(0, s.len() as int) =~= s);
    } else {
        let t = s.subrange(1, s.len() as int);
        assert forall|j: int| 0 <= j < lo - 1 implies is_space_char(#[trigger] t[j]) by {
            assert(t[j] == s[j + 1]);
        }
        lemma_trim_front_range(t, lo - 1);
        assert(t.subrange(lo - 1, t.len() as int) =~= s.subrange(lo, s.len() as int));
    }
}

/// When everything from `hi` on is whitespace and the text just
/// before `hi` is not (or `hi` is the start), trimming the back keeps
/// exactly the text before `hi`.
proof fn lemma_trim_back_range(s: Seq<char>, hi: int)
    requires
        0 <= hi <= s.len(),
        forall|j: int| hi <= j < s.len() ==> is_space_char(#[trigger] s[j]),
        hi > 0 ==> !is_space_char(s[hi - 1]),
    ensures
        trim_back(s) =~= s.subrange(0, hi),
    decreases s.len() - hi,
{
    if hi == s.len() {
        if s.len() > 0 && is_space_char(s.last()) {
            assert(!is_space_char(s[hi - 1]));
            assert(false);
        }
        assert(s.subrange(0, s.len() as int) =~= s);
    } else {
        let t = s.drop_last();
        assert forall|j: int| hi <= j < t.len() implies is_space_char(#[trigger] t[j]) by {
            assert(t[j] == s[j]);
        }
        lemma_trim_back_range(t, hi);
        assert(t.subrange(0, hi) =~= s.subrange(0, hi));
    }
}

/// Removes whitespace from both ends of a string.
pub fn trim_string(s: &String) -> (r: String)
    ensures
        r@ == trim_spaces(s@),
{
    let n = s.as_str().unicode_len();
    let mut lo: usize = 0;
    while lo < n && is_space_exec(s.as_str().get_char(lo))
        invariant
            0 <= lo <= n,
            n == s@.len(),
            forall|j: int| 0 <= j < lo ==> is_space_char(#[trigger] s@[j]),
        decreases n - lo,
    {
        lo = lo + 1;
    }
    let mut hi: usize = n;
    while hi > lo && is_space_exec(s.as_str().get_char(hi - 1))
        invariant
            lo <= hi <= n,
            n == s@.len(),
            forall|j: int| 0 <= j < lo ==> is_space_char(#[trigger] s@[j]),
            lo < s@.len() ==> !is_space_char(s@[lo as int]),
            forall|j: int| hi <= j < n ==> is_space_char(#[trigger] s@[j]),
        decreases hi,
    {
        hi = hi - 1;
    }
    proof {
        lemma_trim_front_range(s@, lo as int);
        let t = s@.subrange(lo as int, s@.len() as int);
        assert forall|j: int| hi - lo <= j < t.len() implies is_space_char(#[trigger] t[j]) by {
            assert(t[j] == s@[j + lo]);
        }
        if hi > lo {
            assert(t[hi - lo - 1] == s@[hi - 1]);
        }
        lemma_trim_back_range(t, hi - lo);
        assert(t.subrange(0, hi - lo) =~= s@.subrange(lo as int, hi as int));
    }
    String::from_str(s.as_str().substring_char(lo, hi))
}

/// A post's spoken text: the decoded word cues and the whole text
/// they join to, trimmed of surrounding whitespace.
pub struct PostText {
    pub whole: String,
    pub words: Vec<WordCue>,
}

impl PostText {
    /// Assembles the decoded word cues: keeps them as given and joins
    /// their text, trimmed, into the whole story text.
    pub fn from_words(words: Vec<WordCue>) -> (r: PostText)
        ensures
            r.words@ == words@,
            r.whole@ == trim_spaces(stack_text(words@, words@.len() as int)),
    {
        let n = words.len();
        let mut joined = String::new();
        let mut i: usize = 0;
        while i < n
            invariant
                0 <= i <= n,
                n == words@.len(),
                joined@ == stack_text(words@, i as int),
            decreases n - i,
        {
            joined.append(words[i].word.as_str());
            i = i + 1;
        }
        let whole = trim_string(&joined);
        PostText { whole, words }
    }
}

/// Whitespace test on one character.
fn is_space_exec(c: char) -> (r: bool)
    ensures
        r == is_space_char(c),
{
    c == ' ' || c == '\t' || c == '\n' || c == '\r'
}

} // verus!
