//! The video definition: the ordered scene list, the video-wide
//! background audio, and the helpers that turn the scene list into the
//! sequencer's inputs.
use vstd::prelude::*;
use crate::audio::{AudioCue, EndAnchor, StartAnchor, cue_wf};
use crate::cache::TransitionTimelines;
use crate::scenes::{BubbleTransitionScene, Post, SceneKind, Variant, cue_runs_to_eof, cue_starts_at_ms, scene_duration_matches, scene_overlap_matches};
use crate::sequencer::{Duration, Overlap, duration_wf, overlap_wf};
use vstd::string::StringExecFns;

verus! {

/// Width of the produced video in pixels.
pub const WIDTH: u32 = 1080;

/// Height of the produced video in pixels.
pub const HEIGHT: u32 = 1920;

/// The story this video reads: an ask-style thread and five of its
/// replies, between a title card and a subscribe card.
pub struct UpvotesVideo {}

/// The scene is the opening bubble: it reads the story title from the
/// given audio file and shows the story's header.
pub open spec fn title_bubble_matches(s: SceneKind, audio: Seq<char>) -> bool {
    &&& s matches SceneKind::Bubble(b)
    &&& b.variant matches Variant::Title { audio_file } && audio_file@ == audio
    &&& b.fill@ == "#fcf8f5"@
    &&& b.title@ == "What yells I have no life?"@
    &&& b.upvotes_count@ == "24.8k"@
    &&& b.author@ == "u/11pxny4"@
    &&& b.when@ == "2 days ago"@
}

/// The scene is the closing bubble: the silent subscribe card over
/// the same story header.
pub open spec fn exit_bubble_matches(s: SceneKind) -> bool {
    &&& s matches SceneKind::Bubble(b)
    &&& b.variant is Exit
    &&& b.fill@ == "#fcf8f5"@
    &&& b.title@ == "What yells I have no life?"@
    &&& b.upvotes_count@ == "24.8k"@
    &&& b.author@ == "u/11pxny4"@
    &&& b.when@ == "2 days ago"@
}

/// The scene is one reply post with the given author, voice track,
/// avatar, score and reply count.
pub open spec fn post_matches(s: SceneKind, title: Seq<char>, audio: Seq<char>, avatar: Seq<char>, upvotes: Seq<char>, replies: Seq<char>) -> bool {
    &&& s matches SceneKind::Post(p)
    &&& p.title@ == title
    &&& p.audio_file@ == audio
    &&& p.avatar@ == avatar
    &&& p.upvote_count@ == upvotes
    &&& p.posted_when@ == "2 d. ago"@
    &&& p.replies_count@ == replies
}

/// The whole scene list: the title bubble, five posts in reading
/// order, and the exit bubble.
pub open spec fn upvotes_scenes_match(s: Seq<SceneKind>) -> bool {
    &&& s.len() == 7
    &&& title_bubble_matches(s[0], "7-001.mp3"@)
    &&& post_matches(s[1], "purringfox"@, "7-002.mp3"@, "avatar_1.png"@, "4.3k"@, "158"@)
    &&& post_matches(s[2], "Elin-Calliel"@, "7-006.mp3"@, "avatar_6.png"@, "20.0k"@, "82"@)
    &&& post_matches(s[3], "nowhereman531"@, "7-003.mp3"@, "avatar_2.png"@, "12.9k"@, "116"@)
    &&& post_matches(s[4], "Portarossa"@, "7-004.mp3"@, "avatar_3.png"@, "13.5k"@, "204"@)
    &&& post_matches(s[5], "hello_friend"@, "7-005.mp3"@, "avatar_4.png"@, "10.1k"@, "80"@)
    &&& exit_bubble_matches(s[6])
}

impl UpvotesVideo {
    /// Music playing under the whole video, from its first frame to
    /// the track's natural end.
    pub fn audio(&self) -> (r: Vec<AudioCue>)
        ensures
            r@.len() == 1,
            r@[0].file@ == "background2.mp3"@,
            cue_starts_at_ms(r@[0], 0),
            cue_runs_to_eof(r@[0]),
            forall|i: int| 0 <= i < r@.len() ==> cue_wf(#[trigger] r@[i]),
    {
        let mut r: Vec<AudioCue> = Vec::new();
        r.push(AudioCue {
            file: String::from_str("background2.mp3"),
            start: StartAnchor::AbsoluteMillis(0),
            end: EndAnchor::EndOfFile,
        });
        r
    }

    /// The ordered scene list this video is composed of.
    pub fn define_scenes(&self) -> (r: Vec<SceneKind>)
        ensures
            upvotes_scenes_match(r@),
    {
        let mut scenes: Vec<SceneKind> = Vec::new();
        scenes.push(SceneKind::Bubble(BubbleTransitionScene {
            title: String::from_str("What yells I have no life?"),
            fill: String::from_str("#fcf8f5"),
            upvotes_count: String::from_str("24.8k"),
            author: String::from_str("u/11pxny4"),
            when: String::from_str("2 days ago"),
            variant: Variant::Title { audio_file: String::from_str("7-001.mp3") },
        }));
        scenes.push(SceneKind::Post(Post {
            title: String::from_str("purringfox"),
            audio_file: String::from_str("7-002.mp3"),
            avatar: String::from_str("avatar_1.png"),
            timelines: TransitionTimelines::init(),
            upvote_count: String::from_str("4.3k"),
            posted_when: String::from_str("2 d. ago"),
            replies_count: String::from_str("158"),
        }));
        scenes.push(SceneKind::Post(Post {
            title: String::from_str("Elin-Calliel"),
            audio_file: String::from_str("7-006.mp3"),
            avatar: String::from_str("avatar_6.png"),
            timelines: TransitionTimelines::init(),
            upvote_count: String::from_str("20.0k"),
            posted_when: String::from_str("2 d. ago"),
            replies_count: String::from_str("82"),
        }));
        scenes.push(SceneKind::Post(Post {
            title: String::from_str("nowhereman531"),
            audio_file: String::from_str("7-003.mp3"),
            avatar: String::from_str("avatar_2.png"),
            timelines: TransitionTimelines::init(),
            upvote_count: String::from_str("12.9k"),
            posted_when: String::from_str("2 d. ago"),
            replies_count: String::from_str("116"),
        }));
        scenes.push(SceneKind::Post(Post {
            title: String::from_str("Portarossa"),
            audio_file: String::from_str("7-004.mp3"),
            avatar: String::from_str("avatar_3.png"),
            timelines: TransitionTimelines::init(),
            upvote_count: String::from_str("13.5k"),
            posted_when: String::from_str("2 d. ago"),
            replies_count: String::from_str("204"),
        }));
        scenes.push(SceneKind::Post(Post {
            title: String::from_str("hello_friend"),
            audio_file: String::from_str("7-005.mp3"),
            avatar: String::from_str("avatar_4.png"),
            timelines: TransitionTimelines::init(),
            upvote_count: String::from_str("10.1k"),
            posted_when: String::from_str("2 d. ago"),
            replies_count: String::from_str("80"),
        }));
        scenes.push(SceneKind::Bubble(BubbleTransitionScene {
            title: String::from_str("What yells I have no life?"),
            upvotes_count: String::from_str("24.8k"),
            fill: String::from_str("#fcf8f5"),
            author: String::from_str("u/11pxny4"),
            when: String::from_str("2 days ago"),
            variant: Variant::Exit,
        }));
        scenes
    }
}

/// Collects every scene's declared duration, in scene order.
pub fn scene_durations(scenes: &Vec<SceneKind>) -> (r: Vec<Duration>)
    ensures
        r@.len() == scenes@.len(),
        forall|i: int| 0 <= i < scenes@.len() ==> scene_duration_matches(scenes@[i], #[trigger] r@[i]),
        forall|i: int| 0 <= i < scenes@.len() ==> duration_wf(#[trigger] r@[i]),
{
    let n = scenes.len();
    let mut r: Vec<Duration> = Vec::new();
    let mut i: usize = 0;
    while i < n
        invariant
            n == scenes@.len(),
            0 <= i <= n,
            r@.len() == i,
            forall|j: int| 0 <= j < i ==> scene_duration_matches(scenes@[j], #[trigger] r@[j]),
            forall|j: int| 0 <= j < i ==> duration_wf(#[trigger] r@[j]),
        decreases n - i,
    {
        let d = scenes[i].duration();
        r.push(d);
        i = i + 1;
    }
    r
}

/// Collects every scene's declared overlap, in scene order.
pub fn scene_overlaps(scenes: &Vec<SceneKind>) -> (r: Vec<Overlap>)
    ensures
        r@.len() == scenes@.len(),
        forall|i: int| 0 <= i < scenes@.len() ==> scene_overlap_matches(scenes@[i], #[trigger] r@[i]),
        forall|i: int| 0 <= i < scenes@.len() ==> overlap_wf(#[trigger] r@[i]),
{
    let n = scenes.len();
    let mut r: Vec<Overlap> = Vec::new();
    let mut i: usize = 0;
    while i < n
        invariant
            n == scenes@.len(),
            0 <= i <= n,
            r@.len() == i,
            forall|j: int| 0 <= j < i ==> scene_overlap_matches(scenes@[j], #[trigger] r@[j]),
            forall|j: int| 0 <= j < i ==> overlap_wf(#[trigger] r@[j]),
        decreases n - i,
    {
        let o = scenes[i].overlap();
        r.push(o);
        i = i + 1;
    }
    r
}

} // verus!
