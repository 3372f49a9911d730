use scene_timeline::audio::{EndAnchor, StartAnchor};
use scene_timeline::cache::{build_transition_timelines, TransitionTimelines};
use scene_timeline::scenes::{Post, SceneKind, Variant};
use scene_timeline::sequencer::{
    resolve_entries, scene_infos, sequence, total_video_frames, SceneInfo,
};
use scene_timeline::video::{scene_durations, scene_overlaps, UpvotesVideo};

fn post_info(index: usize, total: usize, duration_in_frames: u64) -> SceneInfo {
    SceneInfo {
        index,
        total_scenes_in_video: total,
        is_first: index == 0,
        is_last: index + 1 == total,
        duration_in_frames,
    }
}

fn a_post() -> Post {
    Post {
        title: "purringfox".to_string(),
        audio_file: "7-002.mp3".to_string(),
        avatar: "avatar_1.png".to_string(),
        timelines: TransitionTimelines::init(),
        upvote_count: "4.3k".to_string(),
        posted_when: "2 d. ago".to_string(),
        replies_count: "158".to_string(),
    }
}

#[test]
fn the_video_defines_seven_scenes_in_order() {
    let scenes = UpvotesVideo {}.define_scenes();
    assert_eq!(scenes.len(), 7);
    match &scenes[0] {
        SceneKind::Bubble(b) => match &b.variant {
            Variant::Title { audio_file } => assert_eq!(audio_file, "7-001.mp3"),
            other => panic!("the first scene should be the title bubble, got {:?}", other),
        },
        _ => panic!("the first scene should be a bubble"),
    }
    for i in 1..=5 {
        assert!(matches!(&scenes[i], SceneKind::Post(_)));
    }
    match &scenes[6] {
        SceneKind::Bubble(b) => assert!(matches!(b.variant, Variant::Exit)),
        _ => panic!("the last scene should be the exit bubble"),
    }
    match &scenes[2] {
        SceneKind::Post(p) => {
            assert_eq!(p.title, "Elin-Calliel");
            assert_eq!(p.audio_file, "7-006.mp3");
            assert_eq!(p.avatar, "avatar_6.png");
        },
        _ => panic!("scene 2 should be a post"),
    }
}

#[test]
fn the_background_track_spans_the_video() {
    let audio = UpvotesVideo {}.audio();
    assert_eq!(audio.len(), 1);
    assert_eq!(audio[0].file, "background2.mp3");
    assert_eq!(audio[0].start, StartAnchor::AbsoluteMillis(0));
    assert_eq!(audio[0].end, EndAnchor::EndOfFile);
}

#[test]
fn the_whole_video_places_end_to_end() {
    // three scenes with measured voice tracks of 3 s and 4 s each
    let video = UpvotesVideo {};
    let scenes = video.define_scenes();
    let durations = scene_durations(&scenes);
    let overlaps = scene_overlaps(&scenes);
    let audio_ms = vec![
        Some(3000),
        Some(4000),
        Some(4000),
        Some(4000),
        Some(4000),
        Some(4000),
        None,
    ];
    let entries = resolve_entries(&durations, &overlaps, &audio_ms, 60).unwrap();
    let slots = sequence(&entries).unwrap();
    let starts: Vec<u64> = slots.iter().map(|s| s.start_frame).collect();
    assert_eq!(starts, vec![0, 124, 406, 688, 970, 1252, 1534]);
    assert_eq!(total_video_frames(&slots), 1534 + 162);
    let infos = scene_infos(&slots);
    assert_eq!(infos.len(), 7);
    assert!(infos[6].is_last);
}

#[test]
fn a_post_woosh_is_omitted_on_the_second_to_last_scene() {
    let p = a_post();
    let with_woosh = p.audio_map(&post_info(1, 7, 300));
    assert_eq!(with_woosh.len(), 3);
    assert_eq!(with_woosh[0].file, "7-002.mp3");
    assert_eq!(with_woosh[1].file, "woosh.mp3");
    assert_eq!(with_woosh[1].start, StartAnchor::FrameOffsetFromSceneEnd(20));
    assert_eq!(with_woosh[2].file, "click.mp3");
    assert_eq!(with_woosh[2].start, StartAnchor::FrameOffsetFromSceneEnd(80));

    let second_to_last = p.audio_map(&post_info(5, 7, 300));
    assert_eq!(second_to_last.len(), 2);
    assert_eq!(second_to_last[0].file, "7-002.mp3");
    assert_eq!(second_to_last[1].file, "click.mp3");
}

#[test]
fn the_downvote_arrow_offset_follows_the_score_length() {
    let mut p = a_post();
    assert_eq!(p.downvote_arrow_offset(), 30); // "4.3k": four characters
    p.upvote_count = "20.0k".to_string();
    assert_eq!(p.downvote_arrow_offset(), 55);
    p.upvote_count = "999".to_string();
    assert_eq!(p.downvote_arrow_offset(), 33);
}

#[test]
fn the_timeline_cache_returns_the_same_reference_every_time() {
    let cache = TransitionTimelines::init();
    let info = post_info(1, 3, 600);
    let first = cache.get(&info, 60);
    let second = cache.get(&info, 60);
    let third = cache.get(&info, 60);
    assert!(std::ptr::eq(first, second));
    assert!(std::ptr::eq(second, third));
}

#[test]
fn the_cached_timelines_equal_a_fresh_build() {
    let cache = TransitionTimelines::init();
    let info = post_info(1, 3, 600);
    let cached = cache.get(&info, 60);
    let fresh = build_transition_timelines(&info, 60);
    for t in [-100i64, 0, 150, 300, 5000, 9700, 9850, 10_000, 20_000] {
        assert_eq!(cached.translate.evaluate(t), fresh.translate.evaluate(t));
    }
    let cached_skew = cached.skew.as_ref().unwrap();
    let fresh_skew = fresh.skew.as_ref().unwrap();
    for t in [0i64, 9700, 9850, 10_000] {
        assert_eq!(cached_skew.evaluate(t), fresh_skew.evaluate(t));
    }
}

#[test]
fn transition_timelines_slide_in_and_out() {
    // 600 frames at 60 fps: a ten-second scene
    let info = post_info(1, 3, 600);
    let pair = build_transition_timelines(&info, 60);
    assert_eq!(pair.translate.evaluate(0), 1_080_000);
    assert_eq!(pair.translate.evaluate(150), 540_000);
    assert_eq!(pair.translate.evaluate(5000), 0);
    assert_eq!(pair.translate.evaluate(9850), -540_000);
    assert_eq!(pair.translate.evaluate(10_000), -1_080_000);
    let skew = pair.skew.as_ref().unwrap();
    assert_eq!(skew.evaluate(9700), 0);
    assert_eq!(skew.evaluate(10_000), 10_000);
}

#[test]
fn the_first_scene_only_exits_and_the_last_only_enters() {
    let first = build_transition_timelines(&post_info(0, 3, 600), 60);
    assert_eq!(first.translate.evaluate(0), 0);
    assert_eq!(first.translate.evaluate(10_000), -1_080_000);
    assert!(first.skew.is_some());

    let last = build_transition_timelines(&post_info(2, 3, 600), 60);
    assert_eq!(last.translate.evaluate(0), 1_080_000);
    assert_eq!(last.translate.evaluate(5000), 0);
    assert!(last.skew.is_none());
}
