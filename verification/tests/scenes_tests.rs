use scene_timeline::audio::{EndAnchor, StartAnchor};
use scene_timeline::scenes::{BubbleTransitionScene, Variant};
use scene_timeline::sequencer::{Duration, Overlap};

fn bubble(variant: Variant) -> BubbleTransitionScene {
    BubbleTransitionScene {
        fill: "#fcf8f5".to_string(),
        variant,
        title: "What yells I have no life?".to_string(),
        upvotes_count: "24.8k".to_string(),
        author: "u/11pxny4".to_string(),
        when: "2 days ago".to_string(),
    }
}

#[test]
fn the_exit_bubble_is_silent_and_fixed_length() {
    let b = bubble(Variant::Exit);
    assert!(b.audio_map().is_empty());
    assert!(matches!(b.duration(), Duration::Millis(2700)));
    assert_eq!(b.overlap(), Overlap::Next(900));
}

#[test]
fn the_title_bubble_reads_its_audio_file() {
    let b = bubble(Variant::Title { audio_file: "7-001.mp3".to_string() });
    let cues = b.audio_map();
    assert_eq!(cues.len(), 1);
    assert_eq!(cues[0].file, "7-001.mp3");
    assert_eq!(cues[0].start, StartAnchor::AbsoluteMillis(0));
    assert_eq!(cues[0].end, EndAnchor::EndOfFile);
    match b.duration() {
        Duration::FromAudio(f) => assert_eq!(f, "7-001.mp3"),
        other => panic!("the title bubble's length comes from its audio, got {:?}", other),
    }
    assert_eq!(b.overlap(), Overlap::Next(940));
}

#[test]
fn the_exit_bubble_pops_its_scale_up() {
    let b = bubble(Variant::Exit);
    let tl = b.scale_timeline(2700);
    // before the pop: a dot; long after: settled near twelve units
    assert_eq!(tl.evaluate(0), 100);
    assert_eq!(tl.evaluate(100), 100);
    let late = tl.evaluate(10_000);
    assert!((late - 12_000).abs() <= 100);
}

#[test]
fn the_title_bubble_shrinks_away_at_its_end() {
    let b = bubble(Variant::Title { audio_file: "7-001.mp3".to_string() });
    let tl = b.scale_timeline(5000);
    assert_eq!(tl.evaluate(0), 16_000);
    assert_eq!(tl.evaluate(4100), 16_000);
    let late = tl.evaluate(30_000);
    assert!(late.abs() <= 100);
}

#[test]
fn only_the_exit_bubble_slides_its_text() {
    let exit = bubble(Variant::Exit);
    let tl = exit.text_translate_timeline(2700).unwrap();
    assert_eq!(tl.evaluate(0), 0);
    // the integer integrator settles within a fraction of a unit
    let late = tl.evaluate(30_000);
    assert!((late - 1_080_000).abs() <= 300);

    let title = bubble(Variant::Title { audio_file: "7-001.mp3".to_string() });
    assert!(title.text_translate_timeline(5000).is_none());
}
