use scene_timeline::millis_to_frames;
use scene_timeline::frames_to_millis;
use scene_timeline::sequencer::{
    resolve_duration, resolve_entries, resolve_overlap, scene_infos, sequence, total_video_frames,
    Duration, Overlap, SequenceEntry, TimelineError,
};

fn entry(duration_frames: u64, overlap_frames: u64) -> SequenceEntry {
    SequenceEntry { duration_frames, overlap_frames }
}

#[test]
fn three_scenes_place_as_expected() {
    // durations [120, 300, 90] frames, overlaps [20, 15, —]
    let entries = vec![entry(120, 20), entry(300, 15), entry(90, 7)];
    let slots = sequence(&entries).unwrap();
    let starts: Vec<u64> = slots.iter().map(|s| s.start_frame).collect();
    assert_eq!(starts, vec![0, 100, 385]);
    assert_eq!(total_video_frames(&slots), 475);
}

#[test]
fn adjacent_slots_obey_the_recurrence() {
    let entries = vec![entry(162, 56), entry(500, 18), entry(404, 18), entry(222, 0), entry(162, 54)];
    let slots = sequence(&entries).unwrap();
    assert_eq!(slots[0].start_frame, 0);
    for i in 0..slots.len() - 1 {
        assert_eq!(
            slots[i + 1].start_frame,
            slots[i].start_frame + slots[i].duration_frames - slots[i].overlap_frames_with_next
        );
    }
    let last = &slots[slots.len() - 1];
    assert_eq!(total_video_frames(&slots), last.start_frame + last.duration_frames);
}

#[test]
fn the_final_overlap_is_ignored() {
    let entries = vec![entry(120, 20), entry(300, 299)];
    let slots = sequence(&entries).unwrap();
    assert_eq!(slots[1].overlap_frames_with_next, 0);
    assert_eq!(total_video_frames(&slots), 100 + 300);
}

#[test]
fn overlap_longer_than_its_own_scene_is_an_error() {
    let entries = vec![entry(100, 200), entry(500, 0)];
    match sequence(&entries) {
        Err(TimelineError::InvalidOverlap { scene_index }) => assert_eq!(scene_index, 0),
        other => panic!("expected an invalid overlap error, got {:?}", other),
    }
}

#[test]
fn overlap_longer_than_the_next_scene_is_an_error() {
    let entries = vec![entry(100, 80), entry(50, 0), entry(40, 0)];
    match sequence(&entries) {
        Err(TimelineError::InvalidOverlap { scene_index }) => assert_eq!(scene_index, 0),
        other => panic!("expected an invalid overlap error, got {:?}", other),
    }
}

#[test]
fn the_first_offending_scene_is_reported() {
    let entries = vec![entry(100, 50), entry(60, 100), entry(40, 0)];
    match sequence(&entries) {
        Err(TimelineError::InvalidOverlap { scene_index }) => assert_eq!(scene_index, 1),
        other => panic!("expected an invalid overlap error, got {:?}", other),
    }
}

#[test]
fn scene_infos_carry_placement_metadata() {
    let entries = vec![entry(120, 20), entry(300, 15), entry(90, 0)];
    let slots = sequence(&entries).unwrap();
    let infos = scene_infos(&slots);
    assert_eq!(infos.len(), 3);
    assert_eq!(infos[0].index, 0);
    assert!(infos[0].is_first && !infos[0].is_last);
    assert!(!infos[1].is_first && !infos[1].is_last);
    assert!(!infos[2].is_first && infos[2].is_last);
    assert_eq!(infos[1].total_scenes_in_video, 3);
    assert_eq!(infos[1].duration_in_frames, 300);
}

#[test]
fn milli_frame_conversions_are_exact() {
    assert_eq!(millis_to_frames(2700, 60), 162);
    assert_eq!(millis_to_frames(940, 60), 56);
    assert_eq!(millis_to_frames(900, 60), 54);
    assert_eq!(frames_to_millis(162, 60), 2700);
    assert_eq!(frames_to_millis(300, 60), 5000);
}

#[test]
fn durations_resolve_against_measured_audio() {
    assert_eq!(resolve_duration(&Duration::Millis(2700), None, 60), Some(162));
    assert_eq!(resolve_duration(&Duration::FromAudio("a.mp3".to_string()), Some(3000), 60), Some(180));
    assert_eq!(resolve_duration(&Duration::FromAudio("a.mp3".to_string()), None, 60), None);
    assert_eq!(
        resolve_duration(&Duration::FromAudioPlus("a.mp3".to_string(), 1000), Some(2000), 60),
        Some(180)
    );
    assert_eq!(resolve_duration(&Duration::FromAudioPlus("a.mp3".to_string(), 1000), None, 60), None);
}

#[test]
fn overlaps_resolve_to_frames() {
    assert_eq!(resolve_overlap(&Overlap::Absent, 60), 0);
    assert_eq!(resolve_overlap(&Overlap::Next(940), 60), 56);
}

#[test]
fn a_missing_audio_length_names_its_scene() {
    let durations = vec![
        Duration::Millis(2700),
        Duration::FromAudio("voice.mp3".to_string()),
    ];
    let overlaps = vec![Overlap::Next(900), Overlap::Absent];
    let audio = vec![None, None];
    match resolve_entries(&durations, &overlaps, &audio, 60) {
        Err(TimelineError::UnresolvableDuration { scene_index }) => assert_eq!(scene_index, 1),
        other => panic!("expected an unresolvable duration error, got {:?}", other),
    }
}

#[test]
fn resolved_entries_feed_the_sequencer() {
    let durations = vec![
        Duration::Millis(2000),
        Duration::FromAudioPlus("voice.mp3".to_string(), 1000),
    ];
    let overlaps = vec![Overlap::Next(500), Overlap::Absent];
    let audio = vec![None, Some(4000)];
    let entries = resolve_entries(&durations, &overlaps, &audio, 60).unwrap();
    assert_eq!(entries[0].duration_frames, 120);
    assert_eq!(entries[0].overlap_frames, 30);
    assert_eq!(entries[1].duration_frames, 240 + 60);
    let slots = sequence(&entries).unwrap();
    assert_eq!(slots[1].start_frame, 90);
    assert_eq!(total_video_frames(&slots), 390);
}
