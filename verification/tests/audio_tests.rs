use scene_timeline::audio::{
    resolve_audio_map, resolve_cue, AudioCue, EndAnchor, ResolvedEnd, StartAnchor,
};
use scene_timeline::sequencer::SceneInfo;

fn info(duration_in_frames: u64) -> SceneInfo {
    SceneInfo {
        index: 1,
        total_scenes_in_video: 3,
        is_first: false,
        is_last: false,
        duration_in_frames,
    }
}

#[test]
fn a_cue_at_second_zero_starts_at_the_scene_start() {
    // a scene starting at global frame 600, 60 fps
    let cue = AudioCue {
        file: "voice.mp3".to_string(),
        start: StartAnchor::AbsoluteMillis(0),
        end: EndAnchor::EndOfFile,
    };
    let w = resolve_cue(&cue, &info(300), 600, 60);
    assert_eq!(w.start_frame, 600);
    assert_eq!(w.end, ResolvedEnd::SourceEnd);
    assert_eq!(w.file, "voice.mp3");
}

#[test]
fn a_frame_offset_counts_back_from_the_scene_end() {
    // 20 frames before the end of a 300-frame scene: local frame 280
    let cue = AudioCue {
        file: "woosh.mp3".to_string(),
        start: StartAnchor::FrameOffsetFromSceneEnd(20),
        end: EndAnchor::EndOfFile,
    };
    let w = resolve_cue(&cue, &info(300), 0, 60);
    assert_eq!(w.start_frame, 280);
    assert_eq!(w.end, ResolvedEnd::SourceEnd);
}

#[test]
fn an_offset_longer_than_the_scene_clamps_to_its_start() {
    let cue = AudioCue {
        file: "click.mp3".to_string(),
        start: StartAnchor::FrameOffsetFromSceneEnd(80),
        end: EndAnchor::EndOfFile,
    };
    let w = resolve_cue(&cue, &info(50), 1000, 60);
    assert_eq!(w.start_frame, 1000);
}

#[test]
fn absolute_start_times_shift_by_the_scene_start() {
    let cue = AudioCue {
        file: "voice.mp3".to_string(),
        start: StartAnchor::AbsoluteMillis(1500),
        end: EndAnchor::AbsoluteMillis(2500),
    };
    let w = resolve_cue(&cue, &info(300), 600, 60);
    assert_eq!(w.start_frame, 600 + 90);
    assert_eq!(w.end, ResolvedEnd::Frame(600 + 150));
}

#[test]
fn a_whole_map_resolves_cue_by_cue() {
    let cues = vec![
        AudioCue {
            file: "voice.mp3".to_string(),
            start: StartAnchor::AbsoluteMillis(0),
            end: EndAnchor::EndOfFile,
        },
        AudioCue {
            file: "woosh.mp3".to_string(),
            start: StartAnchor::FrameOffsetFromSceneEnd(20),
            end: EndAnchor::EndOfFile,
        },
        AudioCue {
            file: "click.mp3".to_string(),
            start: StartAnchor::FrameOffsetFromSceneEnd(80),
            end: EndAnchor::EndOfFile,
        },
    ];
    let windows = resolve_audio_map(&cues, &info(300), 600, 60);
    assert_eq!(windows.len(), 3);
    assert_eq!(windows[0].start_frame, 600);
    assert_eq!(windows[1].start_frame, 600 + 280);
    assert_eq!(windows[2].start_frame, 600 + 220);
    assert!(windows.iter().all(|w| w.end == ResolvedEnd::SourceEnd));
}

#[test]
fn an_empty_map_resolves_to_no_windows() {
    let windows = resolve_audio_map(&Vec::new(), &info(300), 600, 60);
    assert!(windows.is_empty());
}
