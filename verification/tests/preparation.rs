use encue::{
    PlaybackCue, PlaybackCueError, PlaybackProbe, PlaylistCue, PlaylistCueError,
    PlaylistProbe, SourcePlan,
};

fn good_probe() -> PlaybackProbe {
    PlaybackProbe { io_ok: true, meta_duration_millis: Some(30_000), decode_ok: true, now_millis: 5 }
}

#[test]
fn playback_prepare_explicit_duration_wins() {
    let cue = PlaybackCue::new("sound.wav")
        .for_duration(45_000)
        .fade_in_for(5_000)
        .fade_out_for(10_000);
    let exe = cue.prepare(Some("SQ1"), &good_probe()).unwrap();
    assert_eq!(exe.label.as_deref(), Some("SQ1"));
    assert_eq!(exe.meta.duration_millis, 45_000);
    assert_eq!(exe.meta.start_millis, 5);
    match exe.plan {
        SourcePlan::Single { file, duration_millis, repeat, fade_in_millis, fade_out, volume } => {
            assert_eq!(file, "sound.wav");
            assert_eq!(duration_millis, 45_000);
            assert!(!repeat);
            assert_eq!(fade_in_millis, Some(5_000));
            let split = fade_out.unwrap();
            assert_eq!(split.start_millis, 35_000);
            assert_eq!(split.fade_millis, 10_000);
            assert_eq!(volume, None);
        }
        other => panic!("expected a single-file plan, got {other:?}"),
    }
}

#[test]
fn playback_prepare_reads_duration_from_metadata() {
    let cue = PlaybackCue::new("sound.wav");
    let exe = cue.prepare(None, &good_probe()).unwrap();
    assert_eq!(exe.label, None);
    assert_eq!(exe.meta.duration_millis, 30_000);
    match exe.plan {
        SourcePlan::Single { duration_millis, fade_out, .. } => {
            assert_eq!(duration_millis, 30_000);
            assert!(fade_out.is_none());
        }
        other => panic!("expected a single-file plan, got {other:?}"),
    }
}

#[test]
fn playback_prepare_fade_out_longer_than_duration_starts_at_zero() {
    let cue = PlaybackCue::new("sound.wav").for_duration(3_000).fade_out_for(10_000);
    let exe = cue.prepare(None, &good_probe()).unwrap();
    match exe.plan {
        SourcePlan::Single { fade_out, .. } => {
            let split = fade_out.unwrap();
            assert_eq!(split.start_millis, 0);
            assert_eq!(split.fade_millis, 10_000);
        }
        other => panic!("expected a single-file plan, got {other:?}"),
    }
}

#[test]
fn playback_prepare_unreadable_file() {
    let cue = PlaybackCue::new("sound.wav");
    let probe = PlaybackProbe { io_ok: false, ..good_probe() };
    assert!(matches!(cue.prepare(None, &probe), Err(PlaybackCueError::File)));
}

#[test]
fn playback_prepare_unreadable_metadata() {
    // No explicit duration and no metadata: the duration cannot be known.
    let cue = PlaybackCue::new("sound.wav");
    let probe = PlaybackProbe { meta_duration_millis: None, ..good_probe() };
    assert!(matches!(cue.prepare(None, &probe), Err(PlaybackCueError::Metadata)));
    // An explicit duration makes the metadata failure irrelevant.
    let cue = PlaybackCue::new("sound.wav").for_duration(1_000);
    assert!(cue.prepare(None, &probe).is_ok());
}

#[test]
fn playback_prepare_undecodable_audio() {
    let cue = PlaybackCue::new("sound.wav");
    let probe = PlaybackProbe { decode_ok: false, ..good_probe() };
    assert!(matches!(cue.prepare(None, &probe), Err(PlaybackCueError::Decode)));
}

fn names(v: &[&str]) -> Vec<String> {
    v.iter().map(|s| s.to_string()).collect()
}

#[test]
fn playlist_prepare_keeps_script_order() {
    let cue = PlaylistCue::from_files(names(&["a.mp3", "b.mp3"]));
    let probe = PlaylistProbe {
        folder_ok: true,
        folder_files: names(&["c.mp3", "d.mp3"]),
        now_millis: 0,
    };
    let exe = cue.prepare(Some("SQ1"), &probe).unwrap();
    assert_eq!(exe.meta.duration_millis, 0);
    match exe.plan {
        SourcePlan::Sequence { files, repeat, volume } => {
            assert_eq!(files, names(&["a.mp3", "b.mp3", "c.mp3", "d.mp3"]));
            assert!(!repeat);
            assert_eq!(volume, None);
        }
        other => panic!("expected a sequence plan, got {other:?}"),
    }
}

#[test]
fn playlist_shuffle_keeps_exactly_the_given_files() {
    let given = names(&["a.mp3", "b.mp3", "c.mp3", "d.mp3", "e.mp3", "f.mp3"]);
    let cue = PlaylistCue::from_files(given.clone()).with_shuffle();
    let probe = PlaylistProbe { folder_ok: true, folder_files: Vec::new(), now_millis: 0 };
    let exe = cue.prepare(None, &probe).unwrap();
    match exe.plan {
        SourcePlan::Sequence { files, .. } => {
            let mut played = files;
            let mut expected = given;
            played.sort();
            expected.sort();
            assert_eq!(played, expected);
        }
        other => panic!("expected a sequence plan, got {other:?}"),
    }
}

#[test]
fn playlist_prepare_unlistable_folder() {
    let cue = PlaylistCue::from_folder("music");
    let probe = PlaylistProbe { folder_ok: false, folder_files: Vec::new(), now_millis: 0 };
    assert!(matches!(cue.prepare(None, &probe), Err(PlaylistCueError::File)));
}

#[test]
fn playlist_builders_compose() {
    let cue = PlaylistCue::from_folder("music").with_repeat().with_shuffle().with_volume(60);
    assert_eq!(cue.folder(), Some("music"));
    assert!(cue.repeat);
    assert!(cue.shuffle);
    assert_eq!(cue.volume, Some(60));
    let cue = PlaylistCue::from_files(names(&["a.mp3"])).with_file("b.mp3".to_string());
    assert_eq!(cue.files, names(&["a.mp3", "b.mp3"]));
}
