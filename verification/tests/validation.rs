use encue::{Cue, CueAction, FadeCue, FatalError, PlaybackCue, PlaylistCue, Script, StopCue};

fn demo_script() -> Script {
    Script::new(vec![
        Cue::new("SQ1", CueAction::Playback(PlaybackCue::new("sound.wav"))),
        Cue::new("SQ2", CueAction::Fade(FadeCue::new("SQ1").to_volume(40))),
        Cue::new("SQ3", CueAction::Stop(StopCue::new("all"))),
    ])
}

#[test]
fn valid_file() {
    // Every referenced path present, every target a label or "all".
    let script = demo_script();
    let present = vec![true, true, true];
    assert!(script.validate(&present).is_ok());
}

#[test]
fn validation_valid_file() {
    // The playback file is missing: validation names the cue and the file.
    let script = demo_script();
    let present = vec![false, true, true];
    match script.validate(&present) {
        Err(FatalError::CueFile(label, file)) => {
            assert_eq!(label, "SQ1");
            assert_eq!(file, "sound.wav");
        }
        other => panic!("expected CueFile error, got {other:?}"),
    }
}

#[test]
fn validation_rejects_dangling_target() {
    let script = Script::new(vec![
        Cue::new("SQ1", CueAction::Playback(PlaybackCue::new("sound.wav"))),
        Cue::new("SQ2", CueAction::Fade(FadeCue::new("nowhere"))),
    ]);
    let present = vec![true, true];
    match script.validate(&present) {
        Err(FatalError::CueTarget(label, target)) => {
            assert_eq!(label, "SQ2");
            assert_eq!(target, "nowhere");
        }
        other => panic!("expected CueTarget error, got {other:?}"),
    }
}

#[test]
fn validation_accepts_stop_all_sentinel() {
    let script = Script::new(vec![Cue::new("SQ1", CueAction::Stop(StopCue::new("all")))]);
    let present = vec![true];
    assert!(script.validate(&present).is_ok());
}

#[test]
fn validation_checks_playlist_folder() {
    let script = Script::new(vec![Cue::new(
        "SQ1",
        CueAction::Playlist(PlaylistCue::from_folder("music")),
    )]);
    // Folder missing.
    match script.validate(&vec![false]) {
        Err(FatalError::CueFile(label, folder)) => {
            assert_eq!(label, "SQ1");
            assert_eq!(folder, "music");
        }
        other => panic!("expected CueFile error, got {other:?}"),
    }
    // A folderless playlist has nothing to check.
    let script = Script::new(vec![Cue::new(
        "SQ1",
        CueAction::Playlist(PlaylistCue::from_files(vec!["a.mp3".to_string()])),
    )]);
    assert!(script.validate(&vec![false]).is_ok());
}

#[test]
fn validation_reports_first_failure() {
    let script = Script::new(vec![
        Cue::new("SQ1", CueAction::Fade(FadeCue::new("bogus1"))),
        Cue::new("SQ2", CueAction::Fade(FadeCue::new("bogus2"))),
    ]);
    match script.validate(&vec![true, true]) {
        Err(FatalError::CueTarget(label, target)) => {
            assert_eq!(label, "SQ1");
            assert_eq!(target, "bogus1");
        }
        other => panic!("expected CueTarget error, got {other:?}"),
    }
}

#[test]
fn cue_names_in_order() {
    let script = demo_script();
    assert_eq!(script.cue_names(), vec!["SQ1", "SQ2", "SQ3"]);
}

#[test]
fn script_master_defaults_to_full() {
    let script = demo_script();
    assert_eq!(script.master(), 100);
    let script = demo_script().with_master(80);
    assert_eq!(script.master(), 80);
}

#[test]
fn cue_accessors() {
    let cue = Cue::new("SQ1", CueAction::Playback(PlaybackCue::new("sound.wav")))
        .with_description("intro music")
        .with_hint("as the lights dim");
    assert_eq!(cue.label(), "SQ1");
    assert_eq!(cue.description(), "intro music");
    assert_eq!(cue.hint(), "as the lights dim");
    assert!(matches!(cue.action(), CueAction::Playback(p) if p.file() == "sound.wav"));
}

#[test]
fn fatal_error_message_names_the_cue() {
    let e = FatalError::CueTarget("SQ2".to_string(), "nowhere".to_string());
    assert_eq!(e.message(), "Invalid target in SQ2: nowhere");
    let e = FatalError::CueFile("SQ1".to_string(), "sound.wav".to_string());
    assert_eq!(e.message(), "Invalid audio file in SQ1: sound.wav");
}
