use encue::{
    AppState, AudioCommand, AudioEngine, Cue, CueAction, CueProbe, ExecuteCueError, FadeCue, Key,
    KeyCommand, LazyExecutable, PlaybackCue, PlaybackProbe, StopCue,
};
use encue::state::key_command;

fn good_playback_probe() -> CueProbe {
    CueProbe::Playback(PlaybackProbe {
        io_ok: true,
        meta_duration_millis: Some(30_000),
        decode_ok: true,
        now_millis: 0,
    })
}

fn bad_playback_probe() -> CueProbe {
    CueProbe::Playback(PlaybackProbe {
        io_ok: false,
        meta_duration_millis: None,
        decode_ok: false,
        now_millis: 0,
    })
}

fn playback_cue(label: &str) -> Cue {
    Cue::new(label, CueAction::Playback(PlaybackCue::new("sound.wav")))
}

fn three_cue_state() -> AppState {
    let cues = vec![playback_cue("SQ1"), playback_cue("SQ2"), playback_cue("SQ3")];
    let probes = vec![good_playback_probe(), good_playback_probe(), good_playback_probe()];
    AppState::new(cues, &probes)
}

#[test]
fn selection_wraps_forward_and_back() {
    let mut state = three_cue_state();
    assert_eq!(state.selected(), 0);
    state.select_next();
    assert_eq!(state.selected(), 1);
    state.select_next();
    assert_eq!(state.selected(), 2);
    // From the last cue, next wraps to the first.
    state.select_next();
    assert_eq!(state.selected(), 0);
    // From the first cue, prev wraps to the last.
    state.select_prev();
    assert_eq!(state.selected(), 2);
    state.select_prev();
    assert_eq!(state.selected(), 1);
}

#[test]
fn executing_a_labeled_cue_registers_one_entry() {
    let mut state = three_cue_state();
    let cmd = state.execute_selected(&good_playback_probe()).unwrap();
    match cmd {
        AudioCommand::Start { sink, detach, .. } => {
            assert!(!detach);
            assert_eq!(state.engine().get_sink("SQ1"), Some(sink));
        }
        other => panic!("expected a start command, got {other:?}"),
    }
    assert_eq!(state.metadata().len(), 1);
    assert_eq!(state.metadata()[0].0, "SQ1");
}

#[test]
fn executing_an_unlabeled_playback_registers_nothing() {
    let mut engine = AudioEngine::new();
    let action = CueAction::Playback(PlaybackCue::new("sound.wav"));
    let exe = action.prepare(None, &good_playback_probe()).unwrap();
    let cmd = exe.execute(&mut engine).unwrap();
    match cmd {
        AudioCommand::Start { detach, .. } => assert!(detach),
        other => panic!("expected a start command, got {other:?}"),
    }
    assert_eq!(engine.metadata().len(), 0);
}

#[test]
fn stop_on_empty_registry_reports_missing_target() {
    let mut engine = AudioEngine::new();
    let r = StopCue::new("missing").execute(&mut engine);
    match r {
        Err(ExecuteCueError::MissingTarget(t)) => assert_eq!(t, "missing"),
        other => panic!("expected MissingTarget, got {other:?}"),
    }
}

#[test]
fn stop_all_target_drains_the_registry() {
    let mut engine = AudioEngine::new();
    engine.add_sink("SQ1", 1, encue::PlaybackMeta { start_millis: 0, duration_millis: 1 });
    engine.add_sink("SQ2", 2, encue::PlaybackMeta { start_millis: 0, duration_millis: 1 });
    let r = StopCue::new("all").execute(&mut engine).unwrap();
    match r {
        AudioCommand::StopAll { sinks } => assert_eq!(sinks, vec![1, 2]),
        other => panic!("expected StopAll, got {other:?}"),
    }
    assert_eq!(engine.metadata().len(), 0);
}

#[test]
fn fade_without_target_reports_missing_target() {
    let mut engine = AudioEngine::new();
    let r = FadeCue::new("SQ9").execute(&mut engine);
    match r {
        Err(ExecuteCueError::MissingTarget(t)) => assert_eq!(t, "SQ9"),
        other => panic!("expected MissingTarget, got {other:?}"),
    }
}

#[test]
fn fade_commands_the_targets_sink() {
    let mut engine = AudioEngine::new();
    engine.add_sink("SQ1", 4, encue::PlaybackMeta { start_millis: 0, duration_millis: 1 });
    let r = FadeCue::new("SQ1").to_volume(20).for_duration(1_000).execute(&mut engine).unwrap();
    match r {
        AudioCommand::Fade { sink, target_volume, duration_millis } => {
            assert_eq!(sink, 4);
            assert_eq!(target_volume, 20);
            assert_eq!(duration_millis, 1_000);
        }
        other => panic!("expected a fade command, got {other:?}"),
    }
    // The fade only read the registry: the entry is still there.
    assert_eq!(engine.get_sink("SQ1"), Some(4));
}

#[test]
fn lazy_cache_remembers_failure() {
    let cue = playback_cue("SQ1");
    let mut slot = LazyExecutable::new();
    slot.load(&cue, &bad_playback_probe());
    assert!(slot.take().is_none());
    // A failed slot is not retried, even with a probe that would succeed.
    slot.load(&cue, &good_playback_probe());
    assert!(slot.take().is_none());
}

#[test]
fn lazy_cache_never_reprepares_a_ready_slot() {
    let cue = playback_cue("SQ1");
    let mut slot = LazyExecutable::new();
    slot.load(&cue, &good_playback_probe());
    // Loading again must be a no-op: were it re-prepared here, this bad
    // probe would turn the slot into an error.
    slot.load(&cue, &bad_playback_probe());
    assert!(slot.take().is_some());
    // take consumed the slot; the next load prepares anew.
    slot.load(&cue, &good_playback_probe());
    assert!(slot.take().is_some());
}

#[test]
fn executing_a_failed_cue_reports_it() {
    let cues = vec![playback_cue("SQ1")];
    let probes = vec![bad_playback_probe()];
    let mut state = AppState::new(cues, &probes);
    let r = state.execute_selected(&bad_playback_probe());
    match r {
        Err(ExecuteCueError::General(m)) => assert_eq!(m, "Cue failed to load"),
        other => panic!("expected a load failure, got {other:?}"),
    }
    assert_eq!(state.metadata().len(), 0);
}

#[test]
fn triggering_twice_prepares_anew() {
    let mut state = three_cue_state();
    assert!(state.execute_selected(&good_playback_probe()).is_ok());
    // The first trigger consumed the prepared executable; the second
    // prepares again and replaces the registered sink under the label.
    assert!(state.execute_selected(&good_playback_probe()).is_ok());
    assert_eq!(state.metadata().len(), 1);
}

#[test]
fn upkeep_collects_only_drained_sinks() {
    let mut state = three_cue_state();
    let first = match state.execute_selected(&good_playback_probe()).unwrap() {
        AudioCommand::Start { sink, .. } => sink,
        other => panic!("expected a start command, got {other:?}"),
    };
    state.select_next();
    let second = match state.execute_selected(&good_playback_probe()).unwrap() {
        AudioCommand::Start { sink, .. } => sink,
        other => panic!("expected a start command, got {other:?}"),
    };
    // The first sink has played out; the second still has queued audio.
    state.upkeep(&vec![first]);
    assert_eq!(state.metadata().len(), 1);
    assert_eq!(state.engine().get_sink("SQ2"), Some(second));
    assert_eq!(state.engine().get_sink("SQ1"), None);
}

#[test]
fn stop_all_returns_every_active_sink() {
    let mut state = three_cue_state();
    state.execute_selected(&good_playback_probe()).unwrap();
    state.select_next();
    state.execute_selected(&good_playback_probe()).unwrap();
    let sinks = state.stop_all();
    assert_eq!(sinks.len(), 2);
    assert_eq!(state.metadata().len(), 0);
}

#[test]
fn quit_deactivates_the_loop() {
    let mut state = three_cue_state();
    assert!(state.active());
    state.quit();
    assert!(!state.active());
}

#[test]
fn empty_cue_list_reports_out_of_bounds() {
    let mut state = AppState::new(Vec::new(), &Vec::new());
    let r = state.execute_selected(&CueProbe::Control);
    match r {
        Err(ExecuteCueError::General(m)) => assert_eq!(m, "cue index out of bounds"),
        other => panic!("expected an index error, got {other:?}"),
    }
}

#[test]
fn key_bindings_match_the_hotkey_guide() {
    assert_eq!(key_command(Key::Char('q')), KeyCommand::Quit);
    assert_eq!(key_command(Key::Char('j')), KeyCommand::SelectNext);
    assert_eq!(key_command(Key::Down), KeyCommand::SelectNext);
    assert_eq!(key_command(Key::Char('k')), KeyCommand::SelectPrev);
    assert_eq!(key_command(Key::Up), KeyCommand::SelectPrev);
    assert_eq!(key_command(Key::Char(' ')), KeyCommand::ExecuteThenNext);
    assert_eq!(key_command(Key::Char('s')), KeyCommand::StopAll);
    assert_eq!(key_command(Key::Char('x')), KeyCommand::Ignore);
    assert_eq!(key_command(Key::Other), KeyCommand::Ignore);
}

#[test]
fn fade_shorthand_equals_structured_defaults() {
    // The short string form `fade: SQ1` means the structured form with
    // default volume 0 and the default five-second duration.
    let shorthand = FadeCue::new("SQ1");
    let structured = FadeCue::new("SQ1").to_volume(0).for_duration(5_000);
    assert_eq!(shorthand.target(), structured.target());
    assert_eq!(shorthand.volume(), structured.volume());
    assert_eq!(shorthand.duration(), structured.duration());
    assert_eq!(shorthand.volume(), 0);
    assert_eq!(shorthand.duration(), 5_000);
}

#[test]
fn stop_shorthand_equals_structured_form() {
    let shorthand = StopCue::new("all");
    assert_eq!(shorthand.target(), "all");
}

#[test]
fn execute_error_messages() {
    let e = ExecuteCueError::MissingTarget("SQ7".to_string());
    assert_eq!(e.message(), "Couldn't find target cue SQ7");
    let e = ExecuteCueError::General("Cue failed to load");
    assert_eq!(e.message(), "Cue failed to load");
}
