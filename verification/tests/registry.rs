use encue::engine::clock_parts;
use encue::{AudioEngine, PlaybackMeta};

fn meta(duration_millis: u64) -> PlaybackMeta {
    PlaybackMeta { start_millis: 0, duration_millis }
}

#[test]
fn add_get_take_roundtrip() {
    let mut engine = AudioEngine::new();
    assert_eq!(engine.get_sink("SQ1"), None);
    engine.add_sink("SQ1", 7, meta(1000));
    assert_eq!(engine.get_sink("SQ1"), Some(7));
    // get leaves the entry in place.
    assert_eq!(engine.get_sink("SQ1"), Some(7));
    assert_eq!(engine.take_sink("SQ1"), Some(7));
    assert_eq!(engine.get_sink("SQ1"), None);
    assert_eq!(engine.take_sink("SQ1"), None);
}

#[test]
fn add_replaces_same_label() {
    let mut engine = AudioEngine::new();
    engine.add_sink("SQ1", 1, meta(1000));
    engine.add_sink("SQ1", 2, meta(2000));
    assert_eq!(engine.get_sink("SQ1"), Some(2));
    let snapshot = engine.metadata();
    assert_eq!(snapshot.len(), 1);
    assert_eq!(snapshot[0].0, "SQ1");
    assert_eq!(snapshot[0].1.duration_millis, 2000);
}

#[test]
fn stop_all_drains_and_is_idempotent() {
    let mut engine = AudioEngine::new();
    engine.add_sink("SQ1", 1, meta(1000));
    engine.add_sink("SQ2", 2, meta(2000));
    assert_eq!(engine.stop_all(), vec![1, 2]);
    assert_eq!(engine.metadata().len(), 0);
    assert_eq!(engine.stop_all(), Vec::<u64>::new());
}

#[test]
fn gc_removes_only_drained_sinks() {
    let mut engine = AudioEngine::new();
    engine.add_sink("SQ1", 1, meta(1000));
    engine.add_sink("SQ2", 2, meta(2000));
    engine.add_sink("SQ3", 3, meta(3000));
    // Sinks 1 and 3 have played out; 2 still has queued audio.
    engine.gc(&vec![1, 3]);
    let snapshot = engine.metadata();
    assert_eq!(snapshot.len(), 1);
    assert_eq!(snapshot[0].0, "SQ2");
    assert_eq!(engine.get_sink("SQ2"), Some(2));
    assert_eq!(engine.get_sink("SQ1"), None);
}

#[test]
fn gc_with_nothing_drained_keeps_everything() {
    let mut engine = AudioEngine::new();
    engine.add_sink("SQ1", 1, meta(1000));
    engine.gc(&Vec::new());
    assert_eq!(engine.metadata().len(), 1);
}

#[test]
fn metadata_snapshot_in_registry_order() {
    let mut engine = AudioEngine::new();
    engine.add_sink("SQ1", 1, meta(1000));
    engine.add_sink("SQ2", 2, meta(2000));
    let snapshot = engine.metadata();
    assert_eq!(snapshot.len(), 2);
    assert_eq!(snapshot[0].0, "SQ1");
    assert_eq!(snapshot[0].1.duration_millis, 1000);
    assert_eq!(snapshot[1].0, "SQ2");
    assert_eq!(snapshot[1].1.duration_millis, 2000);
}

#[test]
fn clock_parts_split_minutes_and_seconds() {
    assert_eq!(clock_parts(125), (2, 5));
    assert_eq!(clock_parts(59), (0, 59));
    assert_eq!(clock_parts(600), (10, 0));
}
