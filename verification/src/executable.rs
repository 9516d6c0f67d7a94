//! Prepared cues and what executing them does.
//!
//! `prepare` turns a cue action into a one-shot `ExecutableCue` without
//! any audible side effect.  `execute` consumes the prepared value,
//! mutates the sink registry, and returns an `AudioCommand` telling the
//! caller what audio work to perform: start a composed source, ramp a
//! sink's volume, or stop sinks.  The registry bookkeeping is decided
//! here; the device work happens wherever the command is carried out.

use vstd::prelude::*;

use crate::actions::{FadeCue, StopCue};
use crate::engine::{
    entry_appended, entry_replaced, has_label, ActiveCue, AudioEngine, PlaybackMeta,
};
use crate::errors::ExecuteCueError;
use crate::strutil::str_eq;

verus! {

/// Where a playback with a fade-out splits: the source plays plainly for
/// `start_millis`, then its remaining `fade_millis` ramp out to silence.
#[derive(Debug, Clone, Copy, PartialEq, Eq, Structural)]
pub struct FadeOutSplit {
    pub start_millis: u64,
    pub fade_millis: u64,
}

/// The composed audio source an executed playback hands to the device:
/// everything the cue and the file probe determined, resolved to plain
/// values.
#[derive(Debug)]
pub enum SourcePlan {
    /// One file, truncated to `duration_millis`, with optional envelopes.
    Single {
        file: String,
        duration_millis: u64,
        repeat: bool,
        fade_in_millis: Option<u64>,
        fade_out: Option<FadeOutSplit>,
        volume: Option<u8>,
    },
    /// A list of files played back to back, in exactly this order.
    Sequence { files: Vec<String>, repeat: bool, volume: Option<u8> },
}

/// A prepared, not-yet-started playback: the composed source plan, the
/// label it will be registered under (if any), and its progress metadata.
#[derive(Debug)]
pub struct PlaybackExecutable {
    /// Registry label; an unlabeled playback starts detached and cannot
    /// be addressed later.
    pub label: Option<String>,
    /// The composed source to hand to the device.
    pub plan: SourcePlan,
    /// Progress metadata registered alongside the sink.
    pub meta: PlaybackMeta,
}

impl PlaybackExecutable {
    pub fn new(label: Option<String>, plan: SourcePlan, meta: PlaybackMeta) -> (r: Self)
        ensures
            r == (PlaybackExecutable { label, plan, meta }),
    {
        PlaybackExecutable { label, plan, meta }
    }
}

/// A prepared cue, ready to run once; variants mirror the action kinds.
/// Fades and stops need no preparation work, so their executables carry
/// the validated cue parameters unchanged.
#[derive(Debug)]
pub enum ExecutableCue {
    Playback(PlaybackExecutable),
    Fade(FadeCue),
    Stop(StopCue),
}

/// The audio work an executed cue asks its caller to perform.
#[derive(Debug)]
pub enum AudioCommand {
    /// Build the planned source, start sink `sink` playing it, and — when
    /// `detach` — let it run unsupervised instead of tracking it.
    Start { sink: u64, plan: SourcePlan, detach: bool },
    /// Ramp `sink` from its present volume to `target_volume` over
    /// `duration_millis`; see `fade_plan` for the schedule.
    Fade { sink: u64, target_volume: u8, duration_millis: u64 },
    /// Stop `sink` outright.
    Stop { sink: u64 },
    /// Stop every listed sink; the registry has already been drained.
    StopAll { sinks: Vec<u64> },
}

/// The handle counter after one allocation: it grows by one and saturates
/// at its maximum.
pub open spec fn saturated_inc(n: u64) -> int {
    if n < u64::MAX {
        n + 1
    } else {
        n as int
    }
}

/// `after` is the registry `before` with `sink` and `meta` registered
/// under `label`: overwritten in place if the label was present, appended
/// otherwise.
pub open spec fn registered(
    before: Seq<ActiveCue>,
    after: Seq<ActiveCue>,
    label: Seq<char>,
    sink: u64,
    meta: PlaybackMeta,
) -> bool {
    &&& has_label(before, label) ==> exists|i: int|
        0 <= i < before.len() && before[i].label@ == label && entry_replaced(
            before,
            after,
            i,
            label,
            sink,
            meta,
        )
    &&& !has_label(before, label) ==> entry_appended(before, after, label, sink, meta)
}

/// What executing a prepared playback does: it always succeeds, commands
/// the caller to start the plan on a freshly allocated sink, and registers
/// that sink under the cue's label — or registers nothing and detaches
/// when the playback is unlabeled.
pub open spec fn playback_executed(
    exe: PlaybackExecutable,
    before: Seq<ActiveCue>,
    next: u64,
    after: Seq<ActiveCue>,
    after_next: u64,
    r: Result<AudioCommand, ExecuteCueError>,
) -> bool {
    &&& after_next == saturated_inc(next)
    &&& r is Ok
    &&& r->Ok_0 matches AudioCommand::Start { sink, plan, detach } && sink == next && plan
        == exe.plan && detach == (exe.label is None)
    &&& match exe.label {
        Some(l) => registered(before, after, l@, next, exe.meta),
        None => after == before,
    }
}

/// What executing a fade does: the registry is only read.  If the target
/// labels an active sink, the caller is commanded to ramp that sink with
/// the cue's parameters; otherwise the missing target is reported.
pub open spec fn fade_executed(
    cue: FadeCue,
    entries: Seq<ActiveCue>,
    r: Result<AudioCommand, ExecuteCueError>,
) -> bool {
    match r {
        Ok(cmd) => has_label(entries, cue.target@) && (cmd matches AudioCommand::Fade {
            sink,
            target_volume,
            duration_millis,
        } && target_volume == cue.volume && duration_millis == cue.duration_millis && exists|
            i: int,
        |
            0 <= i < entries.len() && entries[i].label@ == cue.target@ && entries[i].sink == sink),
        Err(e) => !has_label(entries, cue.target@) && (e matches ExecuteCueError::MissingTarget(t)
            && t@ == cue.target@),
    }
}

/// What executing a stop does.  The sentinel target `"all"` drains the
/// whole registry and commands every drained sink stopped.  Any other
/// target is taken out of the registry and its sink stopped; a target
/// with no active sink is reported missing and nothing changes.
pub open spec fn stop_executed(
    cue: StopCue,
    before: Seq<ActiveCue>,
    after: Seq<ActiveCue>,
    r: Result<AudioCommand, ExecuteCueError>,
) -> bool {
    if cue.target@ == "all"@ {
        &&& after.len() == 0
        &&& r is Ok
        &&& r->Ok_0 matches AudioCommand::StopAll { sinks } && sinks@ == before.map_values(
            |e: ActiveCue| e.sink,
        )
    } else {
        match r {
            Ok(cmd) => cmd matches AudioCommand::Stop { sink } && exists|i: int|
                0 <= i < before.len() && before[i].label@ == cue.target@ && before[i].sink == sink
                    && after == before.remove(i),
            Err(e) => !has_label(before, cue.target@) && after == before && (e
                matches ExecuteCueError::MissingTarget(t) && t@ == cue.target@),
        }
    }
}

/// Preparing a playback whose file probe succeeded and then executing it
/// registers exactly one entry under the cue's label — the freshly
/// allocated sink with the prepared metadata — and a labelless playback
/// registers nothing at all.
pub proof fn prepare_execute_registers_once(
    cue: crate::actions::PlaybackCue,
    label: Option<Seq<char>>,
    probe: crate::prepare::PlaybackProbe,
    pr: Result<PlaybackExecutable, crate::errors::PlaybackCueError>,
    before: Seq<ActiveCue>,
    next: u64,
    after: Seq<ActiveCue>,
    after_next: u64,
    r: Result<AudioCommand, ExecuteCueError>,
)
    requires
        crate::engine::unique_labels(before),
        probe.io_ok,
        probe.decode_ok,
        crate::prepare::resolved_duration(cue, probe) is Some,
        crate::prepare::playback_prepared(cue, label, probe, pr),
        playback_executed(pr->Ok_0, before, next, after, after_next, r),
    ensures
        pr is Ok,
        r is Ok,
        label matches Some(l) ==> exists|i: int|
            0 <= i < after.len() && (#[trigger] after[i]).label@ == l && after[i].sink == next
                && after[i].meta == pr->Ok_0.meta && (forall|j: int|
                0 <= j < after.len() && j != i ==> after[j].label@ != l),
        label is None ==> after == before,
{
    let exe = pr->Ok_0;
    match label {
        Some(l) => {
            assert(exe.label is Some && exe.label->0@ == l);
            if has_label(before, l) {
                let i = choose|i: int|
                    0 <= i < before.len() && before[i].label@ == l && entry_replaced(
                        before,
                        after,
                        i,
                        l,
                        next,
                        exe.meta,
                    );
                assert forall|j: int| 0 <= j < after.len() && j != i implies after[j].label@
                    != l by {
                    assert(after[j] == before[j]);
                    if j < i {
                        assert(before[j].label@ != before[i].label@);
                    } else {
                        assert(before[i].label@ != before[j].label@);
                    }
                }
                assert(0 <= i < after.len() && after[i].label@ == l && after[i].sink == next
                    && after[i].meta == exe.meta && (forall|j: int|
                    0 <= j < after.len() && j != i ==> after[j].label@ != l));
            } else {
                let i = after.len() - 1;
                assert forall|j: int| 0 <= j < after.len() && j != i implies after[j].label@
                    != l by {
                    assert(after.subrange(0, before.len() as int)[j] == after[j]);
                    assert(after[j] == before[j]);
                }
                assert(0 <= i < after.len() && after[i].label@ == l && after[i].sink == next
                    && after[i].meta == exe.meta && (forall|j: int|
                    0 <= j < after.len() && j != i ==> after[j].label@ != l));
            }
        },
        None => {
            assert(exe.label is None);
        },
    }
}

impl PlaybackExecutable {
    /// Start the prepared playback: allocate its sink, register it under
    /// the cue's label (replacing any previous sink of that label), and
    /// command the caller to start the composed source.  An unlabeled
    /// playback is started detached and never tracked.
    pub fn execute(self, engine: &mut AudioEngine) -> (r: Result<AudioCommand, ExecuteCueError>)
        requires
            old(engine).wf(),
        ensures
            final(engine).wf(),
            playback_executed(
                self,
                old(engine).entries(),
                old(engine).next_id(),
                final(engine).entries(),
                final(engine).next_id(),
                r,
            ),
    {
        let sink = engine.allocate_sink();
        match self.label {
            Some(l) => {
                engine.add_sink(l.as_str(), sink, self.meta);
                Ok(AudioCommand::Start { sink, plan: self.plan, detach: false })
            },
            None => Ok(AudioCommand::Start { sink, plan: self.plan, detach: true }),
        }
    }
}

impl FadeCue {
    /// Trigger the fade: look the target up in the registry and command
    /// the caller to ramp its sink.  The ramp itself runs in the
    /// background; the registry is not changed.
    pub fn execute(self, engine: &mut AudioEngine) -> (r: Result<AudioCommand, ExecuteCueError>)
        requires
            old(engine).wf(),
        ensures
            final(engine).wf(),
            final(engine).entries() == old(engine).entries(),
            final(engine).next_id() == old(engine).next_id(),
            fade_executed(self, old(engine).entries(), r),
    {
        match engine.get_sink(self.target.as_str()) {
            Some(sink) => Ok(
                AudioCommand::Fade {
                    sink,
                    target_volume: self.volume,
                    duration_millis: self.duration_millis,
                },
            ),
            None => Err(ExecuteCueError::MissingTarget(self.target)),
        }
    }
}

impl StopCue {
    /// Trigger the stop: take the target's sink out of the registry and
    /// command it stopped, or drain the whole registry for the sentinel
    /// target `"all"`.
    pub fn execute(self, engine: &mut AudioEngine) -> (r: Result<AudioCommand, ExecuteCueError>)
        requires
            old(engine).wf(),
        ensures
            final(engine).wf(),
            final(engine).next_id() == old(engine).next_id(),
            stop_executed(self, old(engine).entries(), final(engine).entries(), r),
    {
        if str_eq(self.target.as_str(), "all") {
            let sinks = engine.stop_all();
            Ok(AudioCommand::StopAll { sinks })
        } else {
            match engine.take_sink(self.target.as_str()) {
                Some(sink) => Ok(AudioCommand::Stop { sink }),
                None => Err(ExecuteCueError::MissingTarget(self.target)),
            }
        }
    }
}

/// What executing a prepared cue of any kind does to the registry and
/// hands back, by the kind's own relation.
pub open spec fn cue_executed(
    exe: ExecutableCue,
    before: Seq<ActiveCue>,
    next: u64,
    after: Seq<ActiveCue>,
    after_next: u64,
    r: Result<AudioCommand, ExecuteCueError>,
) -> bool {
    match exe {
        ExecutableCue::Playback(p) => playback_executed(p, before, next, after, after_next, r),
        ExecutableCue::Fade(f) => after == before && after_next == next && fade_executed(
            f,
            before,
            r,
        ),
        ExecutableCue::Stop(s) => after_next == next && stop_executed(s, before, after, r),
    }
}

impl ExecutableCue {
    /// Run the prepared cue against the registry, returning the audio
    /// work the caller must now perform.
    pub fn execute(self, engine: &mut AudioEngine) -> (r: Result<AudioCommand, ExecuteCueError>)
        requires
            old(engine).wf(),
        ensures
            final(engine).wf(),
            cue_executed(
                self,
                old(engine).entries(),
                old(engine).next_id(),
                final(engine).entries(),
                final(engine).next_id(),
                r,
            ),
    {
        match self {
            ExecutableCue::Playback(c) => c.execute(engine),
            ExecutableCue::Fade(c) => c.execute(engine),
            ExecutableCue::Stop(c) => c.execute(engine),
        }
    }
}

}
