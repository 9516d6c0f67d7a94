//! The control state an operator steps through: the cue list with its
//! selection, the lazy per-cue cache of prepared executables, and the
//! engine's registry of active sinks.
//!
//! The cache memoizes preparation per cue slot.  A slot loads once; a
//! successful load is never repeated, a failed load is remembered and
//! never silently retried — re-preparation must be explicit.  Triggering
//! a cue consumes the prepared value, so the next trigger prepares anew.

use vstd::prelude::*;
use vstd::pervasive::VecAdditionalExecFns;

use crate::cues::Cue;
use crate::engine::{ActiveCue, AudioEngine, PlaybackMeta};
use crate::errors::ExecuteCueError;
use crate::executable::{cue_executed, AudioCommand, ExecutableCue};
use crate::prepare::{action_prepare_fails, action_prepared, probe_matches, CueProbe};

verus! {

/// One cue slot's cache state: not yet prepared, prepared and waiting,
/// or failed for good.
#[derive(Debug)]
pub enum LazyExecutable {
    /// A prepared executable, waiting to be consumed.
    Ready(ExecutableCue),
    /// Preparation failed; remembered so that every keypress does not
    /// retry a broken cue.
    Error,
    /// Nothing prepared yet (also the state after a `take`).
    NotLoaded,
}

/// What `load` does to a slot: a `Ready` slot is left exactly as it is
/// (never re-prepared), an `Error` slot stays `Error`, and a `NotLoaded`
/// slot prepares the cue — landing `Ready` on success and `Error` on
/// failure.
pub open spec fn loaded_after(
    before: LazyExecutable,
    cue: Cue,
    probe: CueProbe,
    after: LazyExecutable,
) -> bool {
    match before {
        LazyExecutable::Ready(_) => after == before,
        LazyExecutable::Error => after is Error,
        LazyExecutable::NotLoaded => if action_prepare_fails(cue.action, probe) {
            after is Error
        } else {
            after matches LazyExecutable::Ready(e) && action_prepared(
                cue.action,
                Some(cue.label@),
                probe,
                Ok(e),
            )
        },
    }
}

/// The cache never retries and never re-prepares: loading a slot that
/// already failed leaves it failed, and loading a slot that already holds
/// a prepared executable leaves that very value in place.
pub proof fn load_is_idempotent(
    before: LazyExecutable,
    cue: Cue,
    probe: CueProbe,
    after: LazyExecutable,
)
    requires
        loaded_after(before, cue, probe, after),
    ensures
        before is Error ==> after is Error,
        before is Ready ==> after == before,
{
}

impl LazyExecutable {
    /// An empty slot.
    pub fn new() -> (r: Self)
        ensures
            r is NotLoaded,
    {
        LazyExecutable::NotLoaded
    }

    /// Prepare the slot's cue if nothing is cached yet.  Idempotent: a
    /// `Ready` slot is untouched and an `Error` slot stays failed.
    pub fn load(&mut self, cue: &Cue, probe: &CueProbe)
        requires
            probe_matches(cue.action, *probe),
        ensures
            loaded_after(*old(self), *cue, *probe, *final(self)),
    {
        match self {
            LazyExecutable::Ready(_) => {
                return ;
            },
            LazyExecutable::Error => {
                return ;
            },
            LazyExecutable::NotLoaded => {},
        }
        let r = cue.action.prepare(Some(cue.label.as_str()), probe);
        proof {
            crate::prepare::prepare_fails_iff_err(
                cue.action,
                Some(cue.label@),
                *probe,
                r,
            );
        }
        match r {
            Ok(exe) => {
                *self = LazyExecutable::Ready(exe);
            },
            Err(_) => {
                *self = LazyExecutable::Error;
            },
        }
    }

    /// Consume the slot: a `Ready` slot yields its executable and
    /// becomes `NotLoaded`; an `Error` slot yields nothing and stays
    /// `Error`; an empty slot yields nothing.
    pub fn take(&mut self) -> (r: Option<ExecutableCue>)
        ensures
            (match *old(self) {
                LazyExecutable::Ready(e) => r == Some(e) && *final(self) is NotLoaded,
                LazyExecutable::Error => r is None && *final(self) is Error,
                LazyExecutable::NotLoaded => r is None && *final(self) is NotLoaded,
            }),
    {
        match self {
            LazyExecutable::Error => None,
            _ => {
                let mut taken = LazyExecutable::NotLoaded;
                core::mem::swap(self, &mut taken);
                taken.inner()
            },
        }
    }

    /// The prepared executable, if the slot holds one.
    pub fn inner(self) -> (r: Option<ExecutableCue>)
        ensures
            (match self {
                LazyExecutable::Ready(e) => r == Some(e),
                LazyExecutable::Error => r is None,
                LazyExecutable::NotLoaded => r is None,
            }),
    {
        match self {
            LazyExecutable::Ready(exe) => Some(exe),
            _ => None,
        }
    }
}

/// A key the operator pressed, reduced to what the control surface
/// distinguishes.
#[derive(Debug, Clone, Copy, PartialEq, Eq, Structural)]
pub enum Key {
    Char(char),
    Up,
    Down,
    Other,
}

/// What a key asks the control loop to do.
#[derive(Debug, Clone, Copy, PartialEq, Eq, Structural)]
pub enum KeyCommand {
    /// Leave the control loop.
    Quit,
    /// Move the selection down one cue, wrapping.
    SelectNext,
    /// Move the selection up one cue, wrapping.
    SelectPrev,
    /// Trigger the selected cue, then move the selection on.
    ExecuteThenNext,
    /// Stop every active sink.
    StopAll,
    /// Nothing.
    Ignore,
}

/// The key bindings of the control surface.
pub open spec fn spec_key_command(key: Key) -> KeyCommand {
    match key {
        Key::Char(c) => if c == 'q' {
            KeyCommand::Quit
        } else if c == 'j' {
            KeyCommand::SelectNext
        } else if c == 'k' {
            KeyCommand::SelectPrev
        } else if c == ' ' {
            KeyCommand::ExecuteThenNext
        } else if c == 's' {
            KeyCommand::StopAll
        } else {
            KeyCommand::Ignore
        },
        Key::Down => KeyCommand::SelectNext,
        Key::Up => KeyCommand::SelectPrev,
        Key::Other => KeyCommand::Ignore,
    }
}

/// Map a pressed key to the control-surface command it is bound to:
/// `q` quits, `j` and the down arrow select the next cue, `k` and the up
/// arrow the previous one, space triggers the selected cue and moves on,
/// `s` stops everything.
pub fn key_command(key: Key) -> (r: KeyCommand)
    ensures
        r == spec_key_command(key),
{
    match key {
        Key::Char(c) => {
            if c == 'q' {
                KeyCommand::Quit
            } else if c == 'j' {
                KeyCommand::SelectNext
            } else if c == 'k' {
                KeyCommand::SelectPrev
            } else if c == ' ' {
                KeyCommand::ExecuteThenNext
            } else if c == 's' {
                KeyCommand::StopAll
            } else {
                KeyCommand::Ignore
            }
        },
        Key::Down => KeyCommand::SelectNext,
        Key::Up => KeyCommand::SelectPrev,
        Key::Other => KeyCommand::Ignore,
    }
}

/// The running show: the cue list, one cache slot per cue, the selected
/// index, and the engine's sink registry.
pub struct AppState {
    active: bool,
    cuelist: Vec<Cue>,
    executables: Vec<LazyExecutable>,
    selected: usize,
    engine: AudioEngine,
}

impl AppState {
    /// The cue list, in operator order.
    pub closed spec fn cues(self) -> Seq<Cue> {
        self.cuelist@
    }

    /// The cache slots, one per cue.
    pub closed spec fn slots(self) -> Seq<LazyExecutable> {
        self.executables@
    }

    /// The selected cue's index.
    pub closed spec fn sel(self) -> int {
        self.selected as int
    }

    /// The engine, with its registry.
    pub closed spec fn engine_state(self) -> AudioEngine {
        self.engine
    }

    /// Whether the control loop should keep running.
    pub closed spec fn is_active(self) -> bool {
        self.active
    }

    /// One slot per cue; the selection stays on the list (and sits at 0
    /// for an empty list); the registry is well-formed.
    pub open spec fn wf(self) -> bool {
        &&& self.slots().len() == self.cues().len()
        &&& self.engine_state().wf()
        &&& (self.cues().len() == 0 ==> self.sel() == 0)
        &&& (self.cues().len() > 0 ==> 0 <= self.sel() < self.cues().len())
    }

    /// Build the show state: load every cue's slot up front from its
    /// probe, select the first cue, and start with an empty registry.
    pub fn new(cuelist: Vec<Cue>, probes: &Vec<CueProbe>) -> (r: Self)
        requires
            probes@.len() == cuelist@.len(),
            forall|i: int|
                0 <= i < cuelist@.len() ==> probe_matches(
                    (#[trigger] cuelist@[i]).action,
                    probes@[i],
                ),
        ensures
            r.wf(),
            r.is_active(),
            r.cues() == cuelist@,
            r.sel() == 0,
            r.engine_state().entries().len() == 0,
            r.slots().len() == cuelist@.len(),
            forall|i: int|
                0 <= i < cuelist@.len() ==> loaded_after(
                    LazyExecutable::NotLoaded,
                    cuelist@[i],
                    probes@[i],
                    #[trigger] r.slots()[i],
                ),
    {
        let mut executables: Vec<LazyExecutable> = Vec::new();
        let n = cuelist.len();
        for i in 0..n
            invariant
                n == cuelist@.len(),
                probes@.len() == cuelist@.len(),
                forall|k: int|
                    0 <= k < cuelist@.len() ==> probe_matches(
                        (#[trigger] cuelist@[k]).action,
                        probes@[k],
                    ),
                executables@.len() == i,
                forall|k: int|
                    0 <= k < i ==> loaded_after(
                        LazyExecutable::NotLoaded,
                        cuelist@[k],
                        probes@[k],
                        #[trigger] executables@[k],
                    ),
        {
            let mut slot = LazyExecutable::new();
            slot.load(&cuelist[i], &probes[i]);
            executables.push(slot);
        }
        AppState { active: true, cuelist, executables, selected: 0, engine: AudioEngine::new() }
    }

    /// Whether the control loop should keep running.
    pub fn active(&self) -> (r: bool)
        ensures
            r == self.is_active(),
    {
        self.active
    }

    /// Leave the control loop at the next turn.
    pub fn quit(&mut self)
        ensures
            !final(self).is_active(),
            final(self).cues() == old(self).cues(),
            final(self).slots() == old(self).slots(),
            final(self).sel() == old(self).sel(),
            final(self).engine_state() == old(self).engine_state(),
    {
        self.active = false;
    }

    /// The selected cue's index.
    pub fn selected(&self) -> (r: usize)
        ensures
            r == self.sel(),
    {
        self.selected
    }

    /// The cue list.
    pub fn cuelist(&self) -> (r: &Vec<Cue>)
        ensures
            r@ == self.cues(),
    {
        &self.cuelist
    }

    /// The engine, for reading the active-sink registry.
    pub fn engine(&self) -> (r: &AudioEngine)
        ensures
            *r == self.engine_state(),
    {
        &self.engine
    }

    /// Move the selection down one cue; from the last cue it wraps to
    /// the first.
    pub fn select_next(&mut self)
        requires
            old(self).wf(),
        ensures
            final(self).wf(),
            final(self).cues() == old(self).cues(),
            final(self).slots() == old(self).slots(),
            final(self).engine_state() == old(self).engine_state(),
            final(self).is_active() == old(self).is_active(),
            old(self).cues().len() == 0 ==> final(self).sel() == 0,
            old(self).cues().len() > 0 ==> final(self).sel() == (if old(self).sel() + 1 < old(self).cues().len() {
                old(self).sel() + 1
            } else {
                0
            }),
    {
        if self.cuelist.len() == 0 {
            return ;
        }
        if self.selected < self.cuelist.len() - 1 {
            self.selected = self.selected + 1;
        } else {
            self.selected = 0;
        }
    }

    /// Move the selection up one cue; from the first cue it wraps to the
    /// last.
    pub fn select_prev(&mut self)
        requires
            old(self).wf(),
        ensures
            final(self).wf(),
            final(self).cues() == old(self).cues(),
            final(self).slots() == old(self).slots(),
            final(self).engine_state() == old(self).engine_state(),
            final(self).is_active() == old(self).is_active(),
            old(self).cues().len() == 0 ==> final(self).sel() == 0,
            old(self).cues().len() > 0 ==> final(self).sel() == (if old(self).sel() > 0 {
                old(self).sel() - 1
            } else {
                old(self).cues().len() - 1
            }),
    {
        if self.cuelist.len() == 0 {
            return ;
        }
        if self.selected > 0 {
            self.selected = self.selected - 1;
        } else {
            self.selected = self.cuelist.len() - 1;
        }
    }

    /// Trigger the selected cue: load its slot (idempotently), consume
    /// the prepared executable, and run it against the registry.  A slot
    /// that cannot load reports failure; the selection does not move.
    pub fn execute_selected(&mut self, probe: &CueProbe) -> (r: Result<
        AudioCommand,
        ExecuteCueError,
    >)
        requires
            old(self).wf(),
            old(self).cues().len() > 0 ==> probe_matches(
                old(self).cues()[old(self).sel()].action,
                *probe,
            ),
        ensures
            final(self).wf(),
            final(self).cues() == old(self).cues(),
            final(self).sel() == old(self).sel(),
            final(self).is_active() == old(self).is_active(),
            old(self).cues().len() == 0 ==> final(self).slots() == old(self).slots()
                && final(self).engine_state() == old(self).engine_state() && (r matches Err(
            ExecuteCueError::General(m)) && m@ == "cue index out of bounds"@),
            old(self).cues().len() > 0 ==> exists|mid: LazyExecutable|
                #[trigger] loaded_after(
                    old(self).slots()[old(self).sel()],
                    old(self).cues()[old(self).sel()],
                    *probe,
                    mid,
                ) && (match mid {
                    LazyExecutable::Ready(exe) => final(self).slots() == old(self).slots().update(
                        old(self).sel(),
                        LazyExecutable::NotLoaded,
                    ) && cue_executed(
                        exe,
                        old(self).engine_state().entries(),
                        old(self).engine_state().next_id(),
                        final(self).engine_state().entries(),
                        final(self).engine_state().next_id(),
                        r,
                    ),
                    _ => final(self).slots() == old(self).slots().update(
                        old(self).sel(),
                        LazyExecutable::Error,
                    ) && final(self).engine_state() == old(self).engine_state() && (r matches Err(
                    ExecuteCueError::General(m)) && m@ == "Cue failed to load"@),
                }),
    {
        if self.cuelist.len() == 0 {
            return Err(ExecuteCueError::General("cue index out of bounds"));
        }
        let i = self.selected;
        let mut slot = LazyExecutable::new();
        self.executables.set_and_swap(i, &mut slot);
        slot.load(&self.cuelist[i], probe);
        let taken = slot.take();
        self.executables.set(i, slot);
        match taken {
            Some(exe) => exe.execute(&mut self.engine),
            None => Err(ExecuteCueError::General("Cue failed to load")),
        }
    }

    /// Stop every active sink: drain the registry and return the sink
    /// handles for the caller to silence.
    pub fn stop_all(&mut self) -> (r: Vec<u64>)
        requires
            old(self).wf(),
        ensures
            final(self).wf(),
            final(self).cues() == old(self).cues(),
            final(self).slots() == old(self).slots(),
            final(self).sel() == old(self).sel(),
            final(self).is_active() == old(self).is_active(),
            final(self).engine_state().entries().len() == 0,
            r@ == old(self).engine_state().entries().map_values(|e: ActiveCue| e.sink),
    {
        self.engine.stop_all()
    }

    /// The periodic upkeep tick: garbage-collect registry entries whose
    /// sinks (listed in `empty`) have played out.
    pub fn upkeep(&mut self, empty: &Vec<u64>)
        requires
            old(self).wf(),
        ensures
            final(self).wf(),
            final(self).cues() == old(self).cues(),
            final(self).slots() == old(self).slots(),
            final(self).sel() == old(self).sel(),
            final(self).is_active() == old(self).is_active(),
            final(self).engine_state().entries() == old(self).engine_state().entries().filter(
                crate::engine::keeps_busy(empty@),
            ),
    {
        self.engine.gc(empty)
    }

    /// A snapshot of the active sinks' labels and progress metadata.
    pub fn metadata(&self) -> (r: Vec<(String, PlaybackMeta)>)
        ensures
            r@.len() == self.engine_state().entries().len(),
            forall|i: int|
                0 <= i < r@.len() ==> (#[trigger] r@[i]).0@
                    == self.engine_state().entries()[i].label@ && r@[i].1
                    == self.engine_state().entries()[i].meta,
    {
        self.engine.metadata()
    }
}

}
