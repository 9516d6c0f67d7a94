//! The sink registry.
//!
//! While a show runs, each triggered playback owns a live sink on the
//! output device.  The engine tracks the active ones by cue label so that
//! later fade and stop cues can address them, exposes their progress
//! metadata for display, and garbage-collects sinks that have played out.
//!
//! The engine itself never touches the device.  Sinks are named by opaque
//! numeric handles: the engine allocates a handle per started playback,
//! and the caller keeps the handle-to-device mapping.  `gc` is likewise
//! told which handles have drained; it decides only who leaves the
//! registry.

use vstd::prelude::*;

use crate::strutil::str_eq;

verus! {

/// Progress metadata of one active playback, for the operator display.
#[derive(Debug, Clone, Copy, PartialEq, Eq, Structural)]
pub struct PlaybackMeta {
    /// When the current pass of the playback started, as a caller-supplied
    /// wall-clock timestamp in milliseconds.
    pub start_millis: u64,
    /// Length of one pass of the playback, in milliseconds.
    pub duration_millis: u64,
}

/// One registry entry: a label, the sink handle it owns, and its progress
/// metadata.
#[derive(Debug)]
pub struct ActiveCue {
    /// The label of the cue that started this sink.
    pub label: String,
    /// Opaque handle of the live sink.
    pub sink: u64,
    /// Progress metadata for display.
    pub meta: PlaybackMeta,
}

impl Clone for ActiveCue {
    fn clone(&self) -> (r: Self)
        ensures
            r == *self,
    {
        ActiveCue { label: self.label.clone(), sink: self.sink, meta: self.meta }
    }
}

/// The predicate `gc` keeps registry entries by: the entry's sink is not
/// among the drained handles.
pub open spec fn keeps_busy(empty: Seq<u64>) -> spec_fn(ActiveCue) -> bool {
    |e: ActiveCue| !empty.contains(e.sink)
}

/// No two entries carry the same label.
pub open spec fn unique_labels(s: Seq<ActiveCue>) -> bool {
    forall|i: int, j: int| 0 <= i < j < s.len() ==> s[i].label@ != s[j].label@
}

/// Some entry carries this label.
pub open spec fn has_label(s: Seq<ActiveCue>, label: Seq<char>) -> bool {
    exists|i: int| 0 <= i < s.len() && s[i].label@ == label
}

/// `after` is `before` with the entry at `i` overwritten by one carrying
/// `label`, `sink` and `meta`.
pub open spec fn entry_replaced(
    before: Seq<ActiveCue>,
    after: Seq<ActiveCue>,
    i: int,
    label: Seq<char>,
    sink: u64,
    meta: PlaybackMeta,
) -> bool {
    &&& after.len() == before.len()
    &&& forall|j: int| 0 <= j < before.len() && j != i ==> after[j] == before[j]
    &&& after[i].label@ == label
    &&& after[i].sink == sink
    &&& after[i].meta == meta
}

/// `after` is `before` with one entry carrying `label`, `sink` and `meta`
/// appended.
pub open spec fn entry_appended(
    before: Seq<ActiveCue>,
    after: Seq<ActiveCue>,
    label: Seq<char>,
    sink: u64,
    meta: PlaybackMeta,
) -> bool {
    &&& after.len() == before.len() + 1
    &&& after.subrange(0, before.len() as int) == before
    &&& after.last().label@ == label
    &&& after.last().sink == sink
    &&& after.last().meta == meta
}

/// Splitting two minutes-and-seconds clock fields out of a second count,
/// for `MM:SS` display.
pub fn clock_parts(total_secs: u64) -> (r: (u64, u64))
    ensures
        r.0 == total_secs / 60,
        r.1 == total_secs % 60,
{
    (total_secs / 60, total_secs % 60)
}

/// The registry of currently-active sinks, keyed by cue label.
pub struct AudioEngine {
    sinks: Vec<ActiveCue>,
    next_sink: u64,
}

impl AudioEngine {
    /// The registry's entries, in insertion order.
    pub closed spec fn entries(self) -> Seq<ActiveCue> {
        self.sinks@
    }

    /// The handle the next started playback will receive.
    pub closed spec fn next_id(self) -> u64 {
        self.next_sink
    }

    /// Labels are unique: a label addresses at most one sink.
    pub open spec fn wf(self) -> bool {
        unique_labels(self.entries())
    }

    /// A fresh registry with no active sinks.
    pub fn new() -> (r: Self)
        ensures
            r.wf(),
            r.entries().len() == 0,
            r.next_id() == 0,
    {
        AudioEngine { sinks: Vec::new(), next_sink: 0 }
    }

    /// Hand out a fresh sink handle.  The handle counter saturates at
    /// `u64::MAX`; until then every started playback gets its own handle.
    pub fn allocate_sink(&mut self) -> (sink: u64)
        ensures
            sink == old(self).next_id(),
            final(self).entries() == old(self).entries(),
            final(self).next_id() == (if old(self).next_id() < u64::MAX {
                old(self).next_id() + 1
            } else {
                u64::MAX as int
            }),
    {
        let sink = self.next_sink;
        if self.next_sink < u64::MAX {
            self.next_sink = self.next_sink + 1;
        }
        sink
    }

    /// Index of the entry carrying `label`, if any.
    fn find(&self, label: &str) -> (r: Option<usize>)
        ensures
            (match r {
                Some(i) => i < self.entries().len() && self.entries()[i as int].label@ == label@,
                None => !has_label(self.entries(), label@),
            }),
    {
        let n = self.sinks.len();
        for i in 0..n
            invariant
                n == self.sinks@.len(),
                forall|k: int| 0 <= k < i ==> self.sinks@[k].label@ != label@,
        {
            if str_eq(self.sinks[i].label.as_str(), label) {
                return Some(i);
            }
        }
        None
    }

    /// The sink handle registered under `label`, left in place; how a fade
    /// targets a sink without owning it.
    pub fn get_sink(&self, label: &str) -> (r: Option<u64>)
        ensures
            (match r {
                Some(sink) => exists|i: int|
                    0 <= i < self.entries().len() && self.entries()[i].label@ == label@
                        && self.entries()[i].sink == sink,
                None => !has_label(self.entries(), label@),
            }),
    {
        match self.find(label) {
            Some(i) => Some(self.sinks[i].sink),
            None => None,
        }
    }

    /// Register `sink` under `label`, replacing whatever entry the label
    /// held before.
    pub fn add_sink(&mut self, label: &str, sink: u64, meta: PlaybackMeta)
        requires
            old(self).wf(),
        ensures
            final(self).wf(),
            final(self).next_id() == old(self).next_id(),
            has_label(old(self).entries(), label@) ==> exists|i: int|
                0 <= i < old(self).entries().len() && old(self).entries()[i].label@ == label@
                    && entry_replaced(
                    old(self).entries(),
                    final(self).entries(),
                    i,
                    label@,
                    sink,
                    meta,
                ),
            !has_label(old(self).entries(), label@) ==> entry_appended(
                old(self).entries(),
                final(self).entries(),
                label@,
                sink,
                meta,
            ),
    {
        let entry = ActiveCue { label: label.to_owned(), sink, meta };
        match self.find(label) {
            Some(i) => {
                self.sinks[i] = entry;
                proof {
                    assert(self.sinks@ =~= old(self).sinks@.update(i as int, entry));
                    assert(entry_replaced(
                        old(self).sinks@,
                        self.sinks@,
                        i as int,
                        label@,
                        sink,
                        meta,
                    ));
                    assert(exists|k: int|
                        0 <= k < old(self).entries().len() && old(self).entries()[k].label@
                            == label@ && entry_replaced(
                            old(self).entries(),
                            self.entries(),
                            k,
                            label@,
                            sink,
                            meta,
                        )) by {
                        assert((i as int) < old(self).entries().len() && old(
                            self,
                        ).entries()[i as int].label@ == label@ && entry_replaced(
                            old(self).entries(),
                            self.entries(),
                            i as int,
                            label@,
                            sink,
                            meta,
                        ));
                    }
                    assert forall|a: int, b: int|
                        0 <= a < b < self.sinks@.len() implies self.sinks@[a].label@
                        != self.sinks@[b].label@ by {
                        assert(old(self).sinks@[a].label@ != old(self).sinks@[b].label@);
                        assert(old(self).sinks@[i as int].label@ == label@);
                    }
                }
            },
            None => {
                self.sinks.push(entry);
                proof {
                    assert(self.sinks@.subrange(0, old(self).sinks@.len() as int) =~= old(
                        self,
                    ).sinks@);
                    assert forall|a: int, b: int|
                        0 <= a < b < self.sinks@.len() implies self.sinks@[a].label@
                        != self.sinks@[b].label@ by {
                        if b < self.sinks@.len() - 1 {
                            assert(old(self).sinks@[a].label@ != old(self).sinks@[b].label@);
                        } else {
                            assert(!has_label(old(self).sinks@, label@));
                            assert(old(self).sinks@[a].label@ != label@);
                        }
                    }
                }
            },
        }
    }

    /// Remove and return the sink handle registered under `label`; how a
    /// stop takes sole charge of a sink before stopping it.
    pub fn take_sink(&mut self, label: &str) -> (r: Option<u64>)
        requires
            old(self).wf(),
        ensures
            final(self).wf(),
            final(self).next_id() == old(self).next_id(),
            (match r {
                Some(sink) => exists|i: int|
                    0 <= i < old(self).entries().len() && old(self).entries()[i].label@ == label@
                        && old(self).entries()[i].sink == sink && final(self).entries() == old(
                        self,
                    ).entries().remove(i),
                None => !has_label(old(self).entries(), label@) && final(self).entries() == old(
                    self,
                ).entries(),
            }),
    {
        match self.find(label) {
            Some(i) => {
                let entry = self.sinks.remove(i);
                proof {
                    assert(final(self).entries() =~= old(self).entries().remove(i as int));
                }
                Some(entry.sink)
            },
            None => None,
        }
    }

    /// Drain the registry, returning every active sink handle so the
    /// caller can stop them all.  Idempotent: a second call returns
    /// nothing.
    pub fn stop_all(&mut self) -> (r: Vec<u64>)
        ensures
            final(self).wf(),
            final(self).entries().len() == 0,
            final(self).next_id() == old(self).next_id(),
            r@ == old(self).entries().map_values(|e: ActiveCue| e.sink),
    {
        let mut ids: Vec<u64> = Vec::new();
        let n = self.sinks.len();
        for i in 0..n
            invariant
                n == self.sinks@.len(),
                self == old(self),
                ids@ =~= self.sinks@.subrange(0, i as int).map_values(|e: ActiveCue| e.sink),
        {
            ids.push(self.sinks[i].sink);
            proof {
                assert(self.sinks@.subrange(0, i + 1).drop_last() =~= self.sinks@.subrange(
                    0,
                    i as int,
                ));
            }
        }
        proof {
            assert(self.sinks@.subrange(0, n as int) =~= self.sinks@);
        }
        self.sinks.clear();
        ids
    }

    /// A snapshot of every entry's label and progress metadata, in
    /// registry order, for the operator display.
    pub fn metadata(&self) -> (r: Vec<(String, PlaybackMeta)>)
        ensures
            r@.len() == self.entries().len(),
            forall|i: int|
                0 <= i < r@.len() ==> (#[trigger] r@[i]).0@ == self.entries()[i].label@ && r@[i].1
                    == self.entries()[i].meta,
    {
        let mut out: Vec<(String, PlaybackMeta)> = Vec::new();
        let n = self.sinks.len();
        for i in 0..n
            invariant
                n == self.sinks@.len(),
                out@.len() == i,
                forall|k: int|
                    0 <= k < i ==> (#[trigger] out@[k]).0@ == self.sinks@[k].label@ && out@[k].1
                        == self.sinks@[k].meta,
        {
            out.push((self.sinks[i].label.clone(), self.sinks[i].meta));
        }
        out
    }

    /// Drop every entry whose sink has played out.  `empty` lists the
    /// handles whose device queue has drained; entries with any queued
    /// audio left — a sink mid-fade included — are never touched.
    pub fn gc(&mut self, empty: &Vec<u64>)
        requires
            old(self).wf(),
        ensures
            final(self).wf(),
            final(self).next_id() == old(self).next_id(),
            final(self).entries() == old(self).entries().filter(keeps_busy(empty@)),
    {
        let mut kept: Vec<ActiveCue> = Vec::new();
        let n = self.sinks.len();
        for i in 0..n
            invariant
                n == self.sinks@.len(),
                self == old(self),
                kept@ == self.sinks@.subrange(0, i as int).filter(keeps_busy(empty@)),
        {
            if !contains_id(empty, self.sinks[i].sink) {
                kept.push(self.sinks[i].clone());
            }
            proof {
                let pred = keeps_busy(empty@);
                let prev = self.sinks@.subrange(0, i as int);
                let sub1 = self.sinks@.subrange(0, i + 1);
                assert(sub1 =~= prev.push(self.sinks@[i as int]));
                prev.lemma_filter_push(self.sinks@[i as int], pred);
                assert(kept@ == sub1.filter(pred));
            }
        }
        proof {
            assert(self.sinks@.subrange(0, n as int) =~= self.sinks@);
            lemma_filter_unique_labels(self.sinks@, keeps_busy(empty@));
        }
        self.sinks = kept;
    }
}

/// Whether `ids` holds `id`.
fn contains_id(ids: &Vec<u64>, id: u64) -> (r: bool)
    ensures
        r == ids@.contains(id),
{
    let n = ids.len();
    for i in 0..n
        invariant
            n == ids@.len(),
            forall|k: int| 0 <= k < i ==> ids@[k] != id,
    {
        if ids[i] == id {
            return true;
        }
    }
    false
}

/// Every element of a filtered sequence comes from the sequence it was
/// filtered out of.
proof fn lemma_filter_membership(s: Seq<ActiveCue>, pred: spec_fn(ActiveCue) -> bool)
    ensures
        forall|x: ActiveCue| #[trigger] s.filter(pred).contains(x) ==> s.contains(x),
    decreases s.len(),
{
    reveal(Seq::filter);
    if s.len() > 0 {
        lemma_filter_membership(s.drop_last(), pred);
        assert forall|x: ActiveCue| #[trigger] s.filter(pred).contains(x) implies s.contains(
            x,
        ) by {
            if s.drop_last().filter(pred).contains(x) {
                assert(s.drop_last().contains(x));
                let k = choose|k: int|
                    0 <= k < s.drop_last().len() && s.drop_last()[k] == x;
                assert(s[k] == x);
            } else {
                assert(x == s.last());
            }
        }
    }
}

/// Filtering a registry keeps its labels unique.
proof fn lemma_filter_unique_labels(s: Seq<ActiveCue>, pred: spec_fn(ActiveCue) -> bool)
    requires
        unique_labels(s),
    ensures
        unique_labels(s.filter(pred)),
    decreases s.len(),
{
    reveal(Seq::filter);
    if s.len() > 0 {
        let d = s.drop_last();
        assert(unique_labels(d)) by {
            assert(forall|i: int, j: int|
                0 <= i < j < d.len() ==> s[i].label@ != s[j].label@);
        }
        lemma_filter_unique_labels(d, pred);
        if pred(s.last()) {
            let f = s.filter(pred);
            lemma_filter_membership(d, pred);
            assert forall|i: int, j: int|
                0 <= i < j < f.len() implies f[i].label@ != f[j].label@ by {
                if j == f.len() - 1 {
                    assert(f[j] == s.last());
                    assert(d.filter(pred).contains(f[i]));
                    assert(d.contains(f[i]));
                    let k = choose|k: int| 0 <= k < d.len() && d[k] == f[i];
                    assert(s[k] == f[i]);
                    assert(s[k].label@ != s[s.len() - 1].label@);
                } else {
                    assert(f[i] == d.filter(pred)[i]);
                    assert(f[j] == d.filter(pred)[j]);
                }
            }
        }
    }
}

/// Garbage collection removes only played-out sinks: an entry whose sink
/// still has queued audio — one mid-fade, for instance — survives `gc`
/// under its label.
pub proof fn gc_spares_busy_sinks(
    before: Seq<ActiveCue>,
    after: Seq<ActiveCue>,
    empty: Seq<u64>,
    i: int,
)
    requires
        after == before.filter(keeps_busy(empty)),
        0 <= i < before.len(),
        !empty.contains(before[i].sink),
    ensures
        has_label(after, before[i].label@),
        forall|j: int| 0 <= j < after.len() ==> !empty.contains(#[trigger] after[j].sink),
{
    let pred = keeps_busy(empty);
    broadcast use vstd::seq_lib::group_filter_ensures;

    assert(pred(before[i]));
    assert(after.contains(before[i]));
    let k = choose|k: int| 0 <= k < after.len() && after[k] == before[i];
    assert(after[k].label@ == before[i].label@);
}

}
