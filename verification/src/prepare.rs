//! The preparation half of the two-phase cue protocol.
//!
//! Preparing a cue builds everything needed to run it — resolving its
//! duration, composing its source plan, fixing a playlist's file order —
//! without starting any audio.  The filesystem work this takes (opening
//! the file, reading its metadata, trying the decoder, listing a folder)
//! happens outside this crate; its outcome arrives here as a plain
//! `CueProbe` value, and preparation decides everything from the cue and
//! the probe alone.
//!
//! Fades and stops need no preparation: their executables are the
//! validated cue parameters, cloned.

use vstd::prelude::*;

use crate::actions::{FadeCue, PlaybackCue, PlaylistCue, StopCue};
use crate::cues::CueAction;
use crate::engine::PlaybackMeta;
use crate::errors::{PlaybackCueError, PlaylistCueError, PrepareError};
use crate::executable::{ExecutableCue, FadeOutSplit, PlaybackExecutable, SourcePlan};
use crate::shuffle::shuffle_files;

verus! {

/// What probing a playback cue's file found.
#[derive(Debug, Clone, Copy, PartialEq, Eq, Structural)]
pub struct PlaybackProbe {
    /// The file could be opened and read.
    pub io_ok: bool,
    /// The playback length its metadata reports; `None` when the
    /// metadata could not be read.
    pub meta_duration_millis: Option<u64>,
    /// The decoder accepted the file.
    pub decode_ok: bool,
    /// The wall clock when the probe was taken, in milliseconds; the
    /// prepared playback's progress display starts here.
    pub now_millis: u64,
}

/// What probing a playlist cue's folder found.
#[derive(Debug)]
pub struct PlaylistProbe {
    /// The folder could be listed (vacuously true for a playlist with no
    /// folder).
    pub folder_ok: bool,
    /// The folder's entries, in directory order; empty for a playlist
    /// with no folder.
    pub folder_files: Vec<String>,
    /// The wall clock when the probe was taken, in milliseconds.
    pub now_millis: u64,
}

/// The filesystem facts preparation needs for one cue: a probe of the
/// kind the cue's action asks for.  Fades and stops need none.
#[derive(Debug)]
pub enum CueProbe {
    Playback(PlaybackProbe),
    Playlist(PlaylistProbe),
    Control,
}

/// Whether a probe is of the kind the action needs.
pub open spec fn probe_matches(action: CueAction, probe: CueProbe) -> bool {
    match action {
        CueAction::Playback(_) => probe is Playback,
        CueAction::Playlist(_) => probe is Playlist,
        CueAction::Fade(_) => probe is Control,
        CueAction::Stop(_) => probe is Control,
    }
}

/// The playback length preparation settles on: an explicit `duration` on
/// the cue wins; otherwise the file's metadata answers.
pub open spec fn resolved_duration(cue: PlaybackCue, probe: PlaybackProbe) -> Option<u64> {
    if cue.duration_millis is Some {
        cue.duration_millis
    } else {
        probe.meta_duration_millis
    }
}

/// Whether a prepared executable carries the label it was prepared under.
pub open spec fn label_matches(exe_label: Option<String>, label: Option<Seq<char>>) -> bool {
    match label {
        Some(l) => exe_label is Some && exe_label->0@ == l,
        None => exe_label is None,
    }
}

/// Where the fade-out split lands: the source plays plainly until
/// `duration - fade` (never below zero), then fades for `fade`.
pub open spec fn fade_out_resolved(
    split: Option<FadeOutSplit>,
    fade_out_millis: Option<u64>,
    duration: u64,
) -> bool {
    match fade_out_millis {
        Some(f) => split == Some(
            FadeOutSplit {
                start_millis: (if duration >= f {
                    (duration - f) as u64
                } else {
                    0
                }),
                fade_millis: f,
            },
        ),
        None => split is None,
    }
}

/// What preparing a playback cue yields.  The probe's failures surface in
/// the order the work happens: an unreadable file, then — only when the
/// cue fixes no duration itself — unreadable metadata, then a failed
/// decode.  Success composes the source plan from the cue and the
/// resolved duration.
pub open spec fn playback_prepared(
    cue: PlaybackCue,
    label: Option<Seq<char>>,
    probe: PlaybackProbe,
    r: Result<PlaybackExecutable, PlaybackCueError>,
) -> bool {
    if !probe.io_ok {
        r == Err::<PlaybackExecutable, PlaybackCueError>(PlaybackCueError::File)
    } else if resolved_duration(cue, probe) is None {
        r == Err::<PlaybackExecutable, PlaybackCueError>(PlaybackCueError::Metadata)
    } else if !probe.decode_ok {
        r == Err::<PlaybackExecutable, PlaybackCueError>(PlaybackCueError::Decode)
    } else {
        let duration = resolved_duration(cue, probe)->0;
        &&& r is Ok
        &&& label_matches(r->Ok_0.label, label)
        &&& r->Ok_0.meta == PlaybackMeta {
            start_millis: probe.now_millis,
            duration_millis: duration,
        }
        &&& r->Ok_0.plan matches SourcePlan::Single {
            file,
            duration_millis,
            repeat,
            fade_in_millis,
            fade_out,
            volume,
        } && file@ == cue.file@ && duration_millis == duration && repeat == cue.repeat
            && fade_in_millis == cue.fade_in_millis && volume == cue.volume && fade_out_resolved(
            fade_out,
            cue.fade_out_millis,
            duration,
        )
    }
}

/// What preparing a playlist cue yields.  The file list is the cue's own
/// files followed by the folder's entries; shuffling permutes that list
/// once, keeping exactly its members.  A playlist's progress metadata
/// starts with no duration — each file fills it in as it starts playing.
pub open spec fn playlist_prepared(
    cue: PlaylistCue,
    label: Option<Seq<char>>,
    probe: PlaylistProbe,
    r: Result<PlaybackExecutable, PlaylistCueError>,
) -> bool {
    if !probe.folder_ok {
        r == Err::<PlaybackExecutable, PlaylistCueError>(PlaylistCueError::File)
    } else {
        &&& r is Ok
        &&& label_matches(r->Ok_0.label, label)
        &&& r->Ok_0.meta == PlaybackMeta { start_millis: probe.now_millis, duration_millis: 0 }
        &&& r->Ok_0.plan matches SourcePlan::Sequence { files, repeat, volume } && repeat
            == cue.repeat && volume == cue.volume && playlist_order(
            files@,
            cue.files@ + probe.folder_files@,
            cue.shuffle,
        )
    }
}

/// A prepared playlist plays `base`'s files: in exactly that order when
/// not shuffling, in some order with exactly the same members when
/// shuffling.
pub open spec fn playlist_order(files: Seq<String>, base: Seq<String>, shuffle: bool) -> bool {
    if shuffle {
        files.len() == base.len() && files.to_multiset() == base.to_multiset()
    } else {
        files == base
    }
}

/// What preparing any cue action yields: playbacks and playlists go
/// through their probes; fades and stops are cloned as they stand.
pub open spec fn action_prepared(
    action: CueAction,
    label: Option<Seq<char>>,
    probe: CueProbe,
    r: Result<ExecutableCue, PrepareError>,
) -> bool {
    match action {
        CueAction::Playback(c) => match r {
            Ok(e) => e is Playback && playback_prepared(
                c,
                label,
                probe->Playback_0,
                Ok(e->Playback_0),
            ),
            Err(pe) => pe is Playback && playback_prepared(
                c,
                label,
                probe->Playback_0,
                Err(pe->Playback_0),
            ),
        },
        CueAction::Playlist(c) => match r {
            Ok(e) => e is Playback && playlist_prepared(
                c,
                label,
                probe->Playlist_0,
                Ok(e->Playback_0),
            ),
            Err(pe) => pe is Playlist && playlist_prepared(
                c,
                label,
                probe->Playlist_0,
                Err(pe->Playlist_0),
            ),
        },
        CueAction::Fade(f) => r is Ok && (r->Ok_0 matches ExecutableCue::Fade(g) && g == f),
        CueAction::Stop(s) => r is Ok && (r->Ok_0 matches ExecutableCue::Stop(t) && t == s),
    }
}

/// Whether preparation is bound to fail for this action and probe:
/// playbacks fail on an unreadable file, an unresolvable duration or a
/// failed decode; playlists on an unlistable folder; fades and stops
/// never.
pub open spec fn action_prepare_fails(action: CueAction, probe: CueProbe) -> bool {
    match action {
        CueAction::Playback(c) => {
            let pp = probe->Playback_0;
            !pp.io_ok || resolved_duration(c, pp) is None || !pp.decode_ok
        },
        CueAction::Playlist(_) => !probe->Playlist_0.folder_ok,
        CueAction::Fade(_) => false,
        CueAction::Stop(_) => false,
    }
}

/// Preparation fails exactly when the probe dooms it: `action_prepared`
/// admits an error result on just those probes.
pub proof fn prepare_fails_iff_err(
    action: CueAction,
    label: Option<Seq<char>>,
    probe: CueProbe,
    r: Result<ExecutableCue, PrepareError>,
)
    requires
        probe_matches(action, probe),
        action_prepared(action, label, probe, r),
    ensures
        r is Err <==> action_prepare_fails(action, probe),
{
}

/// The label view of an optional label argument.
pub open spec fn opt_label_view(label: Option<&str>) -> Option<Seq<char>> {
    match label {
        Some(l) => Some(l@),
        None => None,
    }
}

/// A prepared playlist plays exactly the files it was given — the cue's
/// own list followed by the probed folder entries.  Shuffling may change
/// the order but never the collection: every file appears exactly as
/// often as it was given, so in particular the set of files played
/// equals the set given.  Without shuffling the order is exactly the
/// given order.
pub proof fn playlist_keeps_its_files(
    cue: PlaylistCue,
    label: Option<Seq<char>>,
    probe: PlaylistProbe,
    r: Result<PlaybackExecutable, PlaylistCueError>,
)
    requires
        probe.folder_ok,
        playlist_prepared(cue, label, probe, r),
    ensures
        r is Ok,
        r->Ok_0.plan matches SourcePlan::Sequence { files, repeat, volume } && {
            let base = cue.files@ + probe.folder_files@;
            &&& files@.len() == base.len()
            &&& files@.to_multiset() == base.to_multiset()
            &&& forall|f: String| files@.contains(f) <==> base.contains(f)
            &&& !cue.shuffle ==> files@ == base
        },
{
    broadcast use vstd::seq_lib::group_to_multiset_ensures;

    let files = r->Ok_0.plan->Sequence_files;
    let base = cue.files@ + probe.folder_files@;
    if cue.shuffle {
        assert forall|f: String| files@.contains(f) <==> base.contains(f) by {
            assert(files@.contains(f) <==> files@.to_multiset().count(f) > 0);
            assert(base.contains(f) <==> base.to_multiset().count(f) > 0);
        }
    }
}

impl PlaybackCue {
    /// Prepare this playback under `label`, deciding from `probe` what
    /// the file allowed: resolve the duration, place the fade-out split,
    /// and compose the source plan.  No audio starts.
    pub fn prepare(&self, label: Option<&str>, probe: &PlaybackProbe) -> (r: Result<
        PlaybackExecutable,
        PlaybackCueError,
    >)
        ensures
            playback_prepared(*self, opt_label_view(label), *probe, r),
    {
        if !probe.io_ok {
            return Err(PlaybackCueError::File);
        }
        let duration: u64 = match self.duration_millis {
            Some(d) => d,
            None => match probe.meta_duration_millis {
                Some(d) => d,
                None => { return Err(PlaybackCueError::Metadata) },
            },
        };
        if !probe.decode_ok {
            return Err(PlaybackCueError::Decode);
        }
        let fade_out: Option<FadeOutSplit> = match self.fade_out_millis {
            Some(f) => Some(
                FadeOutSplit {
                    start_millis: (if duration >= f {
                        duration - f
                    } else {
                        0
                    }),
                    fade_millis: f,
                },
            ),
            None => None,
        };
        let owned_label: Option<String> = match label {
            Some(l) => Some(l.to_owned()),
            None => None,
        };
        let plan = SourcePlan::Single {
            file: self.file.clone(),
            duration_millis: duration,
            repeat: self.repeat,
            fade_in_millis: self.fade_in_millis,
            fade_out,
            volume: self.volume,
        };
        let meta = PlaybackMeta { start_millis: probe.now_millis, duration_millis: duration };
        Ok(PlaybackExecutable::new(owned_label, plan, meta))
    }
}

impl PlaylistCue {
    /// Prepare this playlist under `label`: append the probed folder
    /// entries to the cue's own files and fix the play order, permuting
    /// it once when the cue asks for a shuffle.  No audio starts.
    pub fn prepare(&self, label: Option<&str>, probe: &PlaylistProbe) -> (r: Result<
        PlaybackExecutable,
        PlaylistCueError,
    >)
        ensures
            playlist_prepared(*self, opt_label_view(label), *probe, r),
    {
        if !probe.folder_ok {
            return Err(PlaylistCueError::File);
        }
        let mut files: Vec<String> = Vec::new();
        let n = self.files.len();
        for i in 0..n
            invariant
                n == self.files@.len(),
                files@ == self.files@.subrange(0, i as int),
        {
            files.push(self.files[i].clone());
            proof {
                assert(files@ =~= self.files@.subrange(0, i + 1));
            }
        }
        proof {
            assert(self.files@.subrange(0, n as int) =~= self.files@);
        }
        let m = probe.folder_files.len();
        for i in 0..m
            invariant
                m == probe.folder_files@.len(),
                files@ == self.files@ + probe.folder_files@.subrange(0, i as int),
        {
            files.push(probe.folder_files[i].clone());
            proof {
                assert(files@ =~= self.files@ + probe.folder_files@.subrange(0, i + 1));
            }
        }
        proof {
            assert(self.files@ + probe.folder_files@.subrange(0, m as int) =~= self.files@
                + probe.folder_files@);
        }
        if self.shuffle {
            shuffle_files(&mut files);
            proof {
                vstd::seq_lib::lemma_multiset_commutative(self.files@, probe.folder_files@);
            }
        }
        let owned_label: Option<String> = match label {
            Some(l) => Some(l.to_owned()),
            None => None,
        };
        let plan = SourcePlan::Sequence { files, repeat: self.repeat, volume: self.volume };
        let meta = PlaybackMeta { start_millis: probe.now_millis, duration_millis: 0 };
        Ok(PlaybackExecutable::new(owned_label, plan, meta))
    }
}

impl CueAction {
    /// Prepare this action under `label` from its probe.  Preparation is
    /// free of irreversible effect and may be repeated; a discarded
    /// result leaks nothing.
    pub fn prepare(&self, label: Option<&str>, probe: &CueProbe) -> (r: Result<
        ExecutableCue,
        PrepareError,
    >)
        requires
            probe_matches(*self, *probe),
        ensures
            action_prepared(*self, opt_label_view(label), *probe, r),
    {
        match self {
            CueAction::Playback(c) => {
                match probe {
                    CueProbe::Playback(pp) => match c.prepare(label, pp) {
                        Ok(exe) => Ok(ExecutableCue::Playback(exe)),
                        Err(e) => Err(PrepareError::Playback(e)),
                    },
                    _ => vstd::pervasive::unreached(),
                }
            },
            CueAction::Playlist(c) => {
                match probe {
                    CueProbe::Playlist(pp) => match c.prepare(label, pp) {
                        Ok(exe) => Ok(ExecutableCue::Playback(exe)),
                        Err(e) => Err(PrepareError::Playlist(e)),
                    },
                    _ => vstd::pervasive::unreached(),
                }
            },
            CueAction::Fade(f) => Ok(ExecutableCue::Fade(f.clone())),
            CueAction::Stop(s) => Ok(ExecutableCue::Stop(s.clone())),
        }
    }
}

}
