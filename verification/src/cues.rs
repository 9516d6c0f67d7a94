//! Cues and the script that orders them.
//!
//! A script is an ordered cue list plus a master volume.  Each cue has a
//! unique label, free-text description and hint, and exactly one action.
//! Before a show starts the script is validated: every playback file and
//! playlist folder must exist on disk, and every fade or stop target must
//! be a cue label or the sentinel `"all"`.

use vstd::prelude::*;

use crate::actions::{FadeCue, PlaybackCue, PlaylistCue, StopCue};
use crate::errors::FatalError;
use crate::strutil::str_eq;

verus! {

/// Master volume a script uses when it sets none.
pub const DEFAULT_MASTER_VOLUME: u8 = 100;

/// What triggering a cue does; exactly one variant per cue.
#[derive(Debug, Clone)]
pub enum CueAction {
    Playlist(PlaylistCue),
    Playback(PlaybackCue),
    Fade(FadeCue),
    Stop(StopCue),
}

/// One named, operator-triggerable unit of show control.
#[derive(Debug, Clone)]
pub struct Cue {
    /// Unique name within the script; fades and stops address it.
    pub label: String,
    /// Free text shown beside the label.
    pub description: String,
    /// Free text telling the operator when to trigger the cue.
    pub hint: String,
    /// What triggering the cue does.
    pub action: CueAction,
}

impl Cue {
    pub fn action(&self) -> (r: &CueAction)
        ensures
            r == &self.action,
    {
        &self.action
    }

    pub fn description(&self) -> (r: &str)
        ensures
            r@ == self.description@,
    {
        self.description.as_str()
    }

    pub fn label(&self) -> (r: &str)
        ensures
            r@ == self.label@,
    {
        self.label.as_str()
    }

    pub fn hint(&self) -> (r: &str)
        ensures
            r@ == self.hint@,
    {
        self.hint.as_str()
    }

    pub fn new(label: &str, action: CueAction) -> (r: Self)
        ensures
            r.label@ == label@,
            r.description@ == Seq::<char>::empty(),
            r.hint@ == Seq::<char>::empty(),
            r.action == action,
    {
        Cue { label: label.to_owned(), description: String::new(), hint: String::new(), action }
    }

    pub fn with_description(self, description: &str) -> (r: Self)
        ensures
            r.description@ == description@,
            r.label == self.label,
            r.hint == self.hint,
            r.action == self.action,
    {
        Cue { description: description.to_owned(), ..self }
    }

    pub fn with_hint(self, hint: &str) -> (r: Self)
        ensures
            r.hint@ == hint@,
            r.label == self.label,
            r.description == self.description,
            r.action == self.action,
    {
        Cue { hint: hint.to_owned(), ..self }
    }

    /// The path the validation pass must find on disk for this cue:
    /// a playback's file, a playlist's folder.  Fades and stops reference
    /// no path.
    pub fn referenced_path(&self) -> (r: Option<&str>)
        ensures
            (match self.action {
                CueAction::Playback(p) => r is Some && r->0@ == p.file@,
                CueAction::Playlist(p) => (match p.folder {
                    Some(f) => r is Some && r->0@ == f@,
                    None => r is None,
                }),
                CueAction::Fade(_) => r is None,
                CueAction::Stop(_) => r is None,
            }),
    {
        match &self.action {
            CueAction::Playback(p) => Some(p.file.as_str()),
            CueAction::Playlist(p) => match &p.folder {
                Some(f) => Some(f.as_str()),
                None => None,
            },
            CueAction::Fade(_) => None,
            CueAction::Stop(_) => None,
        }
    }
}

/// A fade or stop target is valid when it is the sentinel `"all"` or the
/// label of some cue in the list.
pub open spec fn valid_target(cues: Seq<Cue>, target: Seq<char>) -> bool {
    target == "all"@ || exists|j: int| 0 <= j < cues.len() && cues[j].label@ == target
}

/// Whether one cue passes validation.  `present` reports whether the path
/// the cue references exists on disk; it is ignored by cues that reference
/// none.
pub open spec fn cue_valid(cues: Seq<Cue>, cue: Cue, present: bool) -> bool {
    match cue.action {
        CueAction::Playback(_) => present,
        CueAction::Playlist(p) => p.folder is Some ==> present,
        CueAction::Fade(f) => valid_target(cues, f.target@),
        CueAction::Stop(s) => valid_target(cues, s.target@),
    }
}

/// The error validation reports for a failing cue: a missing file or
/// folder is named by `CueFile`, a dangling target by `CueTarget`, each
/// alongside the offending cue's label.
pub open spec fn names_invalid_cue(cue: Cue, e: FatalError) -> bool {
    match cue.action {
        CueAction::Playback(p) => e matches FatalError::CueFile(l, f) && l@ == cue.label@ && f@
            == p.file@,
        CueAction::Playlist(pl) => e matches FatalError::CueFile(l, f) && l@ == cue.label@
            && pl.folder is Some && f@ == pl.folder->0@,
        CueAction::Fade(fc) => e matches FatalError::CueTarget(l, t) && l@ == cue.label@ && t@
            == fc.target@,
        CueAction::Stop(s) => e matches FatalError::CueTarget(l, t) && l@ == cue.label@ && t@
            == s.target@,
    }
}

/// An ordered cue list with a master volume.
#[derive(Debug, Clone)]
pub struct Script {
    /// The cues, in the order the operator steps through them.
    pub cuelist: Vec<Cue>,
    /// Master volume (0–100) for the whole show.
    pub master: u8,
}

impl Script {
    pub fn cuelist(&self) -> (r: &Vec<Cue>)
        ensures
            r == &self.cuelist,
    {
        &self.cuelist
    }

    pub fn master(&self) -> (r: u8)
        ensures
            r == self.master,
    {
        self.master
    }

    pub fn new(cues: Vec<Cue>) -> (r: Self)
        ensures
            r.cuelist == cues,
            r.master == DEFAULT_MASTER_VOLUME,
    {
        Script { cuelist: cues, master: DEFAULT_MASTER_VOLUME }
    }

    pub fn with_master(self, master: u8) -> (r: Self)
        ensures
            r.cuelist == self.cuelist,
            r.master == master,
    {
        Script { master, ..self }
    }

    /// The labels of all cues, in cue order.
    pub fn cue_names(&self) -> (r: Vec<&str>)
        ensures
            r@.len() == self.cuelist@.len(),
            forall|i: int| 0 <= i < r@.len() ==> r@[i]@ == self.cuelist@[i].label@,
    {
        let mut names: Vec<&str> = Vec::new();
        let n = self.cuelist.len();
        for i in 0..n
            invariant
                n == self.cuelist@.len(),
                names@.len() == i,
                forall|k: int| 0 <= k < i ==> names@[k]@ == self.cuelist@[k].label@,
        {
            names.push(self.cuelist[i].label.as_str());
        }
        names
    }

    /// Validate the script: each cue in order must reference an existing
    /// path (`present` holds one flag per cue, as reported by the caller's
    /// filesystem check) and a valid fade/stop target.  The first failing
    /// cue aborts validation with the error naming it.
    pub fn validate(self, present: &Vec<bool>) -> (r: Result<Script, FatalError>)
        requires
            present@.len() == self.cuelist@.len(),
        ensures
            (match r {
                Ok(s) => s == self && forall|i: int|
                    0 <= i < self.cuelist@.len() ==> cue_valid(
                        self.cuelist@,
                        self.cuelist@[i],
                        present@[i],
                    ),
                Err(e) => exists|i: int|
                    0 <= i < self.cuelist@.len() && !cue_valid(
                        self.cuelist@,
                        self.cuelist@[i],
                        present@[i],
                    ) && (forall|j: int|
                        0 <= j < i ==> cue_valid(self.cuelist@, self.cuelist@[j], present@[j]))
                        && names_invalid_cue(#[trigger] self.cuelist@[i], e),
            }),
    {
        let n = self.cuelist.len();
        for i in 0..n
            invariant
                n == self.cuelist@.len(),
                present@.len() == self.cuelist@.len(),
                forall|j: int| 0 <= j < i ==> cue_valid(self.cuelist@, self.cuelist@[j], present@[j]),
        {
            let cue = &self.cuelist[i];
            match &cue.action {
                CueAction::Playback(p) => {
                    if !present[i] {
                        return Err(FatalError::CueFile(cue.label.clone(), p.file.clone()));
                    }
                },
                CueAction::Playlist(pl) => {
                    match &pl.folder {
                        Some(f) => {
                            if !present[i] {
                                return Err(FatalError::CueFile(cue.label.clone(), f.clone()));
                            }
                        },
                        None => {},
                    }
                },
                CueAction::Fade(f) => {
                    if !self.target_is_valid(f.target.as_str()) {
                        return Err(FatalError::CueTarget(cue.label.clone(), f.target.clone()));
                    }
                },
                CueAction::Stop(s) => {
                    if !self.target_is_valid(s.target.as_str()) {
                        return Err(FatalError::CueTarget(cue.label.clone(), s.target.clone()));
                    }
                },
            }
        }
        Ok(self)
    }

    /// Whether `target` is the sentinel `"all"` or some cue's label.
    pub fn target_is_valid(&self, target: &str) -> (r: bool)
        ensures
            r == valid_target(self.cuelist@, target@),
    {
        if str_eq(target, "all") {
            return true;
        }
        let n = self.cuelist.len();
        for j in 0..n
            invariant
                n == self.cuelist@.len(),
                forall|k: int| 0 <= k < j ==> self.cuelist@[k].label@ != target@,
        {
            if str_eq(self.cuelist[j].label.as_str(), target) {
                return true;
            }
        }
        false
    }
}

}
