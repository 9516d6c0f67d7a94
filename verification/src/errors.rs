//! Error taxonomy of the engine.
//!
//! Preparation errors are surfaced per cue and recorded in the lazy cache;
//! they never abort a session.  Execution errors are returned to whoever
//! triggered the cue and the control loop carries on.  Fatal errors come
//! only from loading and validating a script, before the control loop
//! begins.

use vstd::prelude::*;

verus! {

/// Why preparing a playback cue failed: the file could not be read, its
/// audio could not be decoded, or its metadata (needed for the duration)
/// could not be understood.
#[derive(Debug, Clone, Copy, PartialEq, Eq, Structural)]
pub enum PlaybackCueError {
    File,
    Decode,
    Metadata,
}

/// Why preparing a playlist cue failed: its folder could not be listed.
/// A playlist never fails over a single bad file — those are skipped as
/// they are reached.
#[derive(Debug, Clone, Copy, PartialEq, Eq, Structural)]
pub enum PlaylistCueError {
    File,
}

/// A preparation failure, tagged by the kind of cue that failed.
#[derive(Debug, Clone, Copy, PartialEq, Eq, Structural)]
pub enum PrepareError {
    Playback(PlaybackCueError),
    Playlist(PlaylistCueError),
}

/// Why executing a prepared cue failed.
#[derive(Debug)]
pub enum ExecuteCueError {
    /// A fade or stop named a cue label with no active sink.
    MissingTarget(String),
    /// Anything else; the text says what went wrong.
    General(&'static str),
}

impl ExecuteCueError {
    /// A short description of the failure.
    pub fn message(&self) -> (r: String)
        ensures
            (match self {
                ExecuteCueError::MissingTarget(t) => r@ == "Couldn't find target cue "@ + t@,
                ExecuteCueError::General(m) => r@ == m@,
            }),
    {
        match self {
            ExecuteCueError::MissingTarget(t) => {
                String::from_str("Couldn't find target cue ").concat(t.as_str())
            },
            ExecuteCueError::General(m) => String::from_str(m),
        }
    }
}

/// A failure that aborts startup: the script named a missing audio file,
/// or a fade or stop cue whose target is not a cue label.
#[derive(Debug)]
pub enum FatalError {
    /// The named cue's fade/stop target (second field) matches no label.
    CueTarget(String, String),
    /// The named cue's audio file or folder (second field) does not exist.
    CueFile(String, String),
}

impl FatalError {
    /// A short description of the failure.
    pub fn message(&self) -> (r: String)
        ensures
            (match self {
                FatalError::CueTarget(c, t) => r@ == "Invalid target in "@ + c@ + ": "@ + t@,
                FatalError::CueFile(c, f) => r@ == "Invalid audio file in "@ + c@ + ": "@ + f@,
            }),
    {
        match self {
            FatalError::CueTarget(c, t) => {
                String::from_str("Invalid target in ").concat(c.as_str()).concat(": ").concat(
                    t.as_str(),
                )
            },
            FatalError::CueFile(c, f) => {
                String::from_str("Invalid audio file in ").concat(c.as_str()).concat(
                    ": ",
                ).concat(f.as_str())
            },
        }
    }
}

}
