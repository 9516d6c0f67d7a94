//! Audio cue execution engine for a live show-control cue player.
//!
//! A show is an ordered list of named cues.  Each cue carries one action:
//! start a playback, start a playlist, fade a playing sink's volume, or stop
//! a sink.  This crate holds the engine's decision logic: the cue and script
//! data model with its validation, the two-phase prepare/execute protocol,
//! the registry of currently-sounding sinks, the lazy per-cue cache of
//! prepared executables, and the fade schedule arithmetic.
//!
//! Everything that must touch the outside world — decoding audio files,
//! driving the output device, sleeping between fade steps, reading the
//! terminal — lives outside this crate.  Callers gather what the logic
//! needs into plain probe values, hand them in, and receive commands
//! describing the audio work to perform.

pub mod actions;
pub mod cues;
pub mod engine;
pub mod errors;
pub mod executable;
pub mod fade;
pub mod prepare;
pub mod shuffle;
pub mod state;
pub mod strutil;

pub use actions::{FadeCue, PlaybackCue, PlaylistCue, StopCue};
pub use cues::{Cue, CueAction, Script};
pub use engine::{AudioEngine, PlaybackMeta};
pub use errors::{ExecuteCueError, FatalError, PlaybackCueError, PlaylistCueError, PrepareError};
pub use executable::{AudioCommand, ExecutableCue, PlaybackExecutable, SourcePlan};
pub use fade::{fade_plan, FadePlan};
pub use prepare::{CueProbe, PlaybackProbe, PlaylistProbe};
pub use state::{AppState, Key, KeyCommand, LazyExecutable};
