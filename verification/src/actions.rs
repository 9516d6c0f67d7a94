//! The four cue action kinds.
//!
//! A cue's action says what triggering it does: start one file
//! (`PlaybackCue`), start an ordered or shuffled set of files
//! (`PlaylistCue`), ramp an active sink's volume (`FadeCue`), or stop an
//! active sink (`StopCue`).  All durations are wall-clock milliseconds;
//! volumes are on a 0–100 scale.
//!
//! The script's short string form of an action is the same value the
//! one-argument constructor builds: `FadeCue::new` pins the documented
//! defaults (volume 0, five-second duration), and likewise for the other
//! kinds.

use vstd::prelude::*;

verus! {

/// Duration a fade cue uses when the script gives none: five seconds.
pub const DEFAULT_FADE_MILLIS: u64 = 5000;

/// Start playback of a single audio file.
#[derive(Debug)]
pub struct PlaybackCue {
    /// Path of the audio file to play.
    pub file: String,
    /// Initial volume, if the script sets one.
    pub volume: Option<u8>,
    /// Restart from the beginning for ever once the end is reached.
    pub repeat: bool,
    /// Cut playback at this length; when absent the file's own length,
    /// read from its metadata, is used.
    pub duration_millis: Option<u64>,
    /// Ramp in from silence over this long at the start.
    pub fade_in_millis: Option<u64>,
    /// Ramp out to silence over the last this long of the playback.
    pub fade_out_millis: Option<u64>,
}

impl PlaybackCue {
    pub fn file(&self) -> (r: &str)
        ensures
            r@ == self.file@,
    {
        self.file.as_str()
    }

    pub fn volume(&self) -> (r: Option<u8>)
        ensures
            r == self.volume,
    {
        self.volume
    }

    pub fn duration(&self) -> (r: Option<u64>)
        ensures
            r == self.duration_millis,
    {
        self.duration_millis
    }

    pub fn fade_in(&self) -> (r: Option<u64>)
        ensures
            r == self.fade_in_millis,
    {
        self.fade_in_millis
    }

    pub fn fade_out(&self) -> (r: Option<u64>)
        ensures
            r == self.fade_out_millis,
    {
        self.fade_out_millis
    }

    /// The playback the short string form of the action describes: play
    /// `file` once, at the sink's default volume, untruncated.
    pub fn new(file: &str) -> (r: Self)
        ensures
            r.file@ == file@,
            r.volume is None,
            r.repeat == false,
            r.duration_millis is None,
            r.fade_in_millis is None,
            r.fade_out_millis is None,
    {
        PlaybackCue {
            file: file.to_owned(),
            volume: None,
            repeat: false,
            duration_millis: None,
            fade_in_millis: None,
            fade_out_millis: None,
        }
    }

    pub fn for_duration(self, duration_millis: u64) -> (r: Self)
        ensures
            r == (PlaybackCue { duration_millis: Some(duration_millis), ..self }),
    {
        PlaybackCue { duration_millis: Some(duration_millis), ..self }
    }

    pub fn fade_in_for(self, fade_in_millis: u64) -> (r: Self)
        ensures
            r == (PlaybackCue { fade_in_millis: Some(fade_in_millis), ..self }),
    {
        PlaybackCue { fade_in_millis: Some(fade_in_millis), ..self }
    }

    pub fn fade_out_for(self, fade_out_millis: u64) -> (r: Self)
        ensures
            r == (PlaybackCue { fade_out_millis: Some(fade_out_millis), ..self }),
    {
        PlaybackCue { fade_out_millis: Some(fade_out_millis), ..self }
    }

    pub fn with_volume(self, volume: u8) -> (r: Self)
        ensures
            r == (PlaybackCue { volume: Some(volume), ..self }),
    {
        PlaybackCue { volume: Some(volume), ..self }
    }

    pub fn with_repeat(self) -> (r: Self)
        ensures
            r == (PlaybackCue { repeat: true, ..self }),
    {
        PlaybackCue { repeat: true, ..self }
    }
}

impl Clone for PlaybackCue {
    fn clone(&self) -> (r: Self)
        ensures
            r.file@ == self.file@,
            r.volume == self.volume,
            r.repeat == self.repeat,
            r.duration_millis == self.duration_millis,
            r.fade_in_millis == self.fade_in_millis,
            r.fade_out_millis == self.fade_out_millis,
    {
        PlaybackCue {
            file: self.file.clone(),
            volume: self.volume,
            repeat: self.repeat,
            duration_millis: self.duration_millis,
            fade_in_millis: self.fade_in_millis,
            fade_out_millis: self.fade_out_millis,
        }
    }
}

/// Start playback of a set of audio files, one after another.
#[derive(Debug)]
pub struct PlaylistCue {
    /// Folder whose entries are appended to `files` when preparing.
    pub folder: Option<String>,
    /// Files to play, in script order.
    pub files: Vec<String>,
    /// Cycle the list for ever.
    pub repeat: bool,
    /// Permute the list once, uniformly at random, when preparing.
    pub shuffle: bool,
    /// Initial volume, if the script sets one.
    pub volume: Option<u8>,
    /// Requested overlap between consecutive files.  Recorded from the
    /// script; playback does not yet act on it.
    pub crossfade_millis: Option<u64>,
}

impl PlaylistCue {
    /// The playlist the short string form of the action describes: play
    /// the folder's entries in order, once.
    pub fn from_folder(folder: &str) -> (r: Self)
        ensures
            r.folder is Some && r.folder->0@ == folder@,
            r.files@.len() == 0,
            r.repeat == false,
            r.shuffle == false,
            r.volume is None,
            r.crossfade_millis is None,
    {
        PlaylistCue {
            folder: Some(folder.to_owned()),
            files: Vec::new(),
            repeat: false,
            shuffle: false,
            volume: None,
            crossfade_millis: None,
        }
    }

    pub fn from_files(files: Vec<String>) -> (r: Self)
        ensures
            r.folder is None,
            r.files == files,
            r.repeat == false,
            r.shuffle == false,
            r.volume is None,
            r.crossfade_millis is None,
    {
        PlaylistCue {
            folder: None,
            files,
            repeat: false,
            shuffle: false,
            volume: None,
            crossfade_millis: None,
        }
    }

    pub fn with_file(self, file: String) -> (r: Self)
        ensures
            r.files@ == self.files@.push(file),
            r.folder == self.folder,
            r.repeat == self.repeat,
            r.shuffle == self.shuffle,
            r.volume == self.volume,
            r.crossfade_millis == self.crossfade_millis,
    {
        let mut files = self.files;
        files.push(file);
        PlaylistCue { files, ..self }
    }

    pub fn folder(&self) -> (r: Option<&str>)
        ensures
            (match r {
                Some(f) => self.folder is Some && f@ == self.folder->0@,
                None => self.folder is None,
            }),
    {
        match &self.folder {
            Some(f) => Some(f.as_str()),
            None => None,
        }
    }

    pub fn with_repeat(self) -> (r: Self)
        ensures
            r == (PlaylistCue { repeat: true, ..self }),
    {
        PlaylistCue { repeat: true, ..self }
    }

    pub fn with_shuffle(self) -> (r: Self)
        ensures
            r == (PlaylistCue { shuffle: true, ..self }),
    {
        PlaylistCue { shuffle: true, ..self }
    }

    pub fn with_volume(self, volume: u8) -> (r: Self)
        ensures
            r == (PlaylistCue { volume: Some(volume), ..self }),
    {
        PlaylistCue { volume: Some(volume), ..self }
    }
}

impl Clone for PlaylistCue {
    fn clone(&self) -> (r: Self)
        ensures
            (match self.folder {
                Some(_) => r.folder is Some && r.folder->0@ == self.folder->0@,
                None => r.folder is None,
            }),
            r.files@ == self.files@,
            r.repeat == self.repeat,
            r.shuffle == self.shuffle,
            r.volume == self.volume,
            r.crossfade_millis == self.crossfade_millis,
    {
        let folder = match &self.folder {
            Some(f) => Some(f.clone()),
            None => None,
        };
        PlaylistCue {
            folder,
            files: self.files.clone(),
            repeat: self.repeat,
            shuffle: self.shuffle,
            volume: self.volume,
            crossfade_millis: self.crossfade_millis,
        }
    }
}

/// Ramp the volume of the active sink named `target`.
#[derive(Debug)]
pub struct FadeCue {
    /// Label of the cue whose sink is faded.
    pub target: String,
    /// Volume the ramp ends on (0–100); fading to 0 stops the sink.
    pub volume: u8,
    /// Length of the ramp.
    pub duration_millis: u64,
}

impl FadeCue {
    pub fn target(&self) -> (r: &str)
        ensures
            r@ == self.target@,
    {
        self.target.as_str()
    }

    pub fn volume(&self) -> (r: u8)
        ensures
            r == self.volume,
    {
        self.volume
    }

    pub fn duration(&self) -> (r: u64)
        ensures
            r == self.duration_millis,
    {
        self.duration_millis
    }

    /// The fade the short string form of the action describes: fade
    /// `target` to silence over the default duration.
    pub fn new(target: &str) -> (r: Self)
        ensures
            r.target@ == target@,
            r.volume == 0,
            r.duration_millis == DEFAULT_FADE_MILLIS,
    {
        FadeCue { target: target.to_owned(), volume: 0, duration_millis: DEFAULT_FADE_MILLIS }
    }

    pub fn to_volume(self, volume: u8) -> (r: Self)
        ensures
            r == (FadeCue { volume, ..self }),
    {
        FadeCue { volume, ..self }
    }

    pub fn for_duration(self, duration_millis: u64) -> (r: Self)
        ensures
            r == (FadeCue { duration_millis, ..self }),
    {
        FadeCue { duration_millis, ..self }
    }
}

impl Clone for FadeCue {
    fn clone(&self) -> (r: Self)
        ensures
            r == *self,
    {
        FadeCue {
            target: self.target.clone(),
            volume: self.volume,
            duration_millis: self.duration_millis,
        }
    }
}

/// Stop the active sink named `target`; the sentinel target `"all"` stops
/// every active sink.
#[derive(Debug)]
pub struct StopCue {
    /// Label of the cue whose sink is stopped, or `"all"`.
    pub target: String,
}

impl StopCue {
    pub fn target(&self) -> (r: &str)
        ensures
            r@ == self.target@,
    {
        self.target.as_str()
    }

    pub fn new(target: &str) -> (r: Self)
        ensures
            r.target@ == target@,
    {
        StopCue { target: target.to_owned() }
    }
}

impl Clone for StopCue {
    fn clone(&self) -> (r: Self)
        ensures
            r == *self,
    {
        StopCue { target: self.target.clone() }
    }
}

}
