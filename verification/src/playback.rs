//! Playing a finished recording in the desktop window, with a chosen sound
//! track.

use vstd::prelude::*;

verus! {

/// Asking for a recording to be opened for playback.
#[derive(Debug, Clone, PartialEq, Eq)]
pub struct OpenPlayback {
    /// The recording, as the library reported its path.
    pub source: String,
    /// The sound track to play; absent means the recording's default.
    pub audio_track: Option<usize>,
}

impl Default for OpenPlayback {
    /// No recording, and the default track.
    fn default() -> (request: OpenPlayback)
        ensures
            request.source@ == Seq::<char>::empty(),
            request.audio_track is None,
    {
        OpenPlayback { source: String::new(), audio_track: None }
    }
}

/// A recording opened for playback.
#[derive(Debug, Clone, PartialEq, Eq)]
pub struct PlaybackStream {
    /// What the window plays.
    pub path: String,
    /// The sound track it carries, if it carries one.
    pub audio_track: Option<usize>,
    /// Every sound track the recording has.
    pub audio_tracks: Vec<PlaybackTrack>,
    /// Whether a file had to be prepared for it.
    pub prepared: bool,
}

impl Default for PlaybackStream {
    /// Nothing to play.
    fn default() -> (stream: PlaybackStream)
        ensures
            stream.path@ == Seq::<char>::empty(),
            stream.audio_track is None,
            stream.audio_tracks@.len() == 0,
            !stream.prepared,
    {
        PlaybackStream {
            path: String::new(),
            audio_track: None,
            audio_tracks: Vec::new(),
            prepared: false,
        }
    }
}

/// One sound track a window can offer.
#[derive(Debug, Clone, PartialEq, Eq)]
pub struct PlaybackTrack {
    /// The stream index the container declares it at.
    pub index: usize,
    /// What the recording calls it, if it names it.
    pub name: Option<String>,
    /// Its language, if declared.
    pub language: Option<String>,
    /// Whether it is the recording's default track.
    pub default: bool,
}

impl Default for PlaybackTrack {
    /// Track zero, unnamed.
    fn default() -> (track: PlaybackTrack)
        ensures
            track.index == 0,
            track.name is None,
            track.language is None,
            !track.default,
    {
        PlaybackTrack { index: 0, name: None, language: None, default: false }
    }
}

} // verus!
