//! The requests that the frontend sends to the backend, and the metadata
//! that groups the tasks running them.
use vstd::prelude::*;

use crate::common::{ArtistChannelID, VideoID};

verus! {

/// Groups of backend tasks, used to constrain which tasks may run together.
#[derive(PartialEq, Eq, Debug, Clone, Copy, Structural)]
pub enum TaskMetadata {
    PlayingSong,
    PlayPause,
}

/// The identifier of a song in the playlist.
#[derive(PartialEq, Eq, Debug, Clone, Copy, Structural)]
pub struct ListSongID(pub usize);

/// The direction to seek in.
#[derive(PartialEq, Eq, Debug, Clone, Copy, Structural)]
pub enum SeekDirection {
    Forward,
    Back,
}

/// Get search suggestions for the text.
#[derive(Debug)]
pub struct GetSearchSuggestions(pub String);

/// Search for artists matching the text.
#[derive(Debug)]
pub struct SearchArtists(pub String);

/// Get the songs of an artist.
#[derive(Debug)]
pub struct GetArtistSongs(pub ArtistChannelID);

/// Download a video's song for a playlist entry.
#[derive(Debug)]
pub struct DownloadSong(pub VideoID, pub ListSongID);

/// Change the volume by the amount.
#[derive(Debug)]
pub struct IncreaseVolume(pub i8);

/// Seek by a duration in a direction.
#[derive(Debug)]
pub struct Seek {
    pub duration: std::time::Duration,
    pub direction: SeekDirection,
}

/// Stop the song, if it is playing.
#[derive(Debug)]
pub struct Stop(pub ListSongID);

/// Pause or resume the song, if it is playing.
#[derive(Debug)]
pub struct PausePlay(pub ListSongID);

impl PausePlay {
    /// A pause or resume task belongs to the pause and resume group.
    pub fn metadata() -> (v: Vec<TaskMetadata>)
        ensures
            v@ == seq![TaskMetadata::PlayPause],
    {
        let mut v: Vec<TaskMetadata> = Vec::new();
        v.push(TaskMetadata::PlayPause);
        v
    }
}

/// A task that plays, autoplays or queues a song belongs to the song
/// playing group.
pub fn song_playback_metadata() -> (v: Vec<TaskMetadata>)
    ensures
        v@ == seq![TaskMetadata::PlayingSong],
{
    let mut v: Vec<TaskMetadata> = Vec::new();
    v.push(TaskMetadata::PlayingSong);
    v
}

} // verus!
