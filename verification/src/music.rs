//! Domain models for local music files and streamed tracks.

use vstd::prelude::*;

verus! {

/// Deepest directory level a folder scan may reach.
pub const MAX_SCAN_DEPTH: usize = 10;

/// Most files a single folder scan may process.
pub const MAX_FILES_PER_SCAN: usize = 10000;

/// A local music file with its extracted metadata.
#[derive(Debug, Clone, PartialEq, Eq)]
pub struct MusicFile {
    /// Absolute path to the audio file.
    pub path: String,
    /// Song title extracted from metadata.
    pub title: Option<String>,
    /// Artist name from metadata.
    pub artist: Option<String>,
    /// Album name from metadata.
    pub album: Option<String>,
    /// Duration in seconds.
    pub duration: Option<u32>,
    /// Release year.
    pub year: Option<i32>,
    /// Music genre.
    pub genre: Option<String>,
    /// Album art as a data URL.
    pub album_art: Option<String>,
}

impl MusicFile {
    /// Creates a file entry carrying only a path and an optional title.
    pub fn new(path: String, title: Option<String>) -> (r: MusicFile)
        ensures
            r.path == path,
            r.title == title,
            r.artist is None && r.album is None && r.duration is None && r.year is None
                && r.genre is None && r.album_art is None,
    {
        MusicFile {
            path,
            title,
            artist: None,
            album: None,
            duration: None,
            year: None,
            genre: None,
            album_art: None,
        }
    }
}

/// Streaming information for a track found on the video platform.
#[derive(Debug, Clone, PartialEq, Eq)]
pub struct SongStreamInfo {
    pub title: String,
    pub artist: Option<String>,
    pub album: Option<String>,
    pub duration: Option<u64>,
    pub stream_url: String,
    pub thumbnail: Option<String>,
    pub video_id: Option<String>,
}

} // verus!
