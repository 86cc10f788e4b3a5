//! The data a pipeline reads of one remote audio item: the raw remote id
//! and the eagerly known owner (a playlist or an album), plus the display
//! metadata that is resolved lazily per track. The surrounding program
//! resolves ids and metadata over the network and hands them in as plain
//! values.
use vstd::prelude::*;

verus! {

/// One remote audio item, input to exactly one pipeline invocation.
/// `playlist_id` and `album_id` are mutually exclusive in practice, but
/// that is not enforced.
#[derive(Debug, Clone)]
pub struct Track {
    /// The raw 128-bit remote id; file names carry its base-62 form.
    pub id: u128,
    /// The id of the playlist this track was requested through, if any.
    pub playlist_id: Option<u128>,
    /// The id of the album this track was requested through, if any.
    pub album_id: Option<u128>,
}

/// Display metadata of one track, resolved lazily and owned for the
/// lifetime of one pipeline invocation.
#[derive(Debug, Clone)]
pub struct TrackMetadata {
    /// The track's title.
    pub track_name: String,
    /// The artists' display names, in order.
    pub artist_names: Vec<String>,
    /// The track's expected duration in milliseconds, used only to estimate
    /// the total byte count for progress display.
    pub duration_ms: u32,
}

/// Display data of the playlist a track belongs to.
#[derive(Debug, Clone)]
pub struct PlaylistInfo {
    /// The playlist's display name.
    pub name: String,
    /// The playlist creator's display name.
    pub creator: String,
}

/// Display data of the album a track belongs to.
#[derive(Debug, Clone)]
pub struct AlbumInfo {
    /// The album's display name.
    pub name: String,
    /// The album artists' display names, in order.
    pub artist_names: Vec<String>,
}

} // verus!
