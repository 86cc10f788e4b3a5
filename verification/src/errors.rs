//! The per-track error taxonomy. Every stage failure is fatal to its own
//! track only and is surfaced, tagged with the stage, to the batch
//! scheduler; no stage retries and no partial output is cleaned up.
use vstd::prelude::*;

verus! {

/// Which pipeline stage failed for a track.
#[derive(Debug, Clone, Copy, PartialEq, Eq, Structural)]
pub enum TrackError {
    /// The remote metadata lookup failed.
    MetadataError,
    /// The output path could not be constructed.
    PathError,
    /// The decode engine failed mid-stream.
    PlaybackError,
    /// The format conversion failed.
    EncodeError,
    /// Writing the encoded bytes to the file system failed.
    WriteError,
}

impl TrackError {
    /// A short description of the failed stage.
    pub fn describe(&self) -> (msg: &'static str)
        ensures
            msg@ == describe_of(*self),
    {
        match self {
            TrackError::MetadataError => "could not fetch the track's metadata",
            TrackError::PathError => "could not set the output path",
            TrackError::PlaybackError => "the decode engine failed",
            TrackError::EncodeError => "could not encode the track",
            TrackError::WriteError => "could not write the output file",
        }
    }
}

/// The description text for each error.
pub open spec fn describe_of(e: TrackError) -> Seq<char> {
    match e {
        TrackError::MetadataError => "could not fetch the track's metadata"@,
        TrackError::PathError => "could not set the output path"@,
        TrackError::PlaybackError => "the decode engine failed"@,
        TrackError::EncodeError => "could not encode the track"@,
        TrackError::WriteError => "could not write the output file"@,
    }
}

} // verus!
