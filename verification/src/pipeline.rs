//! The per-track pipeline: path computation, phase tracking, sample
//! accumulation and the three downstream stages (accumulate, encode,
//! write). The surrounding program performs the outside work — metadata
//! lookup, driving the decode engine, sleeping, writing the file — and
//! feeds the results in as plain values and events; every decision and
//! every transformation stands here.
use vstd::prelude::*;

use crate::channel_sink::SinkEvent;
use crate::download::DownloadOptions;
use crate::encoder::EncodedStream;
use crate::encoder::Format;
use crate::encoder::Samples;
use crate::encoder::encode;
use crate::encoder::encoding_of;
use crate::encoder::extension_of;
use crate::encoder::sample_in_range;
use crate::errors::TrackError;
use crate::naming::album_name;
use crate::naming::album_name_of;
use crate::naming::get_file_name;
use crate::naming::playlist_name;
use crate::naming::track_file_name;
use crate::phase::Phase;
use crate::phase::phase_can_step;
use crate::phase::phase_initial;
use crate::phase::phase_name;
use crate::phase::phase_rank;
use crate::sanitize::clean_of;
use crate::track::AlbumInfo;
use crate::track::PlaylistInfo;
use crate::track::Track;
use crate::track::TrackMetadata;

verus! {

/// The folder a track's file is nested under: the playlist's sanitized
/// display name when the track belongs to a playlist, else the album's
/// composed folder name when it belongs to an album, else none.
pub open spec fn folder_of(
    track: Track,
    playlist: Option<PlaylistInfo>,
    album: Option<AlbumInfo>,
    ascii_only: bool,
) -> Option<Seq<char>> {
    if track.playlist_id is Some {
        match playlist {
            Some(info) => Some(clean_of(info.name@, ascii_only)),
            None => None,
        }
    } else if track.album_id is Some {
        match (album, track.album_id) {
            (Some(info), Some(album_id)) => Some(
                album_name_of(info.artist_names.deep_view(), info.name@, album_id as nat, ascii_only),
            ),
            _ => None,
        }
    } else {
        None
    }
}

/// The on-disk layout: `destination/[<folder>/]<file name>.<extension>`.
pub open spec fn output_path_of(
    destination: Seq<char>,
    folder: Option<Seq<char>>,
    file_name: Seq<char>,
    extension: Seq<char>,
) -> Seq<char> {
    match folder {
        Some(f) => destination + "/"@ + f + "/"@ + file_name + "."@ + extension,
        None => destination + "/"@ + file_name + "."@ + extension,
    }
}

/// Joins destination, optional folder, file name and extension into the
/// output path.
pub fn resolve_output_path(
    destination: &str,
    folder: Option<&String>,
    file_name: &str,
    extension: &str,
) -> (path: String)
    ensures
        path@ == output_path_of(
            destination@,
            match folder {
                Some(f) => Some(f@),
                None => None,
            },
            file_name@,
            extension@,
        ),
{
    let mut path = String::new();
    path.append(destination);
    path.append("/");
    match folder {
        Some(f) => {
            path.append(f.as_str());
            path.append("/");
        },
        None => {},
    }
    path.append(file_name);
    path.append(".");
    path.append(extension);
    path
}

/// Copies a sample buffer.
fn copy_samples(samples: &Vec<i32>) -> (copy: Vec<i32>)
    ensures
        copy@ == samples@,
{
    let mut copy: Vec<i32> = Vec::new();
    let n = samples.len();
    let mut i: usize = 0;
    while i < n
        invariant
            i <= n,
            n == samples@.len(),
            copy@ == samples@.take(i as int),
        decreases n - i,
    {
        copy.push(samples[i]);
        proof {
            assert(copy@ =~= samples@.take(i + 1));
        }
        i = i + 1;
    }
    proof {
        assert(copy@ =~= samples@);
    }
    copy
}

/// The state of one track's pipeline: the derived names, the shared phase
/// cell, the accumulated samples, and the stop flag its poller watches.
/// `observed` records every phase value the pipeline has held, in order.
pub struct TrackPipeline {
    /// The sanitized file name (without folder or extension).
    pub file_name: String,
    /// The full output path.
    pub path: String,
    /// The current phase, read by the publishing poller.
    pub phase: Phase,
    /// The decoded samples accumulated so far, in arrival order.
    pub samples: Vec<i32>,
    /// The target container format.
    pub format: Format,
    /// Set exactly once, together with the terminal phase, to stop the
    /// poller.
    pub stop: bool,
    /// Every phase value held so far, oldest first.
    pub observed: Ghost<Seq<Phase>>,
}

impl TrackPipeline {
    /// The pipeline's invariant: the phase always reports the file name,
    /// the recorded phases form a valid forward walk ending in the current
    /// phase, and the stop flag is set only in the terminal phase.
    pub open spec fn wf(self) -> bool {
        &&& phase_name(self.phase) == self.file_name@
        &&& self.observed@.len() > 0
        &&& self.observed@.last() == self.phase
        &&& phase_initial(self.observed@[0])
        &&& forall|k: int|
            0 <= k < self.observed@.len() - 1 ==> phase_can_step(
                #[trigger] self.observed@[k],
                self.observed@[k + 1],
            )
        &&& self.stop ==> self.phase is Downloaded
    }

    /// Builds the pipeline for one track: derives the sanitized file name
    /// and the output path, and enters `Downloading` with zero progress.
    /// The caller resolves the owning playlist's or album's display data
    /// first and passes it in.
    pub fn new(
        track: &Track,
        metadata: &TrackMetadata,
        playlist: Option<&PlaylistInfo>,
        album: Option<&AlbumInfo>,
        options: &DownloadOptions,
        ascii_only: bool,
    ) -> (pipeline: TrackPipeline)
        requires
            track.playlist_id is Some ==> playlist is Some,
            track.playlist_id is None && track.album_id is Some ==> album is Some,
        ensures
            pipeline.wf(),
            pipeline.file_name@ == track_file_name(
                metadata.artist_names.deep_view(),
                metadata.track_name@,
                crate::base62::base62_of(track.id as nat),
                ascii_only,
            ),
            pipeline.path@ == output_path_of(
                options.destination@,
                folder_of(
                    *track,
                    match playlist {
                        Some(p) => Some(*p),
                        None => None,
                    },
                    match album {
                        Some(a) => Some(*a),
                        None => None,
                    },
                    ascii_only,
                ),
                pipeline.file_name@,
                extension_of(options.format),
            ),
            phase_initial(pipeline.phase),
            pipeline.samples@ == Seq::<i32>::empty(),
            pipeline.format == options.format,
            !pipeline.stop,
            pipeline.observed@ == seq![pipeline.phase],
    {
        let file_name = get_file_name(track, metadata, ascii_only);
        let folder: Option<String> = if track.playlist_id.is_some() {
            let info = playlist.unwrap();
            Some(playlist_name(info.name.as_str(), ascii_only))
        } else if track.album_id.is_some() {
            let info = album.unwrap();
            let album_id = track.album_id.unwrap();
            Some(album_name(&info.artist_names, info.name.as_str(), album_id, ascii_only))
        } else {
            None
        };
        let path = resolve_output_path(
            options.destination.as_str(),
            folder.as_ref(),
            file_name.as_str(),
            options.format.extension(),
        );
        let phase = Phase::Downloading {
            file_name: file_name.clone(),
            downloaded_bytes: 0,
            total_bytes: 0,
        };
        let ghost first_observed = seq![phase];
        TrackPipeline {
            file_name,
            path,
            phase,
            samples: Vec::new(),
            format: options.format,
            stop: false,
            observed: Ghost(first_observed),
        }
    }

    /// Consumes one sink event. A `Write` appends the chunk to the sample
    /// buffer and overwrites the phase with the event's byte counts;
    /// `Finished` changes nothing and reports that accumulation is over.
    pub fn on_sink_event(&mut self, event: SinkEvent) -> (finished: bool)
        requires
            old(self).wf(),
            old(self).phase is Downloading,
        ensures
            final(self).wf(),
            final(self).file_name == old(self).file_name,
            final(self).path == old(self).path,
            final(self).format == old(self).format,
            final(self).stop == old(self).stop,
            event matches SinkEvent::Write { bytes, total, content } ==> {
                &&& !finished
                &&& final(self).samples@ == old(self).samples@ + content@
                &&& final(self).phase matches Phase::Downloading {
                    downloaded_bytes,
                    total_bytes,
                    ..
                } && downloaded_bytes == bytes && total_bytes == total
                &&& final(self).observed@ == old(self).observed@.push(final(self).phase)
            },
            event is Finished ==> finished && *final(self) == *old(self),
    {
        match event {
            SinkEvent::Write { bytes, total, content } => {
                let mut content = content;
                self.samples.append(&mut content);
                let next = Phase::Downloading {
                    file_name: self.file_name.clone(),
                    downloaded_bytes: bytes,
                    total_bytes: total,
                };
                proof {
                    assert(phase_can_step(self.phase, next));
                }
                self.phase = next;
                self.observed = Ghost(self.observed@.push(next));
                proof {
                    assert(self.observed@.last() == self.phase);
                    assert forall|k: int| 0 <= k < self.observed@.len() - 1 implies phase_can_step(
                        #[trigger] self.observed@[k],
                        self.observed@[k + 1],
                    ) by {
                        if k < self.observed@.len() - 2 {
                            assert(phase_can_step(old(self).observed@[k], old(self).observed@[k + 1]));
                        }
                    }
                }
                false
            },
            SinkEvent::Finished => true,
        }
    }

    /// Leaves accumulation: the phase advances to `Encoding`.
    pub fn begin_encoding(&mut self)
        requires
            old(self).wf(),
            old(self).phase is Downloading,
        ensures
            final(self).wf(),
            final(self).phase is Encoding,
            final(self).file_name == old(self).file_name,
            final(self).path == old(self).path,
            final(self).samples == old(self).samples,
            final(self).format == old(self).format,
            !final(self).stop,
            final(self).observed@ == old(self).observed@.push(final(self).phase),
    {
        self.advance(Phase::Encoding { file_name: self.file_name.clone() });
    }

    /// Encodes the accumulated samples (fixed stream parameters: 44100
    /// samples per second, 2 channels, 16-bit depth) into the selected
    /// container. Succeeds exactly when every accumulated sample fits the
    /// 16-bit depth; failure is fatal to this track only.
    pub fn encode_samples(&self) -> (r: Result<EncodedStream, TrackError>)
        requires
            self.phase is Encoding,
        ensures
            r is Ok <==> (forall|k: int|
                0 <= k < self.samples@.len() ==> sample_in_range(self.samples@[k] as int)),
            r matches Ok(stream) ==> stream.data@ == encoding_of(
                self.samples@,
                44100,
                2,
                16,
                self.format,
            ),
            r matches Err(e) ==> e == TrackError::EncodeError,
    {
        let buffer = copy_samples(&self.samples);
        let samples = Samples::new(buffer, 44100, 2, 16);
        encode(self.format, &samples)
    }

    /// Enters the write stage: the phase advances to `Writing`.
    pub fn begin_writing(&mut self)
        requires
            old(self).wf(),
            old(self).phase is Encoding,
        ensures
            final(self).wf(),
            final(self).phase is Writing,
            final(self).file_name == old(self).file_name,
            final(self).path == old(self).path,
            final(self).samples == old(self).samples,
            final(self).format == old(self).format,
            !final(self).stop,
            final(self).observed@ == old(self).observed@.push(final(self).phase),
    {
        self.advance(Phase::Writing { file_name: self.file_name.clone() });
    }

    /// Finishes the pipeline: the phase reaches the terminal `Downloaded`
    /// and the stop flag is set, in one step, so the poller sees them
    /// together and exits.
    pub fn finish(&mut self)
        requires
            old(self).wf(),
            old(self).phase is Writing,
        ensures
            final(self).wf(),
            final(self).phase is Downloaded,
            final(self).file_name == old(self).file_name,
            final(self).path == old(self).path,
            final(self).samples == old(self).samples,
            final(self).format == old(self).format,
            final(self).stop,
            !old(self).stop,
            final(self).observed@ == old(self).observed@.push(final(self).phase),
    {
        self.advance(Phase::Downloaded { file_name: self.file_name.clone() });
        self.stop = true;
    }

    /// Overwrites the phase with `next`, which must be a valid forward
    /// step, and records it.
    fn advance(&mut self, next: Phase)
        requires
            old(self).wf(),
            !(old(self).phase is Downloaded),
            phase_can_step(old(self).phase, next),
        ensures
            final(self).wf(),
            final(self).phase == next,
            final(self).file_name == old(self).file_name,
            final(self).path == old(self).path,
            final(self).samples == old(self).samples,
            final(self).format == old(self).format,
            final(self).stop == old(self).stop,
            !final(self).stop,
            final(self).observed@ == old(self).observed@.push(next),
    {
        self.phase = next;
        self.observed = Ghost(self.observed@.push(next));
        proof {
            assert forall|k: int| 0 <= k < self.observed@.len() - 1 implies phase_can_step(
                #[trigger] self.observed@[k],
                self.observed@[k + 1],
            ) by {
                if k < self.observed@.len() - 2 {
                    assert(phase_can_step(old(self).observed@[k], old(self).observed@[k + 1]));
                }
            }
        }
    }

    /// Every well-formed pipeline has walked its phases strictly forward:
    /// ranks never decreased, every move out of a stage went exactly one
    /// stage onward (so `Downloading* → Encoding → Writing → Downloaded`,
    /// truncated wherever the pipeline stands), no stage past
    /// `Downloading` was ever held twice, and the reported file name never
    /// changed.
    pub proof fn lemma_observed_walk(self)
        requires
            self.wf(),
        ensures
            forall|i: int, j: int|
                0 <= i <= j < self.observed@.len() ==> phase_rank(#[trigger] self.observed@[i])
                    <= phase_rank(#[trigger] self.observed@[j]),
            forall|k: int|
                0 <= k < self.observed@.len() - 1 ==> phase_rank(#[trigger] self.observed@[k + 1])
                    == phase_rank(self.observed@[k]) + 1 || (self.observed@[k] is Downloading
                    && self.observed@[k + 1] is Downloading),
            forall|i: int, j: int|
                0 <= i < j < self.observed@.len() && phase_rank(#[trigger] self.observed@[i])
                    == phase_rank(#[trigger] self.observed@[j])
                    ==> (self.observed@[i] is Downloading),
            forall|k: int|
                0 <= k < self.observed@.len() ==> phase_name(#[trigger] self.observed@[k])
                    == self.file_name@,
    {
        crate::phase::lemma_phase_walk(self.observed@);
        assert(phase_name(self.observed@[0]) == phase_name(
            self.observed@[self.observed@.len() - 1],
        ));
    }

    /// One cycle of the detached phase poller: reads the current phase,
    /// frames it as a wire message, and reports whether the stop flag was
    /// set. The caller publishes the message and, on `true`, exits.
    pub fn poll_step(&self) -> (r: (String, bool))
        ensures
            r.0@ == crate::wire::phase_message_of(self.phase),
            r.1 == self.stop,
    {
        let msg = crate::wire::phase_message(&self.phase);
        (msg, self.stop)
    }
}

} // verus!
