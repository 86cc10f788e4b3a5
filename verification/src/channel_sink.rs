//! The sink bridge: adapts the decode engine's synchronous push interface
//! into discrete events for an async consumer. Each chunk the engine
//! pushes becomes exactly one `Write` event carrying the new cumulative
//! byte count, the approximate total, and the chunk itself (moved, never
//! copied); the end of the stream becomes exactly one `Finished` event.
//! The surrounding program owns the channel the events travel on, so the
//! producer thread never waits for the consumer.
use vstd::prelude::*;

use crate::track::TrackMetadata;

verus! {

/// Samples per second of the decoded stream.
pub const SAMPLE_RATE: u32 = 44100;

/// Interleaved channels of the decoded stream.
pub const NUM_CHANNELS: u32 = 2;

/// Bits per sample of the decoded stream.
pub const BIT_DEPTH: u32 = 16;

/// Bytes per second of the decoded stream: 44100 samples over 2 channels,
/// 2 bytes each.
pub const BYTES_PER_SECOND: u64 = 176400;

/// One message from the sink bridge to the consuming pipeline, consumed
/// exactly once and never stored.
#[derive(Debug)]
pub enum SinkEvent {
    /// One pushed chunk: the cumulative byte count so far, the approximate
    /// total, and the chunk itself (ownership transferred).
    Write { bytes: usize, total: usize, content: Vec<i32> },
    /// The end of the stream; no `Write` event follows it.
    Finished,
}

/// The bytes one chunk of 16-bit samples contributes to the count.
pub open spec fn bytes_of_chunk(chunk: Seq<i32>) -> nat {
    2 * chunk.len()
}

/// The bytes of a whole chunk sequence.
pub open spec fn bytes_of_chunks(chunks: Seq<Seq<i32>>) -> nat
    decreases chunks.len(),
{
    if chunks.len() == 0 {
        0
    } else {
        bytes_of_chunks(chunks.drop_last()) + bytes_of_chunk(chunks.last())
    }
}

/// The approximate byte total of a track, derived from its expected
/// duration at the fixed stream parameters; a display estimate, not exact.
pub open spec fn approximate_size_of(duration_ms: nat) -> nat {
    duration_ms * (BYTES_PER_SECOND as nat) / 1000
}

/// The producer-side state of the sink bridge: how many bytes the decode
/// engine has pushed, the total estimate, and whether the stream ended.
/// `pushed` records the chunks pushed so far, oldest first.
pub struct ChannelSink {
    /// Cumulative bytes of every chunk pushed so far.
    pub bytes_sent: usize,
    /// The approximate total byte count, fixed at construction.
    pub total_estimate: usize,
    /// Whether the end of the stream was signalled.
    pub finished: bool,
    /// The chunks pushed so far, in order.
    pub pushed: Ghost<Seq<Seq<i32>>>,
}

impl ChannelSink {
    /// The byte counter always equals the bytes of the pushed chunks.
    pub open spec fn wf(self) -> bool {
        self.bytes_sent == bytes_of_chunks(self.pushed@)
    }

    /// Builds the bridge state for one track: nothing pushed yet, the
    /// total estimated from the track's expected duration.
    pub fn new(metadata: &TrackMetadata) -> (sink: ChannelSink)
        requires
            approximate_size_of(metadata.duration_ms as nat) <= usize::MAX,
        ensures
            sink.wf(),
            sink.bytes_sent == 0,
            !sink.finished,
            sink.pushed@ == Seq::<Seq<i32>>::empty(),
            sink.total_estimate == approximate_size_of(metadata.duration_ms as nat),
    {
        let total: u64 = (metadata.duration_ms as u64) * BYTES_PER_SECOND / 1000;
        ChannelSink {
            bytes_sent: 0,
            total_estimate: total as usize,
            finished: false,
            pushed: Ghost(Seq::empty()),
        }
    }

    /// The approximate total byte count of the track.
    pub fn get_approximate_size(&self) -> (size: usize)
        ensures
            size == self.total_estimate,
    {
        self.total_estimate
    }

    /// Accepts one chunk from the decode engine and returns the one
    /// `Write` event it translates into: the new cumulative byte count,
    /// the total estimate, and the chunk, moved.
    pub fn write_chunk(&mut self, chunk: Vec<i32>) -> (event: SinkEvent)
        requires
            old(self).wf(),
            !old(self).finished,
            old(self).bytes_sent + bytes_of_chunk(chunk@) <= usize::MAX,
        ensures
            final(self).wf(),
            !final(self).finished,
            final(self).pushed@ == old(self).pushed@.push(chunk@),
            final(self).bytes_sent == old(self).bytes_sent + bytes_of_chunk(chunk@),
            final(self).total_estimate == old(self).total_estimate,
            event matches SinkEvent::Write { bytes, total, content }
                && bytes == old(self).bytes_sent + bytes_of_chunk(chunk@)
                && total == old(self).total_estimate && content@ == chunk@,
    {
        proof {
            assert(self.pushed@.push(chunk@).drop_last() =~= self.pushed@);
        }
        let chunk_bytes = 2 * chunk.len();
        self.bytes_sent = self.bytes_sent + chunk_bytes;
        proof {
            let ghost appended = self.pushed@.push(chunk@);
            assert(bytes_of_chunks(appended) == bytes_of_chunks(self.pushed@) + bytes_of_chunk(
                chunk@,
            ));
        }
        self.pushed = Ghost(self.pushed@.push(chunk@));
        SinkEvent::Write { bytes: self.bytes_sent, total: self.total_estimate, content: chunk }
    }

    /// Marks the end of the stream and returns the one `Finished` event;
    /// no further chunk is accepted afterwards.
    pub fn finish(&mut self) -> (event: SinkEvent)
        requires
            !old(self).finished,
        ensures
            final(self).finished,
            final(self).bytes_sent == old(self).bytes_sent,
            final(self).total_estimate == old(self).total_estimate,
            final(self).pushed@ == old(self).pushed@,
            final(self).wf() == old(self).wf(),
            event is Finished,
    {
        self.finished = true;
        SinkEvent::Finished
    }
}

/// The cumulative byte counts the `Write` events carry are non-decreasing:
/// event `i` carries the bytes of the first `i + 1` chunks.
proof fn lemma_chunk_bytes_monotone(chunks: Seq<Seq<i32>>, i: int, j: int)
    requires
        0 <= i <= j <= chunks.len(),
    ensures
        bytes_of_chunks(chunks.take(i)) <= bytes_of_chunks(chunks.take(j)),
    decreases j - i,
{
    if i < j {
        lemma_chunk_bytes_monotone(chunks, i + 1, j);
        assert(chunks.take(i + 1).drop_last() =~= chunks.take(i));
        assert(bytes_of_chunks(chunks.take(i + 1)) == bytes_of_chunks(chunks.take(i))
            + bytes_of_chunk(chunks[i]));
    }
}

/// For a producer that pushes `chunks` in order and then signals the end,
/// the consumer observes one `Write` event per chunk whose byte count is
/// the cumulative bytes of the chunks so far — non-decreasing, and on the
/// last `Write` before `Finished` equal to the byte total of the whole
/// stream.
pub proof fn lemma_sink_bytes_reach_total(chunks: Seq<Seq<i32>>)
    ensures
        forall|i: int, j: int|
            0 <= i <= j <= chunks.len() ==> bytes_of_chunks(#[trigger] chunks.take(i))
                <= bytes_of_chunks(#[trigger] chunks.take(j)),
        bytes_of_chunks(chunks.take(chunks.len() as int)) == bytes_of_chunks(chunks),
{
    assert forall|i: int, j: int| 0 <= i <= j <= chunks.len() implies bytes_of_chunks(
        #[trigger] chunks.take(i),
    ) <= bytes_of_chunks(#[trigger] chunks.take(j)) by {
        lemma_chunk_bytes_monotone(chunks, i, j);
    }
    assert(chunks.take(chunks.len() as int) =~= chunks);
}

} // verus!
