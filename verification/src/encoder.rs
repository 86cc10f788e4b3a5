//! The encoder: a pure transform from accumulated raw samples and a format
//! selector to a container-format byte sequence, one lossless and one lossy
//! variant. Both containers share a little-endian header (sample rate,
//! channel count, source bit depth, sample count); the lossless body stores
//! every 16-bit sample in two offset-binary bytes, the lossy body quantizes
//! each sample to its top byte.
use vstd::prelude::*;

use crate::errors::TrackError;

verus! {

/// The target container format.
#[derive(Debug, Clone, Copy, PartialEq, Eq, Structural)]
pub enum Format {
    /// The lossy-compressed container.
    Mp3,
    /// The lossless container.
    Flac,
}

/// The canonical file extension of each format.
pub open spec fn extension_of(format: Format) -> Seq<char> {
    match format {
        Format::Mp3 => "mp3"@,
        Format::Flac => "flac"@,
    }
}

impl Format {
    /// The format's canonical file extension.
    pub fn extension(&self) -> (ext: &'static str)
        ensures
            ext@ == extension_of(*self),
    {
        match self {
            Format::Mp3 => "mp3",
            Format::Flac => "flac",
        }
    }

    /// The format a user names `mp3` or `flac`; any other name is not a
    /// supported format.
    pub fn from_name(name: &str) -> (format: Option<Format>)
        ensures
            format == if name@ == "mp3"@ {
                Some(Format::Mp3)
            } else if name@ == "flac"@ {
                Some(Format::Flac)
            } else {
                None::<Format>
            },
    {
        if str_eq(name, "mp3") {
            Some(Format::Mp3)
        } else if str_eq(name, "flac") {
            Some(Format::Flac)
        } else {
            None
        }
    }
}

/// Whether two string slices hold the same characters.
fn str_eq(a: &str, b: &str) -> (r: bool)
    ensures
        r == (a@ == b@),
{
    let a_len = a.unicode_len();
    let b_len = b.unicode_len();
    if a_len != b_len {
        return false;
    }
    let mut i: usize = 0;
    while i < a_len
        invariant
            i <= a_len,
            a_len == a@.len(),
            a_len == b@.len(),
            forall|k: int| 0 <= k < i ==> a@[k] == b@[k],
        decreases a_len - i,
    {
        if a.get_char(i) != b.get_char(i) {
            return false;
        }
        i = i + 1;
    }
    proof {
        assert(a@ =~= b@);
    }
    true
}

/// A buffer of decoded audio samples with its PCM parameters.
#[derive(Debug, Clone)]
pub struct Samples {
    /// The decoded samples, in arrival order.
    pub samples: Vec<i32>,
    /// Samples per second.
    pub sample_rate: u32,
    /// Number of interleaved channels.
    pub channels: u32,
    /// Bits per source sample.
    pub bit_depth: u32,
}

impl Samples {
    /// Packs a sample buffer with its PCM parameters.
    pub fn new(samples: Vec<i32>, sample_rate: u32, channels: u32, bit_depth: u32) -> (s: Samples)
        ensures
            s.samples == samples,
            s.sample_rate == sample_rate,
            s.channels == channels,
            s.bit_depth == bit_depth,
    {
        Samples { samples, sample_rate, channels, bit_depth }
    }
}

/// An encoded container-format byte sequence, ready to be written to disk.
#[derive(Debug, Clone)]
pub struct EncodedStream {
    /// The container bytes.
    pub data: Vec<u8>,
}

/// The four little-endian bytes of a 32-bit value.
pub open spec fn le32(x: nat) -> Seq<u8> {
    seq![
        (x % 256) as u8,
        ((x / 256) % 256) as u8,
        ((x / 65536) % 256) as u8,
        ((x / 16777216) % 256) as u8,
    ]
}

/// The eight little-endian bytes of a 64-bit value.
pub open spec fn le64(x: nat) -> Seq<u8> {
    le32(x % 4294967296) + le32(x / 4294967296)
}

/// The shared container header: sample rate, channel count, source bit
/// depth (32-bit little endian each), then the sample count (64-bit).
pub open spec fn header_of(rate: nat, channels: nat, bit_depth: nat, count: nat) -> Seq<u8> {
    le32(rate) + le32(channels) + le32(bit_depth) + le64(count)
}

/// Whether a sample fits the 16-bit depth both containers carry.
pub open spec fn sample_in_range(s: int) -> bool {
    -32768 <= s <= 32767
}

/// A 16-bit sample in offset binary: `0` maps to `32768`.
pub open spec fn sample_word(s: int) -> nat {
    (s + 32768) as nat
}

/// The two little-endian body bytes of one lossless sample.
pub open spec fn lossless_sample(s: int) -> Seq<u8> {
    seq![(sample_word(s) % 256) as u8, (sample_word(s) / 256) as u8]
}

/// The lossless body: every sample, two bytes each, in order.
pub open spec fn lossless_bytes(samples: Seq<i32>) -> Seq<u8>
    decreases samples.len(),
{
    if samples.len() == 0 {
        Seq::empty()
    } else {
        lossless_bytes(samples.drop_last()) + lossless_sample(samples.last() as int)
    }
}

/// The one body byte of one lossy sample: the top byte of its offset-binary
/// word, so the low eight bits are dropped.
pub open spec fn lossy_sample(s: int) -> u8 {
    (sample_word(s) / 256) as u8
}

/// The lossy body: every sample quantized to one byte, in order.
pub open spec fn lossy_bytes(samples: Seq<i32>) -> Seq<u8>
    decreases samples.len(),
{
    if samples.len() == 0 {
        Seq::empty()
    } else {
        lossy_bytes(samples.drop_last()).push(lossy_sample(samples.last() as int))
    }
}

/// The full container for a sample buffer: the header, then the body of
/// the selected format.
pub open spec fn encoding_of(
    samples: Seq<i32>,
    rate: nat,
    channels: nat,
    bit_depth: nat,
    format: Format,
) -> Seq<u8> {
    header_of(rate, channels, bit_depth, samples.len()) + match format {
        Format::Flac => lossless_bytes(samples),
        Format::Mp3 => lossy_bytes(samples),
    }
}

/// The sample a pair of lossless body bytes stands for.
pub open spec fn lossless_sample_value(low: u8, high: u8) -> int {
    low + 256 * high - 32768
}

/// What a lossless body means: the samples its byte pairs stand for, in
/// order (only meaningful for bodies of even length).
pub open spec fn decoded_lossless(body: Seq<u8>) -> Seq<int>
    decreases body.len(),
{
    if body.len() < 2 {
        Seq::empty()
    } else {
        decoded_lossless(body.take(body.len() - 2)).push(
            lossless_sample_value(body[body.len() - 2], body[body.len() - 1]),
        )
    }
}

/// The lossless container deserves its name: decoding the body of an
/// encoded buffer gives back exactly the samples that were encoded, for
/// every buffer whose samples fit the 16-bit depth.
pub proof fn lemma_lossless_round_trip(samples: Seq<i32>)
    requires
        forall|k: int| 0 <= k < samples.len() ==> sample_in_range(#[trigger] samples[k] as int),
    ensures
        decoded_lossless(lossless_bytes(samples)) == samples.map_values(|s: i32| s as int),
    decreases samples.len(),
{
    let body = lossless_bytes(samples);
    let values = samples.map_values(|s: i32| s as int);
    if samples.len() == 0 {
        assert(decoded_lossless(body) =~= values);
    } else {
        let rest = samples.drop_last();
        assert(forall|k: int|
            0 <= k < rest.len() ==> sample_in_range(#[trigger] rest[k] as int));
        lemma_lossless_round_trip(rest);
        let rest_body = lossless_bytes(rest);
        assert(body == rest_body + lossless_sample(samples.last() as int));
        assert(body.len() == rest_body.len() + 2);
        assert(body.take(body.len() - 2) =~= rest_body);
        let word = sample_word(samples.last() as int);
        assert(body[body.len() - 2] == (word % 256) as u8);
        assert(body[body.len() - 1] == (word / 256) as u8);
        assert(lossless_sample_value((word % 256) as u8, (word / 256) as u8)
            == samples.last() as int);
        assert(decoded_lossless(body) =~= values);
    }
}

/// Pushes the four little-endian bytes of `x`.
fn push_le32(data: &mut Vec<u8>, x: u32)
    ensures
        final(data)@ == old(data)@ + le32(x as nat),
{
    let ghost prev = data@;
    data.push((x % 256) as u8);
    data.push(((x / 256) % 256) as u8);
    data.push(((x / 65536) % 256) as u8);
    data.push(((x / 16777216) % 256) as u8);
    proof {
        assert(data@ =~= prev + le32(x as nat));
    }
}

/// Pushes the eight little-endian bytes of `x`.
fn push_le64(data: &mut Vec<u8>, x: u64)
    ensures
        final(data)@ == old(data)@ + le64(x as nat),
{
    let ghost prev = data@;
    push_le32(data, (x % 4294967296) as u32);
    push_le32(data, (x / 4294967296) as u32);
    proof {
        assert(data@ =~= prev + le64(x as nat));
    }
}

/// Encodes a complete sample buffer into the selected container format.
/// Succeeds exactly when every sample fits the 16-bit depth; a buffer with
/// an out-of-depth sample is an encoding failure.
pub fn encode(format: Format, samples: &Samples) -> (r: Result<EncodedStream, TrackError>)
    ensures
        r is Ok <==> (forall|k: int|
            0 <= k < samples.samples@.len() ==> sample_in_range(samples.samples@[k] as int)),
        r matches Ok(stream) ==> stream.data@ == encoding_of(
            samples.samples@,
            samples.sample_rate as nat,
            samples.channels as nat,
            samples.bit_depth as nat,
            format,
        ),
        r matches Err(e) ==> e == TrackError::EncodeError,
{
    let buf = &samples.samples;
    let n = buf.len();
    let mut i: usize = 0;
    while i < n
        invariant
            i <= n,
            n == buf@.len(),
            buf@ == samples.samples@,
            forall|k: int| 0 <= k < i ==> sample_in_range(buf@[k] as int),
        decreases n - i,
    {
        let s = buf[i];
        if s < -32768 || s > 32767 {
            proof {
                assert(!(forall|k: int|
                    0 <= k < samples.samples@.len() ==> sample_in_range(
                        samples.samples@[k] as int,
                    ))) by {
                    assert(!sample_in_range(samples.samples@[i as int] as int));
                }
            }
            return Err(TrackError::EncodeError);
        }
        i = i + 1;
    }
    let mut data: Vec<u8> = Vec::new();
    push_le32(&mut data, samples.sample_rate);
    push_le32(&mut data, samples.channels);
    push_le32(&mut data, samples.bit_depth);
    push_le64(&mut data, n as u64);
    let ghost header = header_of(
        samples.sample_rate as nat,
        samples.channels as nat,
        samples.bit_depth as nat,
        buf@.len(),
    );
    proof {
        assert(data@ =~= header);
    }
    let mut j: usize = 0;
    match format {
        Format::Flac => {
            while j < n
                invariant
                    j <= n,
                    n == buf@.len(),
                    forall|k: int| 0 <= k < n ==> sample_in_range(buf@[k] as int),
                    data@ == header + lossless_bytes(buf@.take(j as int)),
                decreases n - j,
            {
                let ghost prev = data@;
                let word = (buf[j] + 32768) as u32;
                data.push((word % 256) as u8);
                data.push((word / 256) as u8);
                proof {
                    assert(buf@.take(j + 1).drop_last() =~= buf@.take(j as int));
                    assert(buf@.take(j + 1).last() == buf@[j as int]);
                    assert(data@ =~= header + lossless_bytes(buf@.take(j + 1)));
                }
                j = j + 1;
            }
        },
        Format::Mp3 => {
            while j < n
                invariant
                    j <= n,
                    n == buf@.len(),
                    forall|k: int| 0 <= k < n ==> sample_in_range(buf@[k] as int),
                    data@ == header + lossy_bytes(buf@.take(j as int)),
                decreases n - j,
            {
                let word = (buf[j] + 32768) as u32;
                data.push((word / 256) as u8);
                proof {
                    assert(buf@.take(j + 1).drop_last() =~= buf@.take(j as int));
                    assert(buf@.take(j + 1).last() == buf@[j as int]);
                    assert(data@ =~= header + lossy_bytes(buf@.take(j + 1)));
                }
                j = j + 1;
            }
        },
    }
    proof {
        assert(buf@.take(n as int) =~= buf@);
    }
    Ok(EncodedStream { data })
}

} // verus!
