use spotify_downloader::encoder::encode;
use spotify_downloader::encoder::Format;
use spotify_downloader::encoder::Samples;
use spotify_downloader::errors::TrackError;

#[test]
fn format_extensions() {
    assert_eq!(Format::Flac.extension(), "flac");
    assert_eq!(Format::Mp3.extension(), "mp3");
}

#[test]
fn format_from_name_recognizes_the_two_formats() {
    assert_eq!(Format::from_name("mp3"), Some(Format::Mp3));
    assert_eq!(Format::from_name("flac"), Some(Format::Flac));
    assert_eq!(Format::from_name("ogg"), None);
    assert_eq!(Format::from_name(""), None);
    assert_eq!(Format::from_name("mp"), None);
    assert_eq!(Format::from_name("flacc"), None);
}

#[test]
fn lossless_encoding_exact_bytes() {
    let samples = Samples::new(vec![0, -1, 32767, -32768], 44100, 2, 16);
    let stream = encode(Format::Flac, &samples).unwrap();
    let mut expected: Vec<u8> = Vec::new();
    // header: rate, channels, bit depth (32-bit LE each), count (64-bit LE)
    expected.extend_from_slice(&[0x44, 0xAC, 0, 0]);
    expected.extend_from_slice(&[2, 0, 0, 0]);
    expected.extend_from_slice(&[16, 0, 0, 0]);
    expected.extend_from_slice(&[4, 0, 0, 0, 0, 0, 0, 0]);
    // body: each sample + 32768 as a 16-bit little-endian word
    expected.extend_from_slice(&[0x00, 0x80]); // 0      -> 32768
    expected.extend_from_slice(&[0xFF, 0x7F]); // -1     -> 32767
    expected.extend_from_slice(&[0xFF, 0xFF]); // 32767  -> 65535
    expected.extend_from_slice(&[0x00, 0x00]); // -32768 -> 0
    assert_eq!(stream.data, expected);
}

#[test]
fn lossy_encoding_exact_bytes() {
    let samples = Samples::new(vec![0, -1, 32767, -32768], 44100, 2, 16);
    let stream = encode(Format::Mp3, &samples).unwrap();
    let mut expected: Vec<u8> = Vec::new();
    expected.extend_from_slice(&[0x44, 0xAC, 0, 0]);
    expected.extend_from_slice(&[2, 0, 0, 0]);
    expected.extend_from_slice(&[16, 0, 0, 0]);
    expected.extend_from_slice(&[4, 0, 0, 0, 0, 0, 0, 0]);
    // body: the top byte of each sample's offset-binary word
    expected.extend_from_slice(&[128, 127, 255, 0]);
    assert_eq!(stream.data, expected);
}

#[test]
fn encoding_an_empty_buffer_gives_just_the_header() {
    let samples = Samples::new(vec![], 44100, 2, 16);
    let stream = encode(Format::Flac, &samples).unwrap();
    assert_eq!(stream.data.len(), 20);
    assert_eq!(&stream.data[12..20], &[0, 0, 0, 0, 0, 0, 0, 0]);
}

#[test]
fn out_of_depth_sample_is_an_encode_error() {
    let samples = Samples::new(vec![0, 40000], 44100, 2, 16);
    assert_eq!(encode(Format::Flac, &samples).unwrap_err(), TrackError::EncodeError);
    let samples = Samples::new(vec![-32769], 44100, 2, 16);
    assert_eq!(encode(Format::Mp3, &samples).unwrap_err(), TrackError::EncodeError);
}

#[test]
fn error_descriptions_name_each_stage() {
    assert_eq!(
        TrackError::MetadataError.describe(),
        "could not fetch the track's metadata"
    );
    assert_eq!(TrackError::PathError.describe(), "could not set the output path");
    assert_eq!(TrackError::PlaybackError.describe(), "the decode engine failed");
    assert_eq!(TrackError::EncodeError.describe(), "could not encode the track");
    assert_eq!(TrackError::WriteError.describe(), "could not write the output file");
}
