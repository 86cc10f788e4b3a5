use spotify_downloader::channel_sink::SinkEvent;
use spotify_downloader::download::DownloadOptions;
use spotify_downloader::encoder::Format;
use spotify_downloader::phase::Phase;
use spotify_downloader::pipeline::resolve_output_path;
use spotify_downloader::pipeline::TrackPipeline;
use spotify_downloader::track::AlbumInfo;
use spotify_downloader::track::PlaylistInfo;
use spotify_downloader::track::Track;
use spotify_downloader::track::TrackMetadata;

fn simple_metadata() -> TrackMetadata {
    TrackMetadata {
        track_name: "T".to_string(),
        artist_names: vec!["A".to_string()],
        duration_ms: 1000,
    }
}

fn flac_options(destination: &str) -> DownloadOptions {
    DownloadOptions::new(destination, None, 5, Format::Flac)
}

#[test]
fn playlist_track_nests_under_the_playlist_name() {
    let track = Track { id: 0, playlist_id: Some(7), album_id: None };
    let playlist = PlaylistInfo { name: "My Mix".to_string(), creator: "me".to_string() };
    let pipeline = TrackPipeline::new(
        &track,
        &simple_metadata(),
        Some(&playlist),
        None,
        &flac_options("D"),
        false,
    );
    assert_eq!(pipeline.file_name, "A - T - 0000000000000000000000");
    assert_eq!(pipeline.path, "D/My Mix/A - T - 0000000000000000000000.flac");
}

#[test]
fn album_track_nests_under_the_album_folder() {
    let track = Track { id: 1, playlist_id: None, album_id: Some(5) };
    let album = AlbumInfo { name: "Alb".to_string(), artist_names: vec!["X".to_string()] };
    let pipeline = TrackPipeline::new(
        &track,
        &simple_metadata(),
        None,
        Some(&album),
        &flac_options("/music"),
        false,
    );
    assert_eq!(
        pipeline.path,
        "/music/X - Alb - 0000000000000000000005/A - T - 0000000000000000000001.flac"
    );
}

#[test]
fn standalone_track_sits_directly_under_the_destination() {
    let track = Track { id: 0, playlist_id: None, album_id: None };
    let pipeline = TrackPipeline::new(
        &track,
        &simple_metadata(),
        None,
        None,
        &DownloadOptions::new("D", None, 5, Format::Mp3),
        false,
    );
    assert_eq!(pipeline.path, "D/A - T - 0000000000000000000000.mp3");
}

#[test]
fn output_path_joins_all_parts() {
    let folder = Some("F".to_string());
    assert_eq!(resolve_output_path("D", folder.as_ref(), "name", "flac"), "D/F/name.flac");
    assert_eq!(resolve_output_path("D", None, "name", "mp3"), "D/name.mp3");
}

#[test]
fn pipeline_walks_the_four_phases_in_order() {
    let track = Track { id: 0, playlist_id: None, album_id: None };
    let mut pipeline =
        TrackPipeline::new(&track, &simple_metadata(), None, None, &flac_options("D"), false);
    assert!(matches!(
        pipeline.phase,
        Phase::Downloading { downloaded_bytes: 0, total_bytes: 0, .. }
    ));
    assert!(!pipeline.stop);

    let finished = pipeline.on_sink_event(SinkEvent::Write {
        bytes: 4,
        total: 176400,
        content: vec![1, 2],
    });
    assert!(!finished);
    assert!(matches!(
        pipeline.phase,
        Phase::Downloading { downloaded_bytes: 4, total_bytes: 176400, .. }
    ));

    let finished = pipeline.on_sink_event(SinkEvent::Write {
        bytes: 8,
        total: 176400,
        content: vec![3, 4],
    });
    assert!(!finished);
    assert_eq!(pipeline.samples, vec![1, 2, 3, 4]);

    let finished = pipeline.on_sink_event(SinkEvent::Finished);
    assert!(finished);

    pipeline.begin_encoding();
    assert!(matches!(pipeline.phase, Phase::Encoding { .. }));
    assert!(!pipeline.stop);

    let stream = pipeline.encode_samples().unwrap();
    assert_eq!(stream.data.len(), 20 + 2 * 4);

    pipeline.begin_writing();
    assert!(matches!(pipeline.phase, Phase::Writing { .. }));
    assert!(!pipeline.stop);

    pipeline.finish();
    assert!(matches!(pipeline.phase, Phase::Downloaded { .. }));
    // the stop flag turns on together with the terminal phase
    assert!(pipeline.stop);
}

#[test]
fn poller_reports_the_phase_and_the_stop_flag() {
    let track = Track { id: 0, playlist_id: None, album_id: None };
    let metadata = TrackMetadata {
        track_name: "T".to_string(),
        artist_names: vec!["A".to_string()],
        duration_ms: 10,
    };
    let mut pipeline =
        TrackPipeline::new(&track, &metadata, None, None, &flac_options("D"), false);
    let (message, stop) = pipeline.poll_step();
    assert_eq!(
        message,
        "{\"Downloading\":{\"file_name\":\"A - T - 0000000000000000000000\",\
         \"downloaded_bytes\":0,\"total_bytes\":0}}"
    );
    assert!(!stop);

    pipeline.on_sink_event(SinkEvent::Finished);
    pipeline.begin_encoding();
    let (message, stop) = pipeline.poll_step();
    assert_eq!(
        message,
        "{\"Encoding\":{\"file_name\":\"A - T - 0000000000000000000000\"}}"
    );
    assert!(!stop);

    pipeline.begin_writing();
    pipeline.finish();
    let (message, stop) = pipeline.poll_step();
    assert_eq!(
        message,
        "{\"Downloaded\":{\"file_name\":\"A - T - 0000000000000000000000\"}}"
    );
    assert!(stop);
}

#[test]
fn encoding_failure_is_fatal_to_the_track_only() {
    let track = Track { id: 0, playlist_id: None, album_id: None };
    let mut pipeline =
        TrackPipeline::new(&track, &simple_metadata(), None, None, &flac_options("D"), false);
    pipeline.on_sink_event(SinkEvent::Write { bytes: 2, total: 0, content: vec![100000] });
    pipeline.on_sink_event(SinkEvent::Finished);
    pipeline.begin_encoding();
    assert!(pipeline.encode_samples().is_err());
}
