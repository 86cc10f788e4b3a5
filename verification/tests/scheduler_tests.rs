use spotify_downloader::download::BatchScheduler;
use spotify_downloader::download::DownloadOptions;
use spotify_downloader::encoder::Format;

#[test]
fn active_pipelines_never_exceed_the_bound() {
    let mut scheduler = BatchScheduler::new(5, 2);
    assert_eq!(scheduler.try_admit(), Some(0));
    assert_eq!(scheduler.try_admit(), Some(1));
    // the bound is reached: nothing more starts until a completion
    assert_eq!(scheduler.try_admit(), None);
    assert_eq!(scheduler.active, 2);
    scheduler.on_complete(true);
    assert_eq!(scheduler.try_admit(), Some(2));
    assert_eq!(scheduler.active, 2);
    assert_eq!(scheduler.try_admit(), None);
}

#[test]
fn a_failure_stops_all_further_admissions() {
    let mut scheduler = BatchScheduler::new(5, 2);
    assert_eq!(scheduler.try_admit(), Some(0));
    assert_eq!(scheduler.try_admit(), Some(1));
    scheduler.on_complete(false);
    // a slot is free and tracks are queued, but the failure is fatal
    assert_eq!(scheduler.try_admit(), None);
    assert!(scheduler.failed);
    assert!(!scheduler.is_done());
    // the pipeline still in flight may finish; its result is discarded
    scheduler.on_complete(true);
    assert!(scheduler.failed);
    assert!(scheduler.is_done());
    assert_eq!(scheduler.next, 2);
}

#[test]
fn a_successful_batch_admits_every_track() {
    let mut scheduler = BatchScheduler::new(3, 5);
    assert_eq!(scheduler.try_admit(), Some(0));
    assert_eq!(scheduler.try_admit(), Some(1));
    assert_eq!(scheduler.try_admit(), Some(2));
    // fewer tracks than slots: the queue, not the bound, stops admission
    assert_eq!(scheduler.try_admit(), None);
    assert!(!scheduler.is_done());
    scheduler.on_complete(true);
    scheduler.on_complete(true);
    assert!(!scheduler.is_done());
    scheduler.on_complete(true);
    assert!(scheduler.is_done());
    assert!(!scheduler.failed);
}

#[test]
fn options_defaults_are_five_parallel_and_compression_four() {
    let options = DownloadOptions::with_defaults("dest", None, None, Format::Flac);
    assert_eq!(options.parallel, 5);
    assert_eq!(options.compression, Some(4));
    assert_eq!(options.destination, "dest");
    assert_eq!(options.format, Format::Flac);
}

#[test]
fn options_explicit_values_are_kept() {
    let options = DownloadOptions::with_defaults("d", Some(9), Some(2), Format::Mp3);
    assert_eq!(options.parallel, 2);
    assert_eq!(options.compression, Some(9));
    assert_eq!(options.format, Format::Mp3);
}

#[test]
fn options_new_keeps_every_field() {
    let options = DownloadOptions::new("/music", None, 7, Format::Mp3);
    assert_eq!(options.destination, "/music");
    assert_eq!(options.compression, None);
    assert_eq!(options.parallel, 7);
    assert_eq!(options.format, Format::Mp3);
}
