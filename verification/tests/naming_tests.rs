use spotify_downloader::base62::to_base62;
use spotify_downloader::naming::album_name;
use spotify_downloader::naming::compose_file_name;
use spotify_downloader::naming::get_file_name;
use spotify_downloader::naming::playlist_name;
use spotify_downloader::sanitize::clean_file_name;
use spotify_downloader::track::Track;
use spotify_downloader::track::TrackMetadata;

fn names(list: &[&str]) -> Vec<String> {
    list.iter().map(|s| s.to_string()).collect()
}

#[test]
fn sanitize_strips_forbidden_characters() {
    let cleaned = clean_file_name("a<b>c:d'e\"f/g\\h|i?j*k", false);
    assert_eq!(cleaned, "abcdefghijk");
}

#[test]
fn sanitize_strips_control_characters() {
    let cleaned = clean_file_name("a\u{0007}b\u{007f}c\u{009f}d\ne", false);
    assert_eq!(cleaned, "abcde");
}

#[test]
fn sanitize_keeps_non_ascii_by_default() {
    let cleaned = clean_file_name("café – naïve", false);
    assert_eq!(cleaned, "café – naïve");
}

#[test]
fn sanitize_strips_non_ascii_when_asked() {
    let cleaned = clean_file_name("café – naïve", true);
    assert_eq!(cleaned, "caf  nave");
}

#[test]
fn sanitize_is_idempotent() {
    let once = clean_file_name("So<ng: \"Live\"/1995\u{0001}é", false);
    let twice = clean_file_name(&once, false);
    assert_eq!(twice, once);
    let once_ascii = clean_file_name("So<ng: \"Live\"/1995\u{0001}é", true);
    let twice_ascii = clean_file_name(&once_ascii, true);
    assert_eq!(twice_ascii, once_ascii);
}

#[test]
fn four_artists_keep_three_and_mark_others() {
    let name = compose_file_name(&names(&["A", "B", "C", "D"]), "T", "xyz", false);
    assert_eq!(name, "A, B, C, and others - T - xyz");
}

#[test]
fn three_artists_are_all_kept() {
    let name = compose_file_name(&names(&["A", "B", "C"]), "T", "xyz", false);
    assert_eq!(name, "A, B, C - T - xyz");
}

#[test]
fn single_artist_file_name() {
    let name = compose_file_name(&names(&["A"]), "T", "xyz", false);
    assert_eq!(name, "A - T - xyz");
}

#[test]
fn file_name_is_sanitized() {
    let name = compose_file_name(&names(&["A/B"]), "T:?", "xyz", false);
    assert_eq!(name, "AB - T - xyz");
}

#[test]
fn base62_of_zero_is_all_zero_digits() {
    assert_eq!(to_base62(0), "0000000000000000000000");
}

#[test]
fn base62_of_one() {
    assert_eq!(to_base62(1), "0000000000000000000001");
}

#[test]
fn base62_of_a_known_track_id() {
    // The canonical base-62 form of a real track id.
    let id: u128 = 238762092608182713602505436543891614649;
    assert_eq!(to_base62(id), "5sWHDYs0csV6RS48xBl0tH");
}

#[test]
fn base62_of_sixty_two() {
    assert_eq!(to_base62(62), "0000000000000000000010");
}

#[test]
fn get_file_name_appends_base62_id() {
    let track = Track { id: 1, playlist_id: None, album_id: None };
    let metadata = TrackMetadata {
        track_name: "T".to_string(),
        artist_names: names(&["A"]),
        duration_ms: 1000,
    };
    let name = get_file_name(&track, &metadata, false);
    assert_eq!(name, "A - T - 0000000000000000000001");
}

#[test]
fn playlist_folder_is_the_sanitized_display_name() {
    assert_eq!(playlist_name("My Mix", false), "My Mix");
    assert_eq!(playlist_name("My/Mix?", false), "MyMix");
}

#[test]
fn album_folder_composes_artists_title_and_id() {
    let folder = album_name(&names(&["A", "B"]), "Alb", 5, false);
    assert_eq!(folder, "A, B - Alb - 0000000000000000000005");
}

#[test]
fn album_folder_truncates_with_ellipsis_marker() {
    let folder = album_name(&names(&["A", "B", "C", "D", "E"]), "Alb", 5, false);
    assert_eq!(folder, "A, B, C, and others... - Alb - 0000000000000000000005");
}

#[test]
fn album_folder_with_no_artists() {
    let folder = album_name(&names(&[]), "Alb", 0, false);
    assert_eq!(folder, " - Alb - 0000000000000000000000");
}
