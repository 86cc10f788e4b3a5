//! Composition of file and folder names: artists joined and truncated,
//! title, and the base-62 id suffix, all sanitized.
use vstd::prelude::*;

use crate::base62::base62_of;
use crate::base62::to_base62;
use crate::sanitize::clean_file_name;
use crate::sanitize::clean_of;
use crate::track::Track;
use crate::track::TrackMetadata;

verus! {

/// `parts` joined with `sep` between consecutive parts.
pub open spec fn join_with(parts: Seq<Seq<char>>, sep: Seq<char>) -> Seq<char>
    decreases parts.len(),
{
    if parts.len() == 0 {
        Seq::empty()
    } else if parts.len() == 1 {
        parts[0]
    } else {
        join_with(parts.drop_last(), sep) + sep + parts.last()
    }
}

/// The artist part of a track's file name: every artist name when there
/// are at most three, and only the first three, marked `, and others`,
/// otherwise.
pub open spec fn track_artists_of(artists: Seq<Seq<char>>) -> Seq<char> {
    if artists.len() > 3 {
        join_with(artists.take(3), ", "@) + ", and others"@
    } else {
        join_with(artists, ", "@)
    }
}

/// A track's file name before sanitization:
/// `<artists> - <title> - <short id>`.
pub open spec fn track_file_name_raw(
    artists: Seq<Seq<char>>,
    title: Seq<char>,
    id: Seq<char>,
) -> Seq<char> {
    track_artists_of(artists) + " - "@ + title + " - "@ + id
}

/// A track's file name: the raw composition, sanitized.
pub open spec fn track_file_name(
    artists: Seq<Seq<char>>,
    title: Seq<char>,
    id: Seq<char>,
    ascii_only: bool,
) -> Seq<char> {
    clean_of(track_file_name_raw(artists, title, id), ascii_only)
}

/// The artist part of an album's folder name. It differs deliberately from
/// the track rule: the truncation marker is `and others...`, with an
/// ellipsis and no comma of its own.
pub open spec fn album_artists_of(artists: Seq<Seq<char>>) -> Seq<char> {
    if artists.len() > 3 {
        join_with(artists.take(3), ", "@) + ", and others..."@
    } else {
        join_with(artists, ", "@)
    }
}

/// An album's folder name: `<artists> - <album title> - <base-62 id>`,
/// sanitized.
pub open spec fn album_name_of(
    artists: Seq<Seq<char>>,
    title: Seq<char>,
    id: nat,
    ascii_only: bool,
) -> Seq<char> {
    clean_of(album_artists_of(artists) + " - "@ + title + " - "@ + base62_of(id), ascii_only)
}

/// Joins the first `upto` of `names` with `, `.
fn join_artists(names: &Vec<String>, upto: usize) -> (s: String)
    requires
        upto <= names@.len(),
    ensures
        s@ == join_with(names.deep_view().take(upto as int), ", "@),
{
    let ghost dv = names.deep_view();
    let mut s = String::new();
    let mut i: usize = 0;
    proof {
        assert(join_with(dv.take(0), ", "@) =~= Seq::<char>::empty());
    }
    while i < upto
        invariant
            i <= upto,
            upto <= names@.len(),
            dv == names.deep_view(),
            s@ == join_with(dv.take(i as int), ", "@),
        decreases upto - i,
    {
        if i > 0 {
            s.append(", ");
        }
        s.append(names[i].as_str());
        proof {
            assert(dv[i as int] == names@[i as int]@);
            assert(dv.take(i + 1).drop_last() =~= dv.take(i as int));
            assert(dv.take(i + 1).last() == dv[i as int]);
            assert(s@ =~= join_with(dv.take(i + 1), ", "@));
        }
        i = i + 1;
    }
    s
}

/// Composes and sanitizes the file name of a track from its display data
/// and its short id suffix: `<artists> - <title> - <id>`, with at most
/// three artist names kept and `, and others` appended when more were
/// given.
pub fn compose_file_name(
    artist_names: &Vec<String>,
    title: &str,
    id: &str,
    ascii_only: bool,
) -> (name: String)
    ensures
        name@ == track_file_name(artist_names.deep_view(), title@, id@, ascii_only),
{
    let ghost dv = artist_names.deep_view();
    let n = artist_names.len();
    let mut raw: String;
    if n > 3 {
        raw = join_artists(artist_names, 3);
        raw.append(", and others");
    } else {
        raw = join_artists(artist_names, n);
        proof {
            assert(dv.take(n as int) =~= dv);
        }
    }
    raw.append(" - ");
    raw.append(title);
    raw.append(" - ");
    raw.append(id);
    clean_file_name(raw.as_str(), ascii_only)
}

/// Derives the sanitized file name of a track, the short id suffix being
/// the canonical base-62 form of its remote id.
pub fn get_file_name(track: &Track, metadata: &TrackMetadata, ascii_only: bool) -> (name: String)
    ensures
        name@ == track_file_name(
            metadata.artist_names.deep_view(),
            metadata.track_name@,
            base62_of(track.id as nat),
            ascii_only,
        ),
{
    let base62_id = to_base62(track.id);
    compose_file_name(
        &metadata.artist_names,
        metadata.track_name.as_str(),
        base62_id.as_str(),
        ascii_only,
    )
}

/// Derives the folder name of a playlist: its display name, sanitized.
/// Unlike an album's folder, a playlist's folder carries no creator and no
/// id: files nest directly under the playlist's name.
pub fn playlist_name(name: &str, ascii_only: bool) -> (folder: String)
    ensures
        folder@ == clean_of(name@, ascii_only),
{
    clean_file_name(name, ascii_only)
}

/// Derives the sanitized folder name of an album:
/// `<artists> - <album title> - <base-62 id>`, with at most three artist
/// names kept and `, and others...` appended when more were given.
pub fn album_name(artist_names: &Vec<String>, title: &str, id: u128, ascii_only: bool) -> (folder:
    String)
    ensures
        folder@ == album_name_of(artist_names.deep_view(), title@, id as nat, ascii_only),
{
    let ghost dv = artist_names.deep_view();
    let base62_id = to_base62(id);
    let n = artist_names.len();
    let mut raw: String;
    if n > 3 {
        raw = join_artists(artist_names, 3);
        raw.append(", and others...");
    } else {
        raw = join_artists(artist_names, n);
        proof {
            assert(dv.take(n as int) =~= dv);
        }
    }
    raw.append(" - ");
    raw.append(title);
    raw.append(" - ");
    raw.append(base62_id.as_str());
    clean_file_name(raw.as_str(), ascii_only)
}

} // verus!
