//! Tests for decoding album documents, including the `genre_id`
//! sentinel normalization and the recursive alternative album.

use deezer_metadata::DecodeError;
use deezer_metadata::album::Album;

/// An album document with the given id and raw `genre_id`, and an
/// optional `alternative` object spliced in verbatim.
fn album_json(id: u32, genre_id: i64, alternative: Option<&str>) -> String {
    let alternative_field = match alternative {
        Some(a) => format!("\"alternative\": {},", a),
        None => String::new(),
    };
    format!(
        r#"{{
        "id": {id},
        "title": "Discovery",
        "upc": "724384960650",
        "link": "https://www.deezer.com/album/302127",
        "share": "https://www.deezer.com/album/302127?utm_source=deezer",
        "cover": "c",
        "cover_small": "cs",
        "cover_medium": "cm",
        "cover_big": "cb",
        "cover_xl": "cx",
        "genre_id": {genre_id},
        "genres": {{"data": [
            {{"id": 113, "name": "Dance", "picture": "gp"}},
            {{"id": 106, "name": "Electro", "picture": "gp2"}}
        ]}},
        "label": "Parlophone (France)",
        "nb_tracks": 14,
        "duration": 3660,
        "fans": 132490,
        "rating": 0,
        "release_date": "2001-03-07",
        "record_type": "album",
        "available": true,
        {alternative_field}
        "tracklist": "https://api.deezer.com/album/302127/tracks",
        "explicit_lyrics": false,
        "contributors": [{{
            "id": 27,
            "name": "Daft Punk",
            "link": "https://www.deezer.com/artist/27",
            "share": "https://www.deezer.com/artist/27?utm_source=deezer",
            "picture_small": "ps",
            "picture_medium": "pm",
            "picture_big": "pb",
            "picture_xl": "px",
            "radio": true,
            "tracklist": "https://api.deezer.com/artist/27/top?limit=50"
        }}],
        "artist": {{
            "id": 27,
            "name": "Daft Punk",
            "picture": "p",
            "picture_small": "ps",
            "picture_medium": "pm",
            "picture_big": "pb",
            "picture_xl": "px"
        }},
        "tracks": {{"data": [
            {{
                "id": 912486,
                "readable": true,
                "title": "Harder, Better, Faster, Stronger",
                "title_short": "Harder, Better, Faster, Stronger",
                "title_version": "",
                "link": "https://www.deezer.com/track/912486",
                "duration": 224,
                "rank": 956167,
                "explicit_lyrics": false,
                "preview": "pv",
                "artist": {{"id": 27, "name": "Daft Punk", "tracklist": "tl"}}
            }},
            {{"id": 912487, "malformed": true}}
        ]}}
    }}"#,
    )
}

#[test]
fn album_decodes_with_expected_fields() {
    let album = Album::new(&album_json(302127, 113, None)).unwrap();
    assert_eq!(album.id, 302127);
    assert_eq!(album.title, "Discovery");
    assert_eq!(album.upc, "724384960650");
    assert_eq!(album.nb_tracks, 14);
    assert_eq!(album.duration_in_seconds, 3660);
    assert_eq!(album.fans, 132490);
    assert_eq!(album.record_type, "album");
    assert!(album.available);
    assert!(!album.has_explicit_lyrics);
    assert_eq!(album.artist.id, 27);
    assert_eq!(album.contributors.len(), 1);
    assert_eq!(album.alternative_album, None);
}

#[test]
fn album_genre_id_sentinel_becomes_absent() {
    // The remote system sends -1 for "no primary genre"; the record holds
    // an explicit absent value.
    let album = Album::new(&album_json(302127, -1, None)).unwrap();
    assert_eq!(album.genre_id, None);
}

#[test]
fn album_genre_id_value_is_kept() {
    let album = Album::new(&album_json(302127, 5, None)).unwrap();
    assert_eq!(album.genre_id, Some(5));
}

#[test]
fn album_genre_envelope_is_decoded_in_order() {
    let album = Album::new(&album_json(302127, 113, None)).unwrap();
    assert_eq!(album.genres.len(), 2);
    assert_eq!(album.genres[0].id, 113);
    assert_eq!(album.genres[0].name, "Dance");
    assert_eq!(album.genres[1].id, 106);
    assert_eq!(album.genres[1].name, "Electro");
}

#[test]
fn album_tracks_envelope_is_lenient() {
    // The second track entry is malformed, so it is skipped rather than
    // failing the album.
    let album = Album::new(&album_json(302127, 113, None)).unwrap();
    assert_eq!(album.tracks.len(), 1);
    assert_eq!(album.tracks[0].id, 912486);
    assert_eq!(album.tracks[0].artist.id, 27);
}

#[test]
fn album_alternative_album_decodes_recursively() {
    let alternative = album_json(302128, -1, None);
    let album = Album::new(&album_json(302127, -1, Some(&alternative))).unwrap();
    // The sentinel is a post-decode fix on the top-level record only: the
    // nested alternative album keeps its genre id exactly as decoded.
    assert_eq!(album.genre_id, None);
    let alternative_album = album.alternative_album.expect("alternative album present");
    assert_eq!(alternative_album.id, 302128);
    assert_eq!(alternative_album.genre_id, Some(-1));
    assert_eq!(alternative_album.alternative_album, None);
}

#[test]
fn album_alternative_null_is_absent() {
    let album = Album::new(&album_json(302127, 113, Some("null"))).unwrap();
    assert_eq!(album.alternative_album, None);
}

#[test]
fn album_decoded_twice_is_structurally_equal() {
    // Decoding is deterministic and side-effect-free on the record.
    let text = album_json(302127, 113, None);
    let first = Album::new(&text).unwrap();
    let second = Album::new(&text).unwrap();
    assert_eq!(first, second);
}

#[test]
fn album_missing_required_field_is_a_structure_error() {
    let json = album_json(302127, 113, None).replace("\"upc\": \"724384960650\",", "");
    assert_eq!(Album::new(&json), Err(DecodeError::Structure));
}

#[test]
fn album_invalid_json_is_a_syntax_error() {
    assert_eq!(Album::new(""), Err(DecodeError::Syntax));
}
