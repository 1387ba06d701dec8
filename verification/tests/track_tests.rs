//! Tests for decoding track documents, including the end-to-end canned
//! document for track id 912486.

use deezer_metadata::DecodeError;
use deezer_metadata::json::JsonNumber;
use deezer_metadata::track::Track;

fn canned_track_json() -> String {
    String::from(
        r#"{
        "id": 912486,
        "readable": true,
        "title": "Harder, Better, Faster, Stronger",
        "title_short": "Harder, Better, Faster, Stronger",
        "title_version": "",
        "isrc": "GBDUW0000059",
        "link": "https://www.deezer.com/track/912486",
        "share": "https://www.deezer.com/track/912486?utm_source=deezer",
        "duration": 224,
        "track_position": 4,
        "disk_number": 1,
        "rank": 956167,
        "release_date": "2001-03-07",
        "explicit_lyrics": false,
        "preview_url": "https://cdns-preview-d.dzcdn.net/stream/c-deda.mp3",
        "bpm": 123.4,
        "gain": -12,
        "available_countries": ["AT", "BE", "DE"],
        "contributors": [{
            "id": 27,
            "name": "Daft Punk",
            "link": "https://www.deezer.com/artist/27",
            "share": "https://www.deezer.com/artist/27?utm_source=deezer",
            "picture_small": "ps",
            "picture_medium": "pm",
            "picture_big": "pb",
            "picture_xl": "px",
            "radio": true,
            "tracklist": "https://api.deezer.com/artist/27/top?limit=50"
        }],
        "artist": {
            "id": 27,
            "name": "Daft Punk",
            "link": "https://www.deezer.com/artist/27",
            "share": "https://www.deezer.com/artist/27?utm_source=deezer",
            "picture": "p",
            "picture_small": "ps",
            "picture_medium": "pm",
            "picture_big": "pb",
            "picture_xl": "px",
            "radio": true,
            "tracklist": "https://api.deezer.com/artist/27/top?limit=50"
        },
        "album": {
            "id": 302127,
            "title": "Discovery",
            "link": "https://www.deezer.com/album/302127",
            "cover": "c",
            "cover_small": "cs",
            "cover_medium": "cm",
            "cover_big": "cb",
            "cover_xl": "cx",
            "release_date": "2001-03-07"
        }
    }"#,
    )
}

#[test]
fn track_end_to_end_canned_document() {
    // A canned document for track id 912486 with nested artist and album
    // objects decodes to a record with the expected ids, and all required
    // string and number fields populated.
    let track = Track::new(&canned_track_json()).unwrap();
    assert_eq!(track.id, 912486);
    assert_eq!(track.artist.id, 27);
    assert_eq!(track.album.id, 302127);
    assert_eq!(track.title, "Harder, Better, Faster, Stronger");
    assert_eq!(track.isrc, "GBDUW0000059");
    assert_eq!(track.duration_in_seconds, 224);
    assert_eq!(track.track_position_in_album, 4);
    assert_eq!(track.album_disk_number, 1);
    assert_eq!(track.rank, 956167);
    assert_eq!(track.release_date, "2001-03-07");
    assert!(!track.has_explicit_lyrics);
    assert!(track.readable);
    assert_eq!(track.unseen, None);
    assert_eq!(track.alternative_track_id, None);
    assert_eq!(
        track.preview_url.as_deref(),
        Some("https://cdns-preview-d.dzcdn.net/stream/c-deda.mp3")
    );
    assert_eq!(
        track.available_countries,
        vec![String::from("AT"), String::from("BE"), String::from("DE")]
    );
    assert_eq!(track.contributors.len(), 1);
    assert_eq!(track.contributors[0].id, 27);
    assert_eq!(track.artist.name, "Daft Punk");
    assert_eq!(track.album.title, "Discovery");
}

#[test]
fn track_number_fields_keep_their_wire_form() {
    let track = Track::new(&canned_track_json()).unwrap();
    assert_eq!(track.bpm, JsonNumber::Dec(String::from("123.4")));
    assert_eq!(track.gain, JsonNumber::Int(-12));
}

#[test]
fn track_decoded_twice_is_structurally_equal() {
    // Decoding is deterministic and side-effect-free on the record.
    let first = Track::new(&canned_track_json()).unwrap();
    let second = Track::new(&canned_track_json()).unwrap();
    assert_eq!(first, second);
}

#[test]
fn track_invalid_json_is_a_syntax_error() {
    assert_eq!(Track::new("{not json"), Err(DecodeError::Syntax));
}

#[test]
fn track_missing_required_field_is_a_structure_error() {
    // Without "isrc" the document is valid JSON of the wrong shape.
    let json = canned_track_json().replace("\"isrc\": \"GBDUW0000059\",", "");
    assert_eq!(Track::new(&json), Err(DecodeError::Structure));
}

#[test]
fn track_failing_contributor_fails_the_track() {
    // Plain (non-envelope) arrays decode strictly: a malformed element is
    // a terminal failure.
    let json = canned_track_json().replace("\"contributors\": [{", "\"contributors\": [{\"bad\": 1}, {");
    assert_eq!(Track::new(&json), Err(DecodeError::Structure));
}
