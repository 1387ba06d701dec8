//! Decode tests for the remaining resource records.

use deezer_metadata::DecodeError;
use deezer_metadata::artist::Artist;
use deezer_metadata::chart::Chart;
use deezer_metadata::comment::Comment;
use deezer_metadata::editorial::Editorial;
use deezer_metadata::genre::Genre;
use deezer_metadata::info::Info;
use deezer_metadata::options::Options;
use deezer_metadata::playlist::Playlist;
use deezer_metadata::radio::Radio;
use deezer_metadata::user::User;

#[test]
fn genre_decodes() {
    let genre = Genre::new(
        r#"{"id": 132, "name": "Pop", "picture": "p", "picture_small": "ps",
            "picture_medium": "pm", "picture_big": "pb", "picture_xl": "px"}"#,
    )
    .unwrap();
    assert_eq!(genre.id, 132);
    assert_eq!(genre.name, "Pop");
    assert_eq!(genre.picture_xl, "px");
}

#[test]
fn genre_decoded_twice_is_structurally_equal() {
    let text = r#"{"id": 132, "name": "Pop", "picture": "p", "picture_small": "ps",
        "picture_medium": "pm", "picture_big": "pb", "picture_xl": "px"}"#;
    assert_eq!(Genre::new(text).unwrap(), Genre::new(text).unwrap());
}

#[test]
fn artist_decodes() {
    let artist = Artist::new(
        r#"{"id": 27, "name": "Daft Punk", "link": "l", "share": "s",
            "picture": "p", "picture_small": "ps", "picture_medium": "pm",
            "picture_big": "pb", "picture_xl": "px", "nb_album": 21,
            "nb_fan": 3276543, "radio": true, "tracklist": "tl"}"#,
    )
    .unwrap();
    assert_eq!(artist.id, 27);
    assert_eq!(artist.name, "Daft Punk");
    assert_eq!(artist.nb_album, 21);
    assert_eq!(artist.nb_fan, 3276543);
    assert!(artist.has_radio);
    assert_eq!(artist.share_link, "s");
}

#[test]
fn artist_wrong_type_is_a_structure_error() {
    // nb_album must be a number in u32 range.
    let text = r#"{"id": 27, "name": "Daft Punk", "link": "l", "share": "s",
        "picture": "p", "picture_small": "ps", "picture_medium": "pm",
        "picture_big": "pb", "picture_xl": "px", "nb_album": -3,
        "nb_fan": 1, "radio": true, "tracklist": "tl"}"#;
    assert_eq!(Artist::new(text), Err(DecodeError::Structure));
}

#[test]
fn user_decodes_with_defaults_for_missing_fields() {
    let user = User::new(
        r#"{"id": 12, "name": "someone", "link": "l", "picture": "p",
            "picture_small": "ps", "picture_medium": "pm", "picture_big": "pb",
            "picture_xl": "px", "country": "AT", "tracklist": "tl"}"#,
    )
    .unwrap();
    assert_eq!(user.id, 12);
    assert_eq!(user.name, "someone");
    assert_eq!(user.last_name, "");
    assert_eq!(user.first_name, "");
    assert_eq!(user.email, "");
    assert_eq!(user.status, 0);
    assert_eq!(user.birthday, "");
    assert_eq!(user.gender, "");
    assert_eq!(user.lang, "");
    assert!(!user.is_kid);
    assert_eq!(user.country, "AT");
}

#[test]
fn user_given_optional_fields_are_kept() {
    let user = User::new(
        r#"{"id": 12, "name": "someone", "lastname": "Doe", "firstname": "Jo",
            "email": "jo@example.com", "status": 2, "birthday": "1990-01-01",
            "inscription_date": "2010-05-01", "gender": "F", "link": "l",
            "picture": "p", "picture_small": "ps", "picture_medium": "pm",
            "picture_big": "pb", "picture_xl": "px", "country": "AT",
            "lang": "de", "is_kid": false, "tracklist": "tl"}"#,
    )
    .unwrap();
    assert_eq!(user.last_name, "Doe");
    assert_eq!(user.first_name, "Jo");
    assert_eq!(user.status, 2);
    assert_eq!(user.lang, "de");
}

#[test]
fn artist_count_above_u32_range_is_a_structure_error() {
    let text = r#"{"id": 27, "name": "Daft Punk", "link": "l", "share": "s",
        "picture": "p", "picture_small": "ps", "picture_medium": "pm",
        "picture_big": "pb", "picture_xl": "px", "nb_album": 4294967296,
        "nb_fan": 1, "radio": true, "tracklist": "tl"}"#;
    assert_eq!(Artist::new(text), Err(DecodeError::Structure));
}

#[test]
fn artist_fractional_count_is_a_structure_error() {
    let text = r#"{"id": 27, "name": "Daft Punk", "link": "l", "share": "s",
        "picture": "p", "picture_small": "ps", "picture_medium": "pm",
        "picture_big": "pb", "picture_xl": "px", "nb_album": 2.5,
        "nb_fan": 1, "radio": true, "tracklist": "tl"}"#;
    assert_eq!(Artist::new(text), Err(DecodeError::Structure));
}

#[test]
fn editorial_decodes() {
    let editorial = Editorial::new(
        r#"{"id": 0, "name": "All", "picture": "p", "picture_small": "ps",
            "picture_medium": "pm", "picture_big": "pb", "picture_xl": "px"}"#,
    )
    .unwrap();
    assert_eq!(editorial.id, 0);
    assert_eq!(editorial.name, "All");
}

#[test]
fn radio_decodes() {
    let radio = Radio::new(
        r#"{"id": 6, "title": "Pop", "description": "d", "share": "s",
            "picture": "p", "picture_small": "ps", "picture_medium": "pm",
            "picture_big": "pb", "picture_xl": "px", "tracklist": "tl"}"#,
    )
    .unwrap();
    assert_eq!(radio.id, 6);
    assert_eq!(radio.title, "Pop");
    assert_eq!(radio.track_list, "tl");
}

#[test]
fn comment_decodes() {
    let comment = Comment::new(
        r#"{"id": 4179157801, "text": "great album", "date": 1428155097,
            "object": {"id": "302127", "type": "album"},
            "author": {"id": 12, "name": "someone", "link": "l",
                "picture": "p", "picture_small": "ps", "picture_medium": "pm",
                "picture_big": "pb", "picture_xl": "px"}}"#,
    )
    .unwrap();
    assert_eq!(comment.id, 4179157801);
    assert_eq!(comment.text, "great album");
    assert_eq!(comment.date, 1428155097);
    assert_eq!(comment.object.id, "302127");
    assert_eq!(comment.object.object_type, "album");
    assert_eq!(comment.author.id, 12);
}

#[test]
fn playlist_decodes() {
    let playlist = Playlist::new(
        r#"{"id": 908622995, "title": "my mix", "description": "d",
            "duration": 3600, "public": true, "is_loved_track": false,
            "collaborative": false, "nb_tracks": 1, "fans": 2, "link": "l",
            "share": "s", "picture": "p", "picture_small": "ps",
            "picture_medium": "pm", "picture_big": "pb", "picture_xl": "px",
            "checksum": "abc", "creator": {"id": 12, "name": "someone"},
            "tracks": {"data": [{
                "id": 912486, "readable": true, "title": "t",
                "title_short": "t", "title_version": "", "link": "l",
                "duration": 224, "rank": 1, "explicit_lyrics": false,
                "time_add": 1428155097,
                "artist": {"id": 27, "name": "Daft Punk", "link": "al"},
                "album": {"id": 302127, "title": "Discovery", "cover": "c",
                    "cover_small": "cs", "cover_medium": "cm",
                    "cover_big": "cb", "cover_xl": "cx"}
            }]}}"#,
    )
    .unwrap();
    assert_eq!(playlist.id, 908622995);
    assert_eq!(playlist.rating, None);
    assert_eq!(playlist.unseen_track_count, None);
    assert_eq!(playlist.creator.id, 12);
    assert_eq!(playlist.tracks.len(), 1);
    let track = &playlist.tracks[0];
    assert_eq!(track.id, 912486);
    assert!(!track.unseen);
    assert_eq!(track.preview_url, "");
    assert_eq!(track.added_on, 1428155097);
    assert_eq!(track.artist.id, 27);
    assert_eq!(track.album.id, 302127);
}

#[test]
fn info_decodes_with_bare_offers_array() {
    let info = Info::new(
        r#"{"country_iso": "AT", "country": "Austria", "open": true,
            "offers": [{"id": 1, "name": "Premium", "amount": "9.99",
                "currency": "EUR", "displayed_amount": "9,99 €", "tc": "",
                "tc_html": "", "tc_txt": "", "try_and_buy": 0}]}"#,
    )
    .unwrap();
    assert_eq!(info.country_iso, "AT");
    assert_eq!(info.country, "Austria");
    assert!(info.is_open);
    assert_eq!(info.offers.len(), 1);
    assert_eq!(info.offers[0].id, 1);
    assert_eq!(info.offers[0].name, "Premium");
    assert_eq!(info.offers[0].amount, "9.99");
}

#[test]
fn info_malformed_offer_is_a_structure_error() {
    // Offers decode strictly: one malformed entry fails the whole info.
    let text = r#"{"country_iso": "AT", "country": "Austria", "open": true,
        "offers": [{"id": 1}]}"#;
    assert_eq!(Info::new(text), Err(DecodeError::Structure));
}

#[test]
fn options_decodes() {
    let options = Options::new(
        r#"{"streaming": true, "streaming_duration": 30, "offline": false,
            "hq": false, "ads_display": true, "ads_audio": true,
            "too_many_devices": false, "can_subscribe": true,
            "radio_skips": 6, "lossless": false, "preview": true,
            "radio": true}"#,
    )
    .unwrap();
    assert!(options.streaming);
    assert_eq!(options.streaming_duration, 30);
    assert!(!options.has_too_many_devices);
    assert_eq!(options.radio_skips, 6);
}

fn canned_chart_json() -> &'static str {
    r#"{
        "tracks": {"data": [{
            "id": 912486, "title": "t", "title_short": "t",
            "title_version": "", "link": "l", "duration": 224, "rank": 1,
            "explicit_lyrics": false, "position": 1,
            "artist": {"id": 27, "name": "Daft Punk", "link": "al",
                "picture": "p", "picture_small": "ps", "picture_medium": "pm",
                "picture_big": "pb", "picture_xl": "px", "radio": true},
            "album": {"id": 302127, "title": "Discovery", "cover": "c",
                "cover_small": "cs", "cover_medium": "cm", "cover_big": "cb",
                "cover_xl": "cx"}
        }]},
        "albums": {"data": [{
            "id": 302127, "title": "Discovery", "cover": "c",
            "cover_small": "cs", "cover_medium": "cm", "cover_big": "cb",
            "cover_xl": "cx", "record_type": "album",
            "explicit_lyrics": false, "position": 1,
            "artist": {"id": 27, "name": "Daft Punk", "link": "al",
                "picture": "p", "picture_small": "ps", "picture_medium": "pm",
                "picture_big": "pb", "picture_xl": "px", "radio": true}
        }]},
        "artists": {"data": [{
            "id": 27, "name": "Daft Punk", "link": "al", "picture": "p",
            "picture_small": "ps", "picture_medium": "pm",
            "picture_big": "pb", "picture_xl": "px", "radio": true,
            "position": 1
        }]},
        "playlists": {"data": [{
            "id": 908622995, "title": "my mix", "public": true, "link": "l",
            "picture": "p", "picture_small": "ps", "picture_medium": "pm",
            "picture_big": "pb", "picture_xl": "px",
            "user": {"id": 12, "name": "someone"}
        }]}
    }"#
}

#[test]
fn chart_decodes() {
    let chart = Chart::new(canned_chart_json()).unwrap();
    assert_eq!(chart.tracks.len(), 1);
    assert_eq!(chart.tracks[0].id, 912486);
    assert_eq!(chart.tracks[0].artist.id, 27);
    assert_eq!(chart.tracks[0].album.id, 302127);
    assert_eq!(chart.albums.len(), 1);
    assert_eq!(chart.albums[0].artist.id, 27);
    assert_eq!(chart.artists.len(), 1);
    assert_eq!(chart.artists[0].position, 1);
    assert_eq!(chart.playlists.len(), 1);
    assert_eq!(chart.playlists[0].user.id, 12);
    // position is missing from the playlist entry, so it defaults.
    assert_eq!(chart.playlists[0].position, 0);
}

#[test]
fn chart_malformed_element_is_a_structure_error() {
    // Chart lists decode strictly: one malformed track fails the chart.
    let text = canned_chart_json().replace("\"id\": 912486,", "");
    assert_eq!(Chart::new(&text), Err(DecodeError::Structure));
}
