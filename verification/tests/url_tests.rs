//! Tests for the fetch-URL builders and the "fetch full" operations of
//! the shortened reference records.

use deezer_metadata::album::{AlbumArtist, AlbumGenre, AlbumTrack, AlbumTrackArtist};
use deezer_metadata::artist::get_artist_api;
use deezer_metadata::chart::{ChartPlaylistUser, get_chart_api};
use deezer_metadata::editorial::get_editorial_api;
use deezer_metadata::genre::get_genre_api;
use deezer_metadata::info::get_info_api;
use deezer_metadata::options::get_options_api;
use deezer_metadata::playlist::{PlaylistTrackAlbum, get_playlist_api};
use deezer_metadata::radio::get_radio_api;
use deezer_metadata::track::{TrackAlbum, get_track_api};
use deezer_metadata::user::get_user_api;
use deezer_metadata::album::get_album_api;
use deezer_metadata::comment::get_comment_api;

#[test]
fn resource_urls_with_id() {
    assert_eq!(get_track_api(912486), "https://api.deezer.com/track/912486");
    assert_eq!(get_artist_api(27), "https://api.deezer.com/artist/27");
    assert_eq!(get_album_api(302127), "https://api.deezer.com/album/302127");
    assert_eq!(get_genre_api(0), "https://api.deezer.com/genre/0");
    assert_eq!(
        get_comment_api(4179157801),
        "https://api.deezer.com/comment/4179157801"
    );
    assert_eq!(get_user_api(12), "https://api.deezer.com/user/12");
    assert_eq!(
        get_playlist_api(908622995),
        "https://api.deezer.com/playlist/908622995"
    );
    assert_eq!(get_editorial_api(132), "https://api.deezer.com/editorial/132");
    assert_eq!(get_radio_api(6), "https://api.deezer.com/radio/6");
}

#[test]
fn singleton_resource_urls() {
    assert_eq!(get_chart_api(), "https://api.deezer.com/chart");
    assert_eq!(get_info_api(), "https://api.deezer.com/infos");
    assert_eq!(get_options_api(), "https://api.deezer.com/options");
}

#[test]
fn url_of_largest_id() {
    assert_eq!(
        get_track_api(u32::MAX),
        "https://api.deezer.com/track/4294967295"
    );
}

#[test]
fn get_full_matches_top_level_fetcher() {
    // A reference with id 27 fetches exactly what the top-level fetcher
    // for its resource type fetches for id 27.
    let reference = AlbumArtist {
        id: 27,
        name: String::from("Daft Punk"),
        picture: String::new(),
        picture_small: String::new(),
        picture_medium: String::new(),
        picture_big: String::new(),
        picture_xl: String::new(),
    };
    assert_eq!(reference.get_full(), get_artist_api(27));
    assert_eq!(reference.get_full(), "https://api.deezer.com/artist/27");
}

#[test]
fn get_full_of_nested_references() {
    let genre = AlbumGenre {
        id: 132,
        name: String::from("Pop"),
        picture: String::new(),
    };
    assert_eq!(genre.get_full(), get_genre_api(132));

    let track_album = TrackAlbum {
        id: 302127,
        title: String::from("Discovery"),
        link: String::new(),
        cover: String::new(),
        cover_small: String::new(),
        cover_medium: String::new(),
        cover_big: String::new(),
        cover_xl: String::new(),
        release_date: String::from("2001-03-07"),
    };
    assert_eq!(track_album.get_full(), get_album_api(302127));

    let playlist_album = PlaylistTrackAlbum {
        id: 103248,
        title: String::from("Random Access Memories"),
        cover: String::new(),
        cover_small: String::new(),
        cover_medium: String::new(),
        cover_big: String::new(),
        cover_xl: String::new(),
    };
    assert_eq!(playlist_album.get_full(), get_album_api(103248));

    let chart_user = ChartPlaylistUser {
        id: 12,
        name: String::from("someone"),
    };
    assert_eq!(chart_user.get_full(), get_user_api(12));

    let album_track = AlbumTrack {
        id: 912486,
        readable: true,
        title: String::from("Harder, Better, Faster, Stronger"),
        title_short: String::from("Harder, Better, Faster, Stronger"),
        title_version: String::new(),
        link: String::new(),
        duration_in_seconds: 224,
        rank: 956167,
        explicit_lyrics: false,
        preview: String::new(),
        artist: AlbumTrackArtist {
            id: 27,
            name: String::from("Daft Punk"),
            tracklist: String::new(),
        },
    };
    assert_eq!(album_track.get_full(), get_track_api(912486));
    assert_eq!(album_track.artist.get_full(), get_artist_api(27));
}
