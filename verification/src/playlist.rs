//! The playlist resource: the [`Playlist`] record, its nested reference
//! records, and its fetch URL.

use vstd::prelude::*;

use crate::DecodeError;
use crate::envelope::{FromJson, views_of, s_field_envelope, spec_decode_lenient,
    decode_envelope_lenient};
use crate::json::{JsonValue, parsed_json, parse_json, s_get, s_str, s_u32, s_u64, s_bool,
    s_opt_u32, s_def_str, s_def_bool, get_entry, get_str, get_u32, get_u64, get_bool, get_opt_u32,
    get_def_str, get_def_bool};
use crate::spec_digits;
use crate::push_decimal;

verus! {

/// Shortened user reference embedded in a playlist.
/// [`PlaylistUser::get_full`] gives the URL of the full record.
#[derive(Debug, Clone, PartialEq)]
pub struct PlaylistUser {
    /// The user's id in the remote system.
    pub id: u32,
    /// The user's nickname.
    pub name: String,
}

/// Mathematical model of a [`PlaylistUser`].
pub struct PlaylistUserView {
    pub id: u32,
    pub name: Seq<char>,
}

impl View for PlaylistUser {
    type V = PlaylistUserView;

    open spec fn view(&self) -> PlaylistUserView {
        PlaylistUserView { id: self.id, name: self.name@ }
    }
}

/// The decode of `v` as a playlist's user reference, when it succeeds.
pub open spec fn spec_playlist_user(v: JsonValue) -> Option<PlaylistUserView> {
    if s_u32(v, "id"@) is None || s_str(v, "name"@) is None {
        None
    } else {
        Some(PlaylistUserView { id: s_u32(v, "id"@)->0, name: s_str(v, "name"@)->0 })
    }
}

impl PlaylistUser {
    /// Decodes a playlist's user reference from a JSON value.
    pub fn from_json(v: &JsonValue) -> (r: Option<PlaylistUser>)
        ensures
            r matches Some(u) ==> spec_playlist_user(*v) == Some(u@),
            r is None ==> spec_playlist_user(*v) is None,
    {
        let id = get_u32(v, "id")?;
        let name = get_str(v, "name")?;
        Some(PlaylistUser { id, name })
    }

    /// URL of the corresponding full [`crate::user::User`] record, as
    /// the top-level user fetcher would build it for this reference's
    /// id.
    pub fn get_full(&self) -> (r: String)
        ensures
            r@ == crate::user::spec_user_api(self.id),
    {
        crate::user::get_user_api(self.id)
    }
}

/// Shortened artist reference embedded in a playlist's track.
/// [`PlaylistTrackArtist::get_full`] gives the URL of the full record.
#[derive(Debug, Clone, PartialEq)]
pub struct PlaylistTrackArtist {
    /// The artist's id in the remote system.
    pub id: u32,
    /// The artist's name.
    pub name: String,
    /// The url of the artist page.
    pub link: String,
}

/// Mathematical model of a [`PlaylistTrackArtist`].
pub struct PlaylistTrackArtistView {
    pub id: u32,
    pub name: Seq<char>,
    pub link: Seq<char>,
}

impl View for PlaylistTrackArtist {
    type V = PlaylistTrackArtistView;

    open spec fn view(&self) -> PlaylistTrackArtistView {
        PlaylistTrackArtistView { id: self.id, name: self.name@, link: self.link@ }
    }
}

/// The decode of `v` as a playlist track's artist reference, when it
/// succeeds.
pub open spec fn spec_playlist_track_artist(v: JsonValue) -> Option<PlaylistTrackArtistView> {
    if s_u32(v, "id"@) is None || s_str(v, "name"@) is None || s_str(v, "link"@) is None {
        None
    } else {
        Some(
            PlaylistTrackArtistView {
                id: s_u32(v, "id"@)->0,
                name: s_str(v, "name"@)->0,
                link: s_str(v, "link"@)->0,
            },
        )
    }
}

impl PlaylistTrackArtist {
    /// Decodes a playlist track's artist reference from a JSON value.
    pub fn from_json(v: &JsonValue) -> (r: Option<PlaylistTrackArtist>)
        ensures
            r matches Some(a) ==> spec_playlist_track_artist(*v) == Some(a@),
            r is None ==> spec_playlist_track_artist(*v) is None,
    {
        let id = get_u32(v, "id")?;
        let name = get_str(v, "name")?;
        let link = get_str(v, "link")?;
        Some(PlaylistTrackArtist { id, name, link })
    }

    /// URL of the corresponding full [`crate::artist::Artist`] record,
    /// as the top-level artist fetcher would build it for this
    /// reference's id.
    pub fn get_full(&self) -> (r: String)
        ensures
            r@ == crate::artist::spec_artist_api(self.id),
    {
        crate::artist::get_artist_api(self.id)
    }
}

/// Shortened album reference embedded in a playlist's track.
/// [`PlaylistTrackAlbum::get_full`] gives the URL of the full record.
#[derive(Debug, Clone, PartialEq)]
pub struct PlaylistTrackAlbum {
    /// The album's id in the remote system.
    pub id: u32,
    /// The album title.
    pub title: String,
    /// The url of the album's cover.
    pub cover: String,
    /// The url of the album's cover in size small.
    pub cover_small: String,
    /// The url of the album's cover in size medium.
    pub cover_medium: String,
    /// The url of the album's cover in size big.
    pub cover_big: String,
    /// The url of the album's cover in size xl.
    pub cover_xl: String,
}

/// Mathematical model of a [`PlaylistTrackAlbum`].
pub struct PlaylistTrackAlbumView {
    pub id: u32,
    pub title: Seq<char>,
    pub cover: Seq<char>,
    pub cover_small: Seq<char>,
    pub cover_medium: Seq<char>,
    pub cover_big: Seq<char>,
    pub cover_xl: Seq<char>,
}

impl View for PlaylistTrackAlbum {
    type V = PlaylistTrackAlbumView;

    open spec fn view(&self) -> PlaylistTrackAlbumView {
        PlaylistTrackAlbumView {
            id: self.id,
            title: self.title@,
            cover: self.cover@,
            cover_small: self.cover_small@,
            cover_medium: self.cover_medium@,
            cover_big: self.cover_big@,
            cover_xl: self.cover_xl@,
        }
    }
}

/// The decode of `v` as a playlist track's album reference, when it
/// succeeds.
pub open spec fn spec_playlist_track_album(v: JsonValue) -> Option<PlaylistTrackAlbumView> {
    if s_u32(v, "id"@) is None || s_str(v, "title"@) is None || s_str(v, "cover"@) is None
        || s_str(v, "cover_small"@) is None || s_str(v, "cover_medium"@) is None || s_str(
        v,
        "cover_big"@,
    ) is None || s_str(v, "cover_xl"@) is None {
        None
    } else {
        Some(
            PlaylistTrackAlbumView {
                id: s_u32(v, "id"@)->0,
                title: s_str(v, "title"@)->0,
                cover: s_str(v, "cover"@)->0,
                cover_small: s_str(v, "cover_small"@)->0,
                cover_medium: s_str(v, "cover_medium"@)->0,
                cover_big: s_str(v, "cover_big"@)->0,
                cover_xl: s_str(v, "cover_xl"@)->0,
            },
        )
    }
}

impl PlaylistTrackAlbum {
    /// Decodes a playlist track's album reference from a JSON value.
    pub fn from_json(v: &JsonValue) -> (r: Option<PlaylistTrackAlbum>)
        ensures
            r matches Some(a) ==> spec_playlist_track_album(*v) == Some(a@),
            r is None ==> spec_playlist_track_album(*v) is None,
    {
        let id = get_u32(v, "id")?;
        let title = get_str(v, "title")?;
        let cover = get_str(v, "cover")?;
        let cover_small = get_str(v, "cover_small")?;
        let cover_medium = get_str(v, "cover_medium")?;
        let cover_big = get_str(v, "cover_big")?;
        let cover_xl = get_str(v, "cover_xl")?;
        Some(
            PlaylistTrackAlbum { id, title, cover, cover_small, cover_medium, cover_big, cover_xl },
        )
    }

    /// URL of the corresponding full [`crate::album::Album`] record, as
    /// the top-level album fetcher would build it for this reference's
    /// id.
    pub fn get_full(&self) -> (r: String)
        ensures
            r@ == crate::album::spec_album_api(self.id),
    {
        crate::album::get_album_api(self.id)
    }
}

/// Shortened track reference listed in a playlist.
/// [`PlaylistTrack::get_full`] gives the URL of the full record.
#[derive(Debug, Clone, PartialEq)]
pub struct PlaylistTrack {
    /// The track's id in the remote system.
    pub id: u32,
    /// True if the track is readable in the player for the current user.
    pub readable: bool,
    /// The track's full title.
    pub title: String,
    /// The track's short title.
    pub title_short: String,
    /// The track's version.
    pub title_version: String,
    /// The track's unseen status; false when missing.
    pub unseen: bool,
    /// The url of the track page.
    pub link: String,
    /// The track's duration in seconds. Wire name: `duration`.
    pub duration_in_seconds: u32,
    /// The track's rank in the remote system.
    pub rank: u32,
    /// Whether the track contains explicit lyrics. Wire name:
    /// `explicit_lyrics`.
    pub has_explicit_lyrics: bool,
    /// The url of the track's 30-second preview file; empty when
    /// missing.
    pub preview_url: String,
    /// When the track was added to the playlist. Wire name: `time_add`.
    pub added_on: u64,
    /// The artist of this track.
    pub artist: PlaylistTrackArtist,
    /// The album of this track.
    pub album: PlaylistTrackAlbum,
}

/// Mathematical model of a [`PlaylistTrack`].
pub struct PlaylistTrackView {
    pub id: u32,
    pub readable: bool,
    pub title: Seq<char>,
    pub title_short: Seq<char>,
    pub title_version: Seq<char>,
    pub unseen: bool,
    pub link: Seq<char>,
    pub duration_in_seconds: u32,
    pub rank: u32,
    pub has_explicit_lyrics: bool,
    pub preview_url: Seq<char>,
    pub added_on: u64,
    pub artist: PlaylistTrackArtistView,
    pub album: PlaylistTrackAlbumView,
}

impl View for PlaylistTrack {
    type V = PlaylistTrackView;

    open spec fn view(&self) -> PlaylistTrackView {
        PlaylistTrackView {
            id: self.id,
            readable: self.readable,
            title: self.title@,
            title_short: self.title_short@,
            title_version: self.title_version@,
            unseen: self.unseen,
            link: self.link@,
            duration_in_seconds: self.duration_in_seconds,
            rank: self.rank,
            has_explicit_lyrics: self.has_explicit_lyrics,
            preview_url: self.preview_url@,
            added_on: self.added_on,
            artist: self.artist@,
            album: self.album@,
        }
    }
}

/// The decode of `v` as a playlist's track reference, when it succeeds.
pub open spec fn spec_playlist_track(v: JsonValue) -> Option<PlaylistTrackView> {
    if s_u32(v, "id"@) is None || s_bool(v, "readable"@) is None || s_str(v, "title"@) is None
        || s_str(v, "title_short"@) is None || s_str(v, "title_version"@) is None || s_def_bool(
        v,
        "unseen"@,
    ) is None || s_str(v, "link"@) is None || s_u32(v, "duration"@) is None || s_u32(v, "rank"@)
        is None || s_bool(v, "explicit_lyrics"@) is None || s_def_str(v, "preview_url"@) is None
        || s_u64(v, "time_add"@) is None || s_get(v, "artist"@) is None
        || spec_playlist_track_artist(s_get(v, "artist"@)->0) is None || s_get(v, "album"@) is None
        || spec_playlist_track_album(s_get(v, "album"@)->0) is None {
        None
    } else {
        Some(
            PlaylistTrackView {
                id: s_u32(v, "id"@)->0,
                readable: s_bool(v, "readable"@)->0,
                title: s_str(v, "title"@)->0,
                title_short: s_str(v, "title_short"@)->0,
                title_version: s_str(v, "title_version"@)->0,
                unseen: s_def_bool(v, "unseen"@)->0,
                link: s_str(v, "link"@)->0,
                duration_in_seconds: s_u32(v, "duration"@)->0,
                rank: s_u32(v, "rank"@)->0,
                has_explicit_lyrics: s_bool(v, "explicit_lyrics"@)->0,
                preview_url: s_def_str(v, "preview_url"@)->0,
                added_on: s_u64(v, "time_add"@)->0,
                artist: spec_playlist_track_artist(s_get(v, "artist"@)->0)->0,
                album: spec_playlist_track_album(s_get(v, "album"@)->0)->0,
            },
        )
    }
}

impl FromJson for PlaylistTrack {
    open spec fn spec_from_json(v: JsonValue) -> Option<PlaylistTrackView> {
        spec_playlist_track(v)
    }

    fn from_json(v: &JsonValue) -> (r: Option<PlaylistTrack>) {
        let id = get_u32(v, "id")?;
        let readable = get_bool(v, "readable")?;
        let title = get_str(v, "title")?;
        let title_short = get_str(v, "title_short")?;
        let title_version = get_str(v, "title_version")?;
        let unseen = get_def_bool(v, "unseen")?;
        let link = get_str(v, "link")?;
        let duration_in_seconds = get_u32(v, "duration")?;
        let rank = get_u32(v, "rank")?;
        let has_explicit_lyrics = get_bool(v, "explicit_lyrics")?;
        let preview_url = get_def_str(v, "preview_url")?;
        let added_on = get_u64(v, "time_add")?;
        let artist_v = get_entry(v, "artist")?;
        let artist = PlaylistTrackArtist::from_json(artist_v)?;
        let album_v = get_entry(v, "album")?;
        let album = PlaylistTrackAlbum::from_json(album_v)?;
        Some(
            PlaylistTrack {
                id,
                readable,
                title,
                title_short,
                title_version,
                unseen,
                link,
                duration_in_seconds,
                rank,
                has_explicit_lyrics,
                preview_url,
                added_on,
                artist,
                album,
            },
        )
    }
}

impl PlaylistTrack {
    /// URL of the corresponding full [`crate::track::Track`] record, as
    /// the top-level track fetcher would build it for this reference's
    /// id.
    pub fn get_full(&self) -> (r: String)
        ensures
            r@ == crate::track::spec_track_api(self.id),
    {
        crate::track::get_track_api(self.id)
    }
}

/// Full record for a playlist resource.
#[derive(Debug, Clone, PartialEq)]
pub struct Playlist {
    /// The playlist's id in the remote system.
    pub id: u32,
    /// The playlist's title.
    pub title: String,
    /// The playlist description.
    pub description: String,
    /// The playlist's duration in seconds. Wire name: `duration`.
    pub duration_in_seconds: u32,
    /// Whether the playlist is public. Wire name: `public`.
    pub is_public: bool,
    /// Whether the playlist is the loved-tracks playlist.
    pub is_loved_track: bool,
    /// Whether the playlist is collaborative. Wire name:
    /// `collaborative`.
    pub is_collaborative: bool,
    /// The playlist's rating, when given.
    pub rating: Option<u32>,
    /// Number of tracks in the playlist.
    pub nb_tracks: u32,
    /// Number of tracks not seen, when given.
    pub unseen_track_count: Option<u32>,
    /// The number of the playlist's fans.
    pub fans: u32,
    /// The url of the playlist page.
    pub link: String,
    /// The share link of the playlist page. Wire name: `share`.
    pub share_link: String,
    /// The url of the playlist's cover.
    pub picture: String,
    /// The url of the playlist's cover in size small.
    pub picture_small: String,
    /// The url of the playlist's cover in size medium.
    pub picture_medium: String,
    /// The url of the playlist's cover in size big.
    pub picture_big: String,
    /// The url of the playlist's cover in size xl.
    pub picture_xl: String,
    /// The checksum for the track list.
    pub checksum: String,
    /// The user who created the playlist.
    pub creator: PlaylistUser,
    /// The playlist's tracks, from a `data` envelope, decoded leniently.
    pub tracks: Vec<PlaylistTrack>,
}

/// Mathematical model of a [`Playlist`].
pub struct PlaylistView {
    pub id: u32,
    pub title: Seq<char>,
    pub description: Seq<char>,
    pub duration_in_seconds: u32,
    pub is_public: bool,
    pub is_loved_track: bool,
    pub is_collaborative: bool,
    pub rating: Option<u32>,
    pub nb_tracks: u32,
    pub unseen_track_count: Option<u32>,
    pub fans: u32,
    pub link: Seq<char>,
    pub share_link: Seq<char>,
    pub picture: Seq<char>,
    pub picture_small: Seq<char>,
    pub picture_medium: Seq<char>,
    pub picture_big: Seq<char>,
    pub picture_xl: Seq<char>,
    pub checksum: Seq<char>,
    pub creator: PlaylistUserView,
    pub tracks: Seq<PlaylistTrackView>,
}

impl View for Playlist {
    type V = PlaylistView;

    open spec fn view(&self) -> PlaylistView {
        PlaylistView {
            id: self.id,
            title: self.title@,
            description: self.description@,
            duration_in_seconds: self.duration_in_seconds,
            is_public: self.is_public,
            is_loved_track: self.is_loved_track,
            is_collaborative: self.is_collaborative,
            rating: self.rating,
            nb_tracks: self.nb_tracks,
            unseen_track_count: self.unseen_track_count,
            fans: self.fans,
            link: self.link@,
            share_link: self.share_link@,
            picture: self.picture@,
            picture_small: self.picture_small@,
            picture_medium: self.picture_medium@,
            picture_big: self.picture_big@,
            picture_xl: self.picture_xl@,
            checksum: self.checksum@,
            creator: self.creator@,
            tracks: views_of(self.tracks@),
        }
    }
}

/// The decode of `v` as a playlist record, when it succeeds.
pub open spec fn spec_playlist(v: JsonValue) -> Option<PlaylistView> {
    if s_u32(v, "id"@) is None || s_str(v, "title"@) is None || s_str(v, "description"@) is None
        || s_u32(v, "duration"@) is None || s_bool(v, "public"@) is None || s_bool(
        v,
        "is_loved_track"@,
    ) is None || s_bool(v, "collaborative"@) is None || s_opt_u32(v, "rating"@) is None || s_u32(
        v,
        "nb_tracks"@,
    ) is None || s_opt_u32(v, "unseen_track_count"@) is None || s_u32(v, "fans"@) is None || s_str(
        v,
        "link"@,
    ) is None || s_str(v, "share"@) is None || s_str(v, "picture"@) is None || s_str(
        v,
        "picture_small"@,
    ) is None || s_str(v, "picture_medium"@) is None || s_str(v, "picture_big"@) is None || s_str(
        v,
        "picture_xl"@,
    ) is None || s_str(v, "checksum"@) is None || s_get(v, "creator"@) is None
        || spec_playlist_user(s_get(v, "creator"@)->0) is None || s_field_envelope(v, "tracks"@)
        is None {
        None
    } else {
        Some(
            PlaylistView {
                id: s_u32(v, "id"@)->0,
                title: s_str(v, "title"@)->0,
                description: s_str(v, "description"@)->0,
                duration_in_seconds: s_u32(v, "duration"@)->0,
                is_public: s_bool(v, "public"@)->0,
                is_loved_track: s_bool(v, "is_loved_track"@)->0,
                is_collaborative: s_bool(v, "collaborative"@)->0,
                rating: s_opt_u32(v, "rating"@)->0,
                nb_tracks: s_u32(v, "nb_tracks"@)->0,
                unseen_track_count: s_opt_u32(v, "unseen_track_count"@)->0,
                fans: s_u32(v, "fans"@)->0,
                link: s_str(v, "link"@)->0,
                share_link: s_str(v, "share"@)->0,
                picture: s_str(v, "picture"@)->0,
                picture_small: s_str(v, "picture_small"@)->0,
                picture_medium: s_str(v, "picture_medium"@)->0,
                picture_big: s_str(v, "picture_big"@)->0,
                picture_xl: s_str(v, "picture_xl"@)->0,
                checksum: s_str(v, "checksum"@)->0,
                creator: spec_playlist_user(s_get(v, "creator"@)->0)->0,
                tracks: spec_decode_lenient::<PlaylistTrack>(s_field_envelope(v, "tracks"@)->0),
            },
        )
    }
}

impl Playlist {
    /// Decodes a playlist record from a JSON value.
    pub fn from_json(v: &JsonValue) -> (r: Option<Playlist>)
        ensures
            r matches Some(p) ==> spec_playlist(*v) == Some(p@),
            r is None ==> spec_playlist(*v) is None,
    {
        let id = get_u32(v, "id")?;
        let title = get_str(v, "title")?;
        let description = get_str(v, "description")?;
        let duration_in_seconds = get_u32(v, "duration")?;
        let is_public = get_bool(v, "public")?;
        let is_loved_track = get_bool(v, "is_loved_track")?;
        let is_collaborative = get_bool(v, "collaborative")?;
        let rating = get_opt_u32(v, "rating")?;
        let nb_tracks = get_u32(v, "nb_tracks")?;
        let unseen_track_count = get_opt_u32(v, "unseen_track_count")?;
        let fans = get_u32(v, "fans")?;
        let link = get_str(v, "link")?;
        let share_link = get_str(v, "share")?;
        let picture = get_str(v, "picture")?;
        let picture_small = get_str(v, "picture_small")?;
        let picture_medium = get_str(v, "picture_medium")?;
        let picture_big = get_str(v, "picture_big")?;
        let picture_xl = get_str(v, "picture_xl")?;
        let checksum = get_str(v, "checksum")?;
        let creator_v = get_entry(v, "creator")?;
        let creator = PlaylistUser::from_json(creator_v)?;
        let tracks_v = get_entry(v, "tracks")?;
        let tracks = match decode_envelope_lenient::<PlaylistTrack>(tracks_v) {
            Ok(t) => t,
            Err(_) => {
                return None;
            },
        };
        Some(
            Playlist {
                id,
                title,
                description,
                duration_in_seconds,
                is_public,
                is_loved_track,
                is_collaborative,
                rating,
                nb_tracks,
                unseen_track_count,
                fans,
                link,
                share_link,
                picture,
                picture_small,
                picture_medium,
                picture_big,
                picture_xl,
                checksum,
                creator,
                tracks,
            },
        )
    }

    /// Decodes a playlist record from JSON text: the body of a playlist
    /// fetch.
    pub fn new(json: &str) -> (r: Result<Playlist, DecodeError>)
        ensures
            match parsed_json(json@) {
                None => r matches Err(e) && e == DecodeError::Syntax,
                Some(v) => match spec_playlist(v) {
                    None => r matches Err(e) && e == DecodeError::Structure,
                    Some(pv) => r matches Ok(p) && p@ == pv,
                },
            },
    {
        match parse_json(json) {
            None => Err(DecodeError::Syntax),
            Some(v) => match Playlist::from_json(&v) {
                None => Err(DecodeError::Structure),
                Some(p) => Ok(p),
            },
        }
    }
}

/// URL of the playlist resource with the given id.
pub open spec fn spec_playlist_api(id: u32) -> Seq<char> {
    "https://api.deezer.com/playlist/"@ + spec_digits(id as nat)
}

/// Takes an id and produces the appropriate api url.
pub fn get_playlist_api(id: u32) -> (r: String)
    ensures
        r@ == spec_playlist_api(id),
{
    let mut s: String = "https://api.deezer.com/playlist/".to_owned();
    push_decimal(&mut s, id);
    s
}

} // verus!
