//! The album resource: the [`Album`] record, its nested reference
//! records, and its fetch URL.
//!
//! An album may carry an alternative album of the same shape, so its
//! decode is the one recursive decode in the library.

use vstd::prelude::*;

use crate::DecodeError;
use crate::envelope::{FromJson, views_of, s_field_arr, s_field_envelope, all_elems_decode,
    spec_decode_strict, spec_decode_lenient, decode_array_strict, decode_envelope_lenient};
use crate::json::{JsonValue, parsed_json, parse_json, s_get, s_str, s_u32, s_bool, s_opt_i32,
    lemma_s_get_smaller, get_entry, get_str, get_u32, get_bool, get_opt_i32};
use crate::spec_digits;
use crate::push_decimal;

verus! {

/// Shortened artist reference listed among an album's contributors.
/// [`ContributorArtist::get_full`] gives the URL of the full record.
#[derive(Debug, Clone, PartialEq)]
pub struct ContributorArtist {
    /// The artist's id in the remote system.
    pub id: u32,
    /// The artist's name.
    pub name: String,
    /// The url of the artist page.
    pub link: String,
    /// The share link of the artist page. Wire name: `share`.
    pub share_link: String,
    /// The url of the artist picture in size small.
    pub picture_small: String,
    /// The url of the artist picture in size medium.
    pub picture_medium: String,
    /// The url of the artist picture in size big.
    pub picture_big: String,
    /// The url of the artist picture in size xl.
    pub picture_xl: String,
    /// True if the artist has a smart radio. Wire name: `radio`.
    pub has_radio: bool,
    /// API link to the top tracks of this artist.
    pub tracklist: String,
}

/// Mathematical model of a [`ContributorArtist`].
pub struct ContributorArtistView {
    pub id: u32,
    pub name: Seq<char>,
    pub link: Seq<char>,
    pub share_link: Seq<char>,
    pub picture_small: Seq<char>,
    pub picture_medium: Seq<char>,
    pub picture_big: Seq<char>,
    pub picture_xl: Seq<char>,
    pub has_radio: bool,
    pub tracklist: Seq<char>,
}

impl View for ContributorArtist {
    type V = ContributorArtistView;

    open spec fn view(&self) -> ContributorArtistView {
        ContributorArtistView {
            id: self.id,
            name: self.name@,
            link: self.link@,
            share_link: self.share_link@,
            picture_small: self.picture_small@,
            picture_medium: self.picture_medium@,
            picture_big: self.picture_big@,
            picture_xl: self.picture_xl@,
            has_radio: self.has_radio,
            tracklist: self.tracklist@,
        }
    }
}

/// The decode of `v` as a contributor reference, when it succeeds.
pub open spec fn spec_contributor_artist(v: JsonValue) -> Option<ContributorArtistView> {
    if s_u32(v, "id"@) is None || s_str(v, "name"@) is None || s_str(v, "link"@) is None || s_str(
        v,
        "share"@,
    ) is None || s_str(v, "picture_small"@) is None || s_str(v, "picture_medium"@) is None || s_str(
        v,
        "picture_big"@,
    ) is None || s_str(v, "picture_xl"@) is None || s_bool(v, "radio"@) is None || s_str(
        v,
        "tracklist"@,
    ) is None {
        None
    } else {
        Some(
            ContributorArtistView {
                id: s_u32(v, "id"@)->0,
                name: s_str(v, "name"@)->0,
                link: s_str(v, "link"@)->0,
                share_link: s_str(v, "share"@)->0,
                picture_small: s_str(v, "picture_small"@)->0,
                picture_medium: s_str(v, "picture_medium"@)->0,
                picture_big: s_str(v, "picture_big"@)->0,
                picture_xl: s_str(v, "picture_xl"@)->0,
                has_radio: s_bool(v, "radio"@)->0,
                tracklist: s_str(v, "tracklist"@)->0,
            },
        )
    }
}

impl FromJson for ContributorArtist {
    open spec fn spec_from_json(v: JsonValue) -> Option<ContributorArtistView> {
        spec_contributor_artist(v)
    }

    fn from_json(v: &JsonValue) -> (r: Option<ContributorArtist>) {
        let id = get_u32(v, "id")?;
        let name = get_str(v, "name")?;
        let link = get_str(v, "link")?;
        let share_link = get_str(v, "share")?;
        let picture_small = get_str(v, "picture_small")?;
        let picture_medium = get_str(v, "picture_medium")?;
        let picture_big = get_str(v, "picture_big")?;
        let picture_xl = get_str(v, "picture_xl")?;
        let has_radio = get_bool(v, "radio")?;
        let tracklist = get_str(v, "tracklist")?;
        Some(
            ContributorArtist {
                id,
                name,
                link,
                share_link,
                picture_small,
                picture_medium,
                picture_big,
                picture_xl,
                has_radio,
                tracklist,
            },
        )
    }
}

impl ContributorArtist {
    /// URL of the corresponding full [`crate::artist::Artist`] record, as
    /// the top-level artist fetcher would build it for this reference's
    /// id.
    pub fn get_full(&self) -> (r: String)
        ensures
            r@ == crate::artist::spec_artist_api(self.id),
    {
        crate::artist::get_artist_api(self.id)
    }
}

/// Shortened artist reference embedded in an album.
/// [`AlbumArtist::get_full`] gives the URL of the full record.
#[derive(Debug, Clone, PartialEq)]
pub struct AlbumArtist {
    /// The artist's id in the remote system.
    pub id: u32,
    /// The artist's name.
    pub name: String,
    /// The url of the artist picture.
    pub picture: String,
    /// The url of the artist picture in size small.
    pub picture_small: String,
    /// The url of the artist picture in size medium.
    pub picture_medium: String,
    /// The url of the artist picture in size big.
    pub picture_big: String,
    /// The url of the artist picture in size xl.
    pub picture_xl: String,
}

/// Mathematical model of an [`AlbumArtist`].
pub struct AlbumArtistView {
    pub id: u32,
    pub name: Seq<char>,
    pub picture: Seq<char>,
    pub picture_small: Seq<char>,
    pub picture_medium: Seq<char>,
    pub picture_big: Seq<char>,
    pub picture_xl: Seq<char>,
}

impl View for AlbumArtist {
    type V = AlbumArtistView;

    open spec fn view(&self) -> AlbumArtistView {
        AlbumArtistView {
            id: self.id,
            name: self.name@,
            picture: self.picture@,
            picture_small: self.picture_small@,
            picture_medium: self.picture_medium@,
            picture_big: self.picture_big@,
            picture_xl: self.picture_xl@,
        }
    }
}

/// The decode of `v` as an album's artist reference, when it succeeds.
pub open spec fn spec_album_artist(v: JsonValue) -> Option<AlbumArtistView> {
    if s_u32(v, "id"@) is None || s_str(v, "name"@) is None || s_str(v, "picture"@) is None
        || s_str(v, "picture_small"@) is None || s_str(v, "picture_medium"@) is None || s_str(
        v,
        "picture_big"@,
    ) is None || s_str(v, "picture_xl"@) is None {
        None
    } else {
        Some(
            AlbumArtistView {
                id: s_u32(v, "id"@)->0,
                name: s_str(v, "name"@)->0,
                picture: s_str(v, "picture"@)->0,
                picture_small: s_str(v, "picture_small"@)->0,
                picture_medium: s_str(v, "picture_medium"@)->0,
                picture_big: s_str(v, "picture_big"@)->0,
                picture_xl: s_str(v, "picture_xl"@)->0,
            },
        )
    }
}

impl AlbumArtist {
    /// Decodes an album's artist reference from a JSON value.
    pub fn from_json(v: &JsonValue) -> (r: Option<AlbumArtist>)
        ensures
            r matches Some(a) ==> spec_album_artist(*v) == Some(a@),
            r is None ==> spec_album_artist(*v) is None,
    {
        let id = get_u32(v, "id")?;
        let name = get_str(v, "name")?;
        let picture = get_str(v, "picture")?;
        let picture_small = get_str(v, "picture_small")?;
        let picture_medium = get_str(v, "picture_medium")?;
        let picture_big = get_str(v, "picture_big")?;
        let picture_xl = get_str(v, "picture_xl")?;
        Some(
            AlbumArtist { id, name, picture, picture_small, picture_medium, picture_big, picture_xl },
        )
    }

    /// URL of the corresponding full [`crate::artist::Artist`] record, as
    /// the top-level artist fetcher would build it for this reference's
    /// id.
    pub fn get_full(&self) -> (r: String)
        ensures
            r@ == crate::artist::spec_artist_api(self.id),
    {
        crate::artist::get_artist_api(self.id)
    }
}

/// Shortened artist reference embedded in an album's track.
/// [`AlbumTrackArtist::get_full`] gives the URL of the full record.
#[derive(Debug, Clone, PartialEq)]
pub struct AlbumTrackArtist {
    /// The artist's id in the remote system.
    pub id: u32,
    /// The artist's name.
    pub name: String,
    /// API link to the top tracks of this artist.
    pub tracklist: String,
}

/// Mathematical model of an [`AlbumTrackArtist`].
pub struct AlbumTrackArtistView {
    pub id: u32,
    pub name: Seq<char>,
    pub tracklist: Seq<char>,
}

impl View for AlbumTrackArtist {
    type V = AlbumTrackArtistView;

    open spec fn view(&self) -> AlbumTrackArtistView {
        AlbumTrackArtistView { id: self.id, name: self.name@, tracklist: self.tracklist@ }
    }
}

/// The decode of `v` as an album track's artist reference, when it
/// succeeds.
pub open spec fn spec_album_track_artist(v: JsonValue) -> Option<AlbumTrackArtistView> {
    if s_u32(v, "id"@) is None || s_str(v, "name"@) is None || s_str(v, "tracklist"@) is None {
        None
    } else {
        Some(
            AlbumTrackArtistView {
                id: s_u32(v, "id"@)->0,
                name: s_str(v, "name"@)->0,
                tracklist: s_str(v, "tracklist"@)->0,
            },
        )
    }
}

impl AlbumTrackArtist {
    /// Decodes an album track's artist reference from a JSON value.
    pub fn from_json(v: &JsonValue) -> (r: Option<AlbumTrackArtist>)
        ensures
            r matches Some(a) ==> spec_album_track_artist(*v) == Some(a@),
            r is None ==> spec_album_track_artist(*v) is None,
    {
        let id = get_u32(v, "id")?;
        let name = get_str(v, "name")?;
        let tracklist = get_str(v, "tracklist")?;
        Some(AlbumTrackArtist { id, name, tracklist })
    }

    /// URL of the corresponding full [`crate::artist::Artist`] record, as
    /// the top-level artist fetcher would build it for this reference's
    /// id.
    pub fn get_full(&self) -> (r: String)
        ensures
            r@ == crate::artist::spec_artist_api(self.id),
    {
        crate::artist::get_artist_api(self.id)
    }
}

/// Shortened track reference listed in an album.
/// [`AlbumTrack::get_full`] gives the URL of the full record.
#[derive(Debug, Clone, PartialEq)]
pub struct AlbumTrack {
    /// The track's id in the remote system.
    pub id: u32,
    /// True if the track is readable in the player for the current user.
    pub readable: bool,
    /// The track's full title.
    pub title: String,
    /// The track's short title.
    pub title_short: String,
    /// The track's version.
    pub title_version: String,
    /// The url of the track page.
    pub link: String,
    /// The track's duration in seconds. Wire name: `duration`.
    pub duration_in_seconds: u32,
    /// The track's rank in the remote system.
    pub rank: u32,
    /// Whether the track contains explicit lyrics.
    pub explicit_lyrics: bool,
    /// The url of the track's 30-second preview file.
    pub preview: String,
    /// The artist of this track.
    pub artist: AlbumTrackArtist,
}

/// Mathematical model of an [`AlbumTrack`].
pub struct AlbumTrackView {
    pub id: u32,
    pub readable: bool,
    pub title: Seq<char>,
    pub title_short: Seq<char>,
    pub title_version: Seq<char>,
    pub link: Seq<char>,
    pub duration_in_seconds: u32,
    pub rank: u32,
    pub explicit_lyrics: bool,
    pub preview: Seq<char>,
    pub artist: AlbumTrackArtistView,
}

impl View for AlbumTrack {
    type V = AlbumTrackView;

    open spec fn view(&self) -> AlbumTrackView {
        AlbumTrackView {
            id: self.id,
            readable: self.readable,
            title: self.title@,
            title_short: self.title_short@,
            title_version: self.title_version@,
            link: self.link@,
            duration_in_seconds: self.duration_in_seconds,
            rank: self.rank,
            explicit_lyrics: self.explicit_lyrics,
            preview: self.preview@,
            artist: self.artist@,
        }
    }
}

/// The decode of `v` as an album's track reference, when it succeeds.
pub open spec fn spec_album_track(v: JsonValue) -> Option<AlbumTrackView> {
    if s_u32(v, "id"@) is None || s_bool(v, "readable"@) is None || s_str(v, "title"@) is None
        || s_str(v, "title_short"@) is None || s_str(v, "title_version"@) is None || s_str(
        v,
        "link"@,
    ) is None || s_u32(v, "duration"@) is None || s_u32(v, "rank"@) is None || s_bool(
        v,
        "explicit_lyrics"@,
    ) is None || s_str(v, "preview"@) is None || s_get(v, "artist"@) is None
        || spec_album_track_artist(s_get(v, "artist"@)->0) is None {
        None
    } else {
        Some(
            AlbumTrackView {
                id: s_u32(v, "id"@)->0,
                readable: s_bool(v, "readable"@)->0,
                title: s_str(v, "title"@)->0,
                title_short: s_str(v, "title_short"@)->0,
                title_version: s_str(v, "title_version"@)->0,
                link: s_str(v, "link"@)->0,
                duration_in_seconds: s_u32(v, "duration"@)->0,
                rank: s_u32(v, "rank"@)->0,
                explicit_lyrics: s_bool(v, "explicit_lyrics"@)->0,
                preview: s_str(v, "preview"@)->0,
                artist: spec_album_track_artist(s_get(v, "artist"@)->0)->0,
            },
        )
    }
}

impl FromJson for AlbumTrack {
    open spec fn spec_from_json(v: JsonValue) -> Option<AlbumTrackView> {
        spec_album_track(v)
    }

    fn from_json(v: &JsonValue) -> (r: Option<AlbumTrack>) {
        let id = get_u32(v, "id")?;
        let readable = get_bool(v, "readable")?;
        let title = get_str(v, "title")?;
        let title_short = get_str(v, "title_short")?;
        let title_version = get_str(v, "title_version")?;
        let link = get_str(v, "link")?;
        let duration_in_seconds = get_u32(v, "duration")?;
        let rank = get_u32(v, "rank")?;
        let explicit_lyrics = get_bool(v, "explicit_lyrics")?;
        let preview = get_str(v, "preview")?;
        let artist_v = get_entry(v, "artist")?;
        let artist = AlbumTrackArtist::from_json(artist_v)?;
        Some(
            AlbumTrack {
                id,
                readable,
                title,
                title_short,
                title_version,
                link,
                duration_in_seconds,
                rank,
                explicit_lyrics,
                preview,
                artist,
            },
        )
    }
}

impl AlbumTrack {
    /// URL of the corresponding full [`crate::track::Track`] record, as
    /// the top-level track fetcher would build it for this reference's
    /// id.
    pub fn get_full(&self) -> (r: String)
        ensures
            r@ == crate::track::spec_track_api(self.id),
    {
        crate::track::get_track_api(self.id)
    }
}

/// Shortened genre reference listed in an album.
/// [`AlbumGenre::get_full`] gives the URL of the full record.
#[derive(Debug, Clone, PartialEq)]
pub struct AlbumGenre {
    /// The genre's id in the remote system.
    pub id: u32,
    /// The genre's name.
    pub name: String,
    /// The url of the genre picture.
    pub picture: String,
}

/// Mathematical model of an [`AlbumGenre`].
pub struct AlbumGenreView {
    pub id: u32,
    pub name: Seq<char>,
    pub picture: Seq<char>,
}

impl View for AlbumGenre {
    type V = AlbumGenreView;

    open spec fn view(&self) -> AlbumGenreView {
        AlbumGenreView { id: self.id, name: self.name@, picture: self.picture@ }
    }
}

/// The decode of `v` as an album's genre reference, when it succeeds.
pub open spec fn spec_album_genre(v: JsonValue) -> Option<AlbumGenreView> {
    if s_u32(v, "id"@) is None || s_str(v, "name"@) is None || s_str(v, "picture"@) is None {
        None
    } else {
        Some(
            AlbumGenreView {
                id: s_u32(v, "id"@)->0,
                name: s_str(v, "name"@)->0,
                picture: s_str(v, "picture"@)->0,
            },
        )
    }
}

impl FromJson for AlbumGenre {
    open spec fn spec_from_json(v: JsonValue) -> Option<AlbumGenreView> {
        spec_album_genre(v)
    }

    fn from_json(v: &JsonValue) -> (r: Option<AlbumGenre>) {
        let id = get_u32(v, "id")?;
        let name = get_str(v, "name")?;
        let picture = get_str(v, "picture")?;
        Some(AlbumGenre { id, name, picture })
    }
}

impl AlbumGenre {
    /// URL of the corresponding full [`crate::genre::Genre`] record, as
    /// the top-level genre fetcher would build it for this reference's
    /// id.
    pub fn get_full(&self) -> (r: String)
        ensures
            r@ == crate::genre::spec_genre_api(self.id),
    {
        crate::genre::get_genre_api(self.id)
    }
}

/// Full record for an album resource.
#[derive(Debug, PartialEq)]
pub struct Album {
    /// The album's id in the remote system.
    pub id: u32,
    /// The album title.
    pub title: String,
    /// The album UPC.
    pub upc: String,
    /// The url of the album page.
    pub link: String,
    /// The share link of the album page. Wire name: `share`.
    pub share_link: String,
    /// The url of the album's cover.
    pub cover: String,
    /// The url of the album's cover in size small.
    pub cover_small: String,
    /// The url of the album's cover in size medium.
    pub cover_medium: String,
    /// The url of the album's cover in size big.
    pub cover_big: String,
    /// The url of the album's cover in size xl.
    pub cover_xl: String,
    /// The album's first genre id. The remote system sends `-1` to mean
    /// "no primary genre"; [`Album::new`] normalizes that sentinel to
    /// `None` on the top-level record, while a nested alternative album
    /// keeps the value exactly as decoded.
    pub genre_id: Option<i32>,
    /// The album's genres, from a `data` envelope, decoded leniently.
    pub genres: Vec<AlbumGenre>,
    /// The album's label name.
    pub label: String,
    /// Number of tracks in the album.
    pub nb_tracks: u32,
    /// The album's duration in seconds. Wire name: `duration`.
    pub duration_in_seconds: u32,
    /// The number of the album's fans.
    pub fans: u32,
    /// The album's rating.
    pub rating: u32,
    /// The album's release date.
    pub release_date: String,
    /// The record type of the album (EP, ALBUM, ...).
    pub record_type: String,
    /// Whether the album is available right now.
    pub available: bool,
    /// An alternative album, when the current album is not available.
    /// Wire name: `alternative`.
    pub alternative_album: Option<Box<Album>>,
    /// API link to the tracklist of this album. Wire name: `tracklist`.
    pub tracklist_api_url: String,
    /// Whether the album contains explicit lyrics. Wire name:
    /// `explicit_lyrics`.
    pub has_explicit_lyrics: bool,
    /// The contributors on the album.
    pub contributors: Vec<ContributorArtist>,
    /// The artist this album belongs to.
    pub artist: AlbumArtist,
    /// The album's tracks, from a `data` envelope, decoded leniently.
    pub tracks: Vec<AlbumTrack>,
}

/// Mathematical model of an [`Album`]. The alternative album is held as
/// a sequence that is empty when absent and a single element when
/// present.
pub struct AlbumView {
    pub id: u32,
    pub title: Seq<char>,
    pub upc: Seq<char>,
    pub link: Seq<char>,
    pub share_link: Seq<char>,
    pub cover: Seq<char>,
    pub cover_small: Seq<char>,
    pub cover_medium: Seq<char>,
    pub cover_big: Seq<char>,
    pub cover_xl: Seq<char>,
    pub genre_id: Option<i32>,
    pub genres: Seq<AlbumGenreView>,
    pub label: Seq<char>,
    pub nb_tracks: u32,
    pub duration_in_seconds: u32,
    pub fans: u32,
    pub rating: u32,
    pub release_date: Seq<char>,
    pub record_type: Seq<char>,
    pub available: bool,
    pub alternative_album: Seq<AlbumView>,
    pub tracklist_api_url: Seq<char>,
    pub has_explicit_lyrics: bool,
    pub contributors: Seq<ContributorArtistView>,
    pub artist: AlbumArtistView,
    pub tracks: Seq<AlbumTrackView>,
}

/// Model of an album value; recursion follows the alternative album.
pub open spec fn spec_album_view(a: Album) -> AlbumView
    decreases a,
{
    AlbumView {
        id: a.id,
        title: a.title@,
        upc: a.upc@,
        link: a.link@,
        share_link: a.share_link@,
        cover: a.cover@,
        cover_small: a.cover_small@,
        cover_medium: a.cover_medium@,
        cover_big: a.cover_big@,
        cover_xl: a.cover_xl@,
        genre_id: a.genre_id,
        genres: views_of(a.genres@),
        label: a.label@,
        nb_tracks: a.nb_tracks,
        duration_in_seconds: a.duration_in_seconds,
        fans: a.fans,
        rating: a.rating,
        release_date: a.release_date@,
        record_type: a.record_type@,
        available: a.available,
        alternative_album: match a.alternative_album {
            Some(b) => seq![spec_album_view(*b)],
            None => Seq::empty(),
        },
        tracklist_api_url: a.tracklist_api_url@,
        has_explicit_lyrics: a.has_explicit_lyrics,
        contributors: views_of(a.contributors@),
        artist: a.artist@,
        tracks: views_of(a.tracks@),
    }
}

impl View for Album {
    type V = AlbumView;

    open spec fn view(&self) -> AlbumView {
        spec_album_view(*self)
    }
}

/// The album's genre id with the remote system's `-1` sentinel
/// normalized to an explicit absent value.
pub open spec fn spec_genre_id_norm(g: Option<i32>) -> Option<i32> {
    match g {
        Some(i) => if i == -1 {
            None
        } else {
            Some(i)
        },
        None => None,
    }
}

/// An album model with the `-1` genre id sentinel of its own record
/// normalized; a nested alternative album is left untouched. This is the
/// post-decode step [`Album::new`] applies to the top-level record.
pub open spec fn spec_album_normalized(av: AlbumView) -> AlbumView {
    AlbumView { genre_id: spec_genre_id_norm(av.genre_id), ..av }
}

/// The decode of `v` as an album record, when it succeeds, exactly as it
/// appears on the wire; recursion follows the alternative album.
pub open spec fn spec_album(v: JsonValue) -> Option<AlbumView>
    decreases v,
    via spec_album_decreases
{
    if s_u32(v, "id"@) is None || s_str(v, "title"@) is None || s_str(v, "upc"@) is None || s_str(
        v,
        "link"@,
    ) is None || s_str(v, "share"@) is None || s_str(v, "cover"@) is None || s_str(
        v,
        "cover_small"@,
    ) is None || s_str(v, "cover_medium"@) is None || s_str(v, "cover_big"@) is None || s_str(
        v,
        "cover_xl"@,
    ) is None || s_opt_i32(v, "genre_id"@) is None || s_field_envelope(v, "genres"@) is None
        || s_str(v, "label"@) is None || s_u32(v, "nb_tracks"@) is None || s_u32(v, "duration"@)
        is None || s_u32(v, "fans"@) is None || s_u32(v, "rating"@) is None || s_str(
        v,
        "release_date"@,
    ) is None || s_str(v, "record_type"@) is None || s_bool(v, "available"@) is None || (match s_get(
        v,
        "alternative"@,
    ) {
        Some(av) => !(av is Null) && spec_album(av) is None,
        None => false,
    }) || s_str(v, "tracklist"@) is None || s_bool(v, "explicit_lyrics"@) is None || s_field_arr(
        v,
        "contributors"@,
    ) is None || !all_elems_decode::<ContributorArtist>(s_field_arr(v, "contributors"@)->0)
        || s_get(v, "artist"@) is None || spec_album_artist(s_get(v, "artist"@)->0) is None
        || s_field_envelope(v, "tracks"@) is None {
        None
    } else {
        Some(
            AlbumView {
                id: s_u32(v, "id"@)->0,
                title: s_str(v, "title"@)->0,
                upc: s_str(v, "upc"@)->0,
                link: s_str(v, "link"@)->0,
                share_link: s_str(v, "share"@)->0,
                cover: s_str(v, "cover"@)->0,
                cover_small: s_str(v, "cover_small"@)->0,
                cover_medium: s_str(v, "cover_medium"@)->0,
                cover_big: s_str(v, "cover_big"@)->0,
                cover_xl: s_str(v, "cover_xl"@)->0,
                genre_id: s_opt_i32(v, "genre_id"@)->0,
                genres: spec_decode_lenient::<AlbumGenre>(s_field_envelope(v, "genres"@)->0),
                label: s_str(v, "label"@)->0,
                nb_tracks: s_u32(v, "nb_tracks"@)->0,
                duration_in_seconds: s_u32(v, "duration"@)->0,
                fans: s_u32(v, "fans"@)->0,
                rating: s_u32(v, "rating"@)->0,
                release_date: s_str(v, "release_date"@)->0,
                record_type: s_str(v, "record_type"@)->0,
                available: s_bool(v, "available"@)->0,
                alternative_album: match s_get(v, "alternative"@) {
                    Some(av) => if av is Null {
                        Seq::empty()
                    } else {
                        seq![spec_album(av)->0]
                    },
                    None => Seq::empty(),
                },
                tracklist_api_url: s_str(v, "tracklist"@)->0,
                has_explicit_lyrics: s_bool(v, "explicit_lyrics"@)->0,
                contributors: spec_decode_strict::<ContributorArtist>(
                    s_field_arr(v, "contributors"@)->0,
                ),
                artist: spec_album_artist(s_get(v, "artist"@)->0)->0,
                tracks: spec_decode_lenient::<AlbumTrack>(s_field_envelope(v, "tracks"@)->0),
            },
        )
    }
}

#[via_fn]
proof fn spec_album_decreases(v: JsonValue) {
    lemma_s_get_smaller(v, "alternative"@);
}

impl Album {
    /// Decodes an album record from a JSON value, exactly as it appears
    /// on the wire; recursion follows the alternative album.
    pub fn from_json(v: &JsonValue) -> (r: Option<Album>)
        ensures
            r matches Some(a) ==> spec_album(*v) == Some(a@),
            r is None ==> spec_album(*v) is None,
        decreases *v,
    {
        let id = get_u32(v, "id")?;
        let title = get_str(v, "title")?;
        let upc = get_str(v, "upc")?;
        let link = get_str(v, "link")?;
        let share_link = get_str(v, "share")?;
        let cover = get_str(v, "cover")?;
        let cover_small = get_str(v, "cover_small")?;
        let cover_medium = get_str(v, "cover_medium")?;
        let cover_big = get_str(v, "cover_big")?;
        let cover_xl = get_str(v, "cover_xl")?;
        let genre_id = get_opt_i32(v, "genre_id")?;
        let genres_v = get_entry(v, "genres")?;
        let genres = match decode_envelope_lenient::<AlbumGenre>(genres_v) {
            Ok(g) => g,
            Err(_) => {
                return None;
            },
        };
        let label = get_str(v, "label")?;
        let nb_tracks = get_u32(v, "nb_tracks")?;
        let duration_in_seconds = get_u32(v, "duration")?;
        let fans = get_u32(v, "fans")?;
        let rating = get_u32(v, "rating")?;
        let release_date = get_str(v, "release_date")?;
        let record_type = get_str(v, "record_type")?;
        let available = get_bool(v, "available")?;
        let alternative_album = match get_entry(v, "alternative") {
            None => None,
            Some(av) => match av {
                JsonValue::Null => None,
                _ => {
                    proof {
                        lemma_s_get_smaller(*v, "alternative"@);
                    }
                    match Album::from_json(av) {
                        Some(a) => Some(Box::new(a)),
                        None => {
                            return None;
                        },
                    }
                },
            },
        };
        let tracklist_api_url = get_str(v, "tracklist")?;
        let has_explicit_lyrics = get_bool(v, "explicit_lyrics")?;
        let contributors_v = get_entry(v, "contributors")?;
        let contributors = match decode_array_strict::<ContributorArtist>(contributors_v) {
            Ok(c) => c,
            Err(_) => {
                return None;
            },
        };
        let artist_v = get_entry(v, "artist")?;
        let artist = AlbumArtist::from_json(artist_v)?;
        let tracks_v = get_entry(v, "tracks")?;
        let tracks = match decode_envelope_lenient::<AlbumTrack>(tracks_v) {
            Ok(t) => t,
            Err(_) => {
                return None;
            },
        };
        Some(
            Album {
                id,
                title,
                upc,
                link,
                share_link,
                cover,
                cover_small,
                cover_medium,
                cover_big,
                cover_xl,
                genre_id,
                genres,
                label,
                nb_tracks,
                duration_in_seconds,
                fans,
                rating,
                release_date,
                record_type,
                available,
                alternative_album,
                tracklist_api_url,
                has_explicit_lyrics,
                contributors,
                artist,
                tracks,
            },
        )
    }

    /// Decodes an album record from JSON text: the body of an album
    /// fetch, with the top-level record's `genre_id` sentinel normalized
    /// after the decode. A nested alternative album keeps its `genre_id`
    /// exactly as decoded.
    pub fn new(json: &str) -> (r: Result<Album, DecodeError>)
        ensures
            match parsed_json(json@) {
                None => r matches Err(e) && e == DecodeError::Syntax,
                Some(v) => match spec_album(v) {
                    None => r matches Err(e) && e == DecodeError::Structure,
                    Some(av) => r matches Ok(a) && a@ == spec_album_normalized(av),
                },
            },
    {
        match parse_json(json) {
            None => Err(DecodeError::Syntax),
            Some(v) => match Album::from_json(&v) {
                None => Err(DecodeError::Structure),
                Some(a) => {
                    let mut album = a;
                    album.genre_id = match album.genre_id {
                        Some(g) => if g == -1 {
                            None
                        } else {
                            Some(g)
                        },
                        None => None,
                    };
                    Ok(album)
                },
            },
        }
    }
}

/// Decoding is deterministic and side-effect-free on the record: two
/// successful decodes of the same JSON value are structurally equal
/// album records.
pub proof fn lemma_album_decode_deterministic(v: JsonValue, a: Album, b: Album)
    requires
        spec_album(v) == Some(a@),
        spec_album(v) == Some(b@),
    ensures
        a@ == b@,
{
}

/// URL of the album resource with the given id.
pub open spec fn spec_album_api(id: u32) -> Seq<char> {
    "https://api.deezer.com/album/"@ + spec_digits(id as nat)
}

/// Takes an id and produces the appropriate api url.
pub fn get_album_api(id: u32) -> (r: String)
    ensures
        r@ == spec_album_api(id),
{
    let mut s: String = "https://api.deezer.com/album/".to_owned();
    push_decimal(&mut s, id);
    s
}

} // verus!
