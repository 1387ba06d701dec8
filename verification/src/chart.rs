//! The chart resource: the [`Chart`] record, its nested reference
//! records, and its fetch URL.
//!
//! Every list in a chart is decoded strictly: one element that fails to
//! decode fails the whole chart.

use vstd::prelude::*;

use crate::DecodeError;
use crate::envelope::{FromJson, views_of, s_field_envelope, all_elems_decode, spec_decode_strict,
    decode_envelope_strict};
use crate::json::{JsonValue, parsed_json, parse_json, s_get, s_str, s_u32, s_bool, s_opt_str,
    s_def_u32, opt_view, get_entry, get_str, get_u32, get_bool, get_opt_str, get_def_u32};

verus! {

/// Shortened artist reference embedded in a chart's track.
/// [`ChartTrackArtist::get_full`] gives the URL of the full record.
#[derive(Debug, Clone, PartialEq)]
pub struct ChartTrackArtist {
    /// The artist's id in the remote system.
    pub id: u32,
    /// The artist's name.
    pub name: String,
    /// The url of the artist page.
    pub link: String,
    /// The url of the artist picture.
    pub picture: String,
    /// The url of the artist picture in size small.
    pub picture_small: String,
    /// The url of the artist picture in size medium.
    pub picture_medium: String,
    /// The url of the artist picture in size big.
    pub picture_big: String,
    /// The url of the artist picture in size xl.
    pub picture_xl: String,
    /// True if the artist has a smart radio. Wire name: `radio`.
    pub has_radio: bool,
}

/// Mathematical model of a [`ChartTrackArtist`].
pub struct ChartTrackArtistView {
    pub id: u32,
    pub name: Seq<char>,
    pub link: Seq<char>,
    pub picture: Seq<char>,
    pub picture_small: Seq<char>,
    pub picture_medium: Seq<char>,
    pub picture_big: Seq<char>,
    pub picture_xl: Seq<char>,
    pub has_radio: bool,
}

impl View for ChartTrackArtist {
    type V = ChartTrackArtistView;

    open spec fn view(&self) -> ChartTrackArtistView {
        ChartTrackArtistView {
            id: self.id,
            name: self.name@,
            link: self.link@,
            picture: self.picture@,
            picture_small: self.picture_small@,
            picture_medium: self.picture_medium@,
            picture_big: self.picture_big@,
            picture_xl: self.picture_xl@,
            has_radio: self.has_radio,
        }
    }
}

/// The decode of `v` as a chart track's artist reference, when it
/// succeeds.
pub open spec fn spec_chart_track_artist(v: JsonValue) -> Option<ChartTrackArtistView> {
    if s_u32(v, "id"@) is None || s_str(v, "name"@) is None || s_str(v, "link"@) is None || s_str(
        v,
        "picture"@,
    ) is None || s_str(v, "picture_small"@) is None || s_str(v, "picture_medium"@) is None
        || s_str(v, "picture_big"@) is None || s_str(v, "picture_xl"@) is None || s_bool(
        v,
        "radio"@,
    ) is None {
        None
    } else {
        Some(
            ChartTrackArtistView {
                id: s_u32(v, "id"@)->0,
                name: s_str(v, "name"@)->0,
                link: s_str(v, "link"@)->0,
                picture: s_str(v, "picture"@)->0,
                picture_small: s_str(v, "picture_small"@)->0,
                picture_medium: s_str(v, "picture_medium"@)->0,
                picture_big: s_str(v, "picture_big"@)->0,
                picture_xl: s_str(v, "picture_xl"@)->0,
                has_radio: s_bool(v, "radio"@)->0,
            },
        )
    }
}

impl ChartTrackArtist {
    /// Decodes a chart track's artist reference from a JSON value.
    pub fn from_json(v: &JsonValue) -> (r: Option<ChartTrackArtist>)
        ensures
            r matches Some(a) ==> spec_chart_track_artist(*v) == Some(a@),
            r is None ==> spec_chart_track_artist(*v) is None,
    {
        let id = get_u32(v, "id")?;
        let name = get_str(v, "name")?;
        let link = get_str(v, "link")?;
        let picture = get_str(v, "picture")?;
        let picture_small = get_str(v, "picture_small")?;
        let picture_medium = get_str(v, "picture_medium")?;
        let picture_big = get_str(v, "picture_big")?;
        let picture_xl = get_str(v, "picture_xl")?;
        let has_radio = get_bool(v, "radio")?;
        Some(
            ChartTrackArtist {
                id,
                name,
                link,
                picture,
                picture_small,
                picture_medium,
                picture_big,
                picture_xl,
                has_radio,
            },
        )
    }

    /// URL of the corresponding full [`crate::artist::Artist`] record,
    /// as the top-level artist fetcher would build it for this
    /// reference's id.
    pub fn get_full(&self) -> (r: String)
        ensures
            r@ == crate::artist::spec_artist_api(self.id),
    {
        crate::artist::get_artist_api(self.id)
    }
}

/// Shortened album reference embedded in a chart's track.
/// [`ChartTrackAlbum::get_full`] gives the URL of the full record.
#[derive(Debug, Clone, PartialEq)]
pub struct ChartTrackAlbum {
    /// The album's id in the remote system.
    pub id: u32,
    /// The album title.
    pub title: String,
    /// The url of the album's cover.
    pub cover: String,
    /// The url of the album's cover in size small.
    pub cover_small: String,
    /// The url of the album's cover in size medium.
    pub cover_medium: String,
    /// The url of the album's cover in size big.
    pub cover_big: String,
    /// The url of the album's cover in size xl.
    pub cover_xl: String,
}

/// Mathematical model of a [`ChartTrackAlbum`].
pub struct ChartTrackAlbumView {
    pub id: u32,
    pub title: Seq<char>,
    pub cover: Seq<char>,
    pub cover_small: Seq<char>,
    pub cover_medium: Seq<char>,
    pub cover_big: Seq<char>,
    pub cover_xl: Seq<char>,
}

impl View for ChartTrackAlbum {
    type V = ChartTrackAlbumView;

    open spec fn view(&self) -> ChartTrackAlbumView {
        ChartTrackAlbumView {
            id: self.id,
            title: self.title@,
            cover: self.cover@,
            cover_small: self.cover_small@,
            cover_medium: self.cover_medium@,
            cover_big: self.cover_big@,
            cover_xl: self.cover_xl@,
        }
    }
}

/// The decode of `v` as a chart track's album reference, when it
/// succeeds.
pub open spec fn spec_chart_track_album(v: JsonValue) -> Option<ChartTrackAlbumView> {
    if s_u32(v, "id"@) is None || s_str(v, "title"@) is None || s_str(v, "cover"@) is None
        || s_str(v, "cover_small"@) is None || s_str(v, "cover_medium"@) is None || s_str(
        v,
        "cover_big"@,
    ) is None || s_str(v, "cover_xl"@) is None {
        None
    } else {
        Some(
            ChartTrackAlbumView {
                id: s_u32(v, "id"@)->0,
                title: s_str(v, "title"@)->0,
                cover: s_str(v, "cover"@)->0,
                cover_small: s_str(v, "cover_small"@)->0,
                cover_medium: s_str(v, "cover_medium"@)->0,
                cover_big: s_str(v, "cover_big"@)->0,
                cover_xl: s_str(v, "cover_xl"@)->0,
            },
        )
    }
}

impl ChartTrackAlbum {
    /// Decodes a chart track's album reference from a JSON value.
    pub fn from_json(v: &JsonValue) -> (r: Option<ChartTrackAlbum>)
        ensures
            r matches Some(a) ==> spec_chart_track_album(*v) == Some(a@),
            r is None ==> spec_chart_track_album(*v) is None,
    {
        let id = get_u32(v, "id")?;
        let title = get_str(v, "title")?;
        let cover = get_str(v, "cover")?;
        let cover_small = get_str(v, "cover_small")?;
        let cover_medium = get_str(v, "cover_medium")?;
        let cover_big = get_str(v, "cover_big")?;
        let cover_xl = get_str(v, "cover_xl")?;
        Some(ChartTrackAlbum { id, title, cover, cover_small, cover_medium, cover_big, cover_xl })
    }

    /// URL of the corresponding full [`crate::album::Album`] record, as
    /// the top-level album fetcher would build it for this reference's
    /// id.
    pub fn get_full(&self) -> (r: String)
        ensures
            r@ == crate::album::spec_album_api(self.id),
    {
        crate::album::get_album_api(self.id)
    }
}

/// Shortened track reference listed in a chart.
/// [`ChartTrack::get_full`] gives the URL of the full record.
#[derive(Debug, Clone, PartialEq)]
pub struct ChartTrack {
    /// The track's id in the remote system.
    pub id: u32,
    /// The track's full title.
    pub title: String,
    /// The track's short title.
    pub title_short: String,
    /// The track's version.
    pub title_version: String,
    /// The url of the track page.
    pub link: String,
    /// The track's duration in seconds. Wire name: `duration`.
    pub duration_in_seconds: u32,
    /// The track's rank in the remote system.
    pub rank: u32,
    /// Whether the track contains explicit lyrics. Wire name:
    /// `explicit_lyrics`.
    pub has_explicit_lyrics: bool,
    /// The url of the track's 30-second preview file, when given.
    pub preview_url: Option<String>,
    /// The position of the track in the charts.
    pub position: u32,
    /// The artist this track belongs to.
    pub artist: ChartTrackArtist,
    /// The album this track belongs to.
    pub album: ChartTrackAlbum,
}

/// Mathematical model of a [`ChartTrack`].
pub struct ChartTrackView {
    pub id: u32,
    pub title: Seq<char>,
    pub title_short: Seq<char>,
    pub title_version: Seq<char>,
    pub link: Seq<char>,
    pub duration_in_seconds: u32,
    pub rank: u32,
    pub has_explicit_lyrics: bool,
    pub preview_url: Option<Seq<char>>,
    pub position: u32,
    pub artist: ChartTrackArtistView,
    pub album: ChartTrackAlbumView,
}

impl View for ChartTrack {
    type V = ChartTrackView;

    open spec fn view(&self) -> ChartTrackView {
        ChartTrackView {
            id: self.id,
            title: self.title@,
            title_short: self.title_short@,
            title_version: self.title_version@,
            link: self.link@,
            duration_in_seconds: self.duration_in_seconds,
            rank: self.rank,
            has_explicit_lyrics: self.has_explicit_lyrics,
            preview_url: opt_view(self.preview_url),
            position: self.position,
            artist: self.artist@,
            album: self.album@,
        }
    }
}

/// The decode of `v` as a chart's track reference, when it succeeds.
pub open spec fn spec_chart_track(v: JsonValue) -> Option<ChartTrackView> {
    if s_u32(v, "id"@) is None || s_str(v, "title"@) is None || s_str(v, "title_short"@) is None
        || s_str(v, "title_version"@) is None || s_str(v, "link"@) is None || s_u32(v, "duration"@)
        is None || s_u32(v, "rank"@) is None || s_bool(v, "explicit_lyrics"@) is None || s_opt_str(
        v,
        "preview_url"@,
    ) is None || s_u32(v, "position"@) is None || s_get(v, "artist"@) is None
        || spec_chart_track_artist(s_get(v, "artist"@)->0) is None || s_get(v, "album"@) is None
        || spec_chart_track_album(s_get(v, "album"@)->0) is None {
        None
    } else {
        Some(
            ChartTrackView {
                id: s_u32(v, "id"@)->0,
                title: s_str(v, "title"@)->0,
                title_short: s_str(v, "title_short"@)->0,
                title_version: s_str(v, "title_version"@)->0,
                link: s_str(v, "link"@)->0,
                duration_in_seconds: s_u32(v, "duration"@)->0,
                rank: s_u32(v, "rank"@)->0,
                has_explicit_lyrics: s_bool(v, "explicit_lyrics"@)->0,
                preview_url: s_opt_str(v, "preview_url"@)->0,
                position: s_u32(v, "position"@)->0,
                artist: spec_chart_track_artist(s_get(v, "artist"@)->0)->0,
                album: spec_chart_track_album(s_get(v, "album"@)->0)->0,
            },
        )
    }
}

impl FromJson for ChartTrack {
    open spec fn spec_from_json(v: JsonValue) -> Option<ChartTrackView> {
        spec_chart_track(v)
    }

    fn from_json(v: &JsonValue) -> (r: Option<ChartTrack>) {
        let id = get_u32(v, "id")?;
        let title = get_str(v, "title")?;
        let title_short = get_str(v, "title_short")?;
        let title_version = get_str(v, "title_version")?;
        let link = get_str(v, "link")?;
        let duration_in_seconds = get_u32(v, "duration")?;
        let rank = get_u32(v, "rank")?;
        let has_explicit_lyrics = get_bool(v, "explicit_lyrics")?;
        let preview_url = get_opt_str(v, "preview_url")?;
        let position = get_u32(v, "position")?;
        let artist_v = get_entry(v, "artist")?;
        let artist = ChartTrackArtist::from_json(artist_v)?;
        let album_v = get_entry(v, "album")?;
        let album = ChartTrackAlbum::from_json(album_v)?;
        Some(
            ChartTrack {
                id,
                title,
                title_short,
                title_version,
                link,
                duration_in_seconds,
                rank,
                has_explicit_lyrics,
                preview_url,
                position,
                artist,
                album,
            },
        )
    }
}

impl ChartTrack {
    /// URL of the corresponding full [`crate::track::Track`] record, as
    /// the top-level track fetcher would build it for this reference's
    /// id.
    pub fn get_full(&self) -> (r: String)
        ensures
            r@ == crate::track::spec_track_api(self.id),
    {
        crate::track::get_track_api(self.id)
    }
}

/// Shortened artist reference embedded in a chart's album.
/// [`ChartAlbumArtist::get_full`] gives the URL of the full record.
#[derive(Debug, Clone, PartialEq)]
pub struct ChartAlbumArtist {
    /// The artist's id in the remote system.
    pub id: u32,
    /// The artist's name.
    pub name: String,
    /// The url of the artist page.
    pub link: String,
    /// The url of the artist picture.
    pub picture: String,
    /// The url of the artist picture in size small.
    pub picture_small: String,
    /// The url of the artist picture in size medium.
    pub picture_medium: String,
    /// The url of the artist picture in size big.
    pub picture_big: String,
    /// The url of the artist picture in size xl.
    pub picture_xl: String,
    /// True if the artist has a smart radio. Wire name: `radio`.
    pub has_radio: bool,
}

/// Mathematical model of a [`ChartAlbumArtist`].
pub struct ChartAlbumArtistView {
    pub id: u32,
    pub name: Seq<char>,
    pub link: Seq<char>,
    pub picture: Seq<char>,
    pub picture_small: Seq<char>,
    pub picture_medium: Seq<char>,
    pub picture_big: Seq<char>,
    pub picture_xl: Seq<char>,
    pub has_radio: bool,
}

impl View for ChartAlbumArtist {
    type V = ChartAlbumArtistView;

    open spec fn view(&self) -> ChartAlbumArtistView {
        ChartAlbumArtistView {
            id: self.id,
            name: self.name@,
            link: self.link@,
            picture: self.picture@,
            picture_small: self.picture_small@,
            picture_medium: self.picture_medium@,
            picture_big: self.picture_big@,
            picture_xl: self.picture_xl@,
            has_radio: self.has_radio,
        }
    }
}

/// The decode of `v` as a chart album's artist reference, when it
/// succeeds.
pub open spec fn spec_chart_album_artist(v: JsonValue) -> Option<ChartAlbumArtistView> {
    if s_u32(v, "id"@) is None || s_str(v, "name"@) is None || s_str(v, "link"@) is None || s_str(
        v,
        "picture"@,
    ) is None || s_str(v, "picture_small"@) is None || s_str(v, "picture_medium"@) is None
        || s_str(v, "picture_big"@) is None || s_str(v, "picture_xl"@) is None || s_bool(
        v,
        "radio"@,
    ) is None {
        None
    } else {
        Some(
            ChartAlbumArtistView {
                id: s_u32(v, "id"@)->0,
                name: s_str(v, "name"@)->0,
                link: s_str(v, "link"@)->0,
                picture: s_str(v, "picture"@)->0,
                picture_small: s_str(v, "picture_small"@)->0,
                picture_medium: s_str(v, "picture_medium"@)->0,
                picture_big: s_str(v, "picture_big"@)->0,
                picture_xl: s_str(v, "picture_xl"@)->0,
                has_radio: s_bool(v, "radio"@)->0,
            },
        )
    }
}

impl ChartAlbumArtist {
    /// Decodes a chart album's artist reference from a JSON value.
    pub fn from_json(v: &JsonValue) -> (r: Option<ChartAlbumArtist>)
        ensures
            r matches Some(a) ==> spec_chart_album_artist(*v) == Some(a@),
            r is None ==> spec_chart_album_artist(*v) is None,
    {
        let id = get_u32(v, "id")?;
        let name = get_str(v, "name")?;
        let link = get_str(v, "link")?;
        let picture = get_str(v, "picture")?;
        let picture_small = get_str(v, "picture_small")?;
        let picture_medium = get_str(v, "picture_medium")?;
        let picture_big = get_str(v, "picture_big")?;
        let picture_xl = get_str(v, "picture_xl")?;
        let has_radio = get_bool(v, "radio")?;
        Some(
            ChartAlbumArtist {
                id,
                name,
                link,
                picture,
                picture_small,
                picture_medium,
                picture_big,
                picture_xl,
                has_radio,
            },
        )
    }

    /// URL of the corresponding full [`crate::artist::Artist`] record,
    /// as the top-level artist fetcher would build it for this
    /// reference's id.
    pub fn get_full(&self) -> (r: String)
        ensures
            r@ == crate::artist::spec_artist_api(self.id),
    {
        crate::artist::get_artist_api(self.id)
    }
}

/// Shortened album reference listed in a chart.
/// [`ChartAlbum::get_full`] gives the URL of the full record.
#[derive(Debug, Clone, PartialEq)]
pub struct ChartAlbum {
    /// The album's id in the remote system.
    pub id: u32,
    /// The album title.
    pub title: String,
    /// The url of the album's cover.
    pub cover: String,
    /// The url of the album's cover in size small.
    pub cover_small: String,
    /// The url of the album's cover in size medium.
    pub cover_medium: String,
    /// The url of the album's cover in size big.
    pub cover_big: String,
    /// The url of the album's cover in size xl.
    pub cover_xl: String,
    /// The record type of the album (EP, ALBUM, ...).
    pub record_type: String,
    /// Whether the album contains explicit lyrics. Wire name:
    /// `explicit_lyrics`.
    pub has_explicit_lyrics: bool,
    /// The position of the album in the charts.
    pub position: u32,
    /// The artist this album belongs to.
    pub artist: ChartAlbumArtist,
}

/// Mathematical model of a [`ChartAlbum`].
pub struct ChartAlbumView {
    pub id: u32,
    pub title: Seq<char>,
    pub cover: Seq<char>,
    pub cover_small: Seq<char>,
    pub cover_medium: Seq<char>,
    pub cover_big: Seq<char>,
    pub cover_xl: Seq<char>,
    pub record_type: Seq<char>,
    pub has_explicit_lyrics: bool,
    pub position: u32,
    pub artist: ChartAlbumArtistView,
}

impl View for ChartAlbum {
    type V = ChartAlbumView;

    open spec fn view(&self) -> ChartAlbumView {
        ChartAlbumView {
            id: self.id,
            title: self.title@,
            cover: self.cover@,
            cover_small: self.cover_small@,
            cover_medium: self.cover_medium@,
            cover_big: self.cover_big@,
            cover_xl: self.cover_xl@,
            record_type: self.record_type@,
            has_explicit_lyrics: self.has_explicit_lyrics,
            position: self.position,
            artist: self.artist@,
        }
    }
}

/// The decode of `v` as a chart's album reference, when it succeeds.
pub open spec fn spec_chart_album(v: JsonValue) -> Option<ChartAlbumView> {
    if s_u32(v, "id"@) is None || s_str(v, "title"@) is None || s_str(v, "cover"@) is None
        || s_str(v, "cover_small"@) is None || s_str(v, "cover_medium"@) is None || s_str(
        v,
        "cover_big"@,
    ) is None || s_str(v, "cover_xl"@) is None || s_str(v, "record_type"@) is None || s_bool(
        v,
        "explicit_lyrics"@,
    ) is None || s_u32(v, "position"@) is None || s_get(v, "artist"@) is None
        || spec_chart_album_artist(s_get(v, "artist"@)->0) is None {
        None
    } else {
        Some(
            ChartAlbumView {
                id: s_u32(v, "id"@)->0,
                title: s_str(v, "title"@)->0,
                cover: s_str(v, "cover"@)->0,
                cover_small: s_str(v, "cover_small"@)->0,
                cover_medium: s_str(v, "cover_medium"@)->0,
                cover_big: s_str(v, "cover_big"@)->0,
                cover_xl: s_str(v, "cover_xl"@)->0,
                record_type: s_str(v, "record_type"@)->0,
                has_explicit_lyrics: s_bool(v, "explicit_lyrics"@)->0,
                position: s_u32(v, "position"@)->0,
                artist: spec_chart_album_artist(s_get(v, "artist"@)->0)->0,
            },
        )
    }
}

impl FromJson for ChartAlbum {
    open spec fn spec_from_json(v: JsonValue) -> Option<ChartAlbumView> {
        spec_chart_album(v)
    }

    fn from_json(v: &JsonValue) -> (r: Option<ChartAlbum>) {
        let id = get_u32(v, "id")?;
        let title = get_str(v, "title")?;
        let cover = get_str(v, "cover")?;
        let cover_small = get_str(v, "cover_small")?;
        let cover_medium = get_str(v, "cover_medium")?;
        let cover_big = get_str(v, "cover_big")?;
        let cover_xl = get_str(v, "cover_xl")?;
        let record_type = get_str(v, "record_type")?;
        let has_explicit_lyrics = get_bool(v, "explicit_lyrics")?;
        let position = get_u32(v, "position")?;
        let artist_v = get_entry(v, "artist")?;
        let artist = ChartAlbumArtist::from_json(artist_v)?;
        Some(
            ChartAlbum {
                id,
                title,
                cover,
                cover_small,
                cover_medium,
                cover_big,
                cover_xl,
                record_type,
                has_explicit_lyrics,
                position,
                artist,
            },
        )
    }
}

impl ChartAlbum {
    /// URL of the corresponding full [`crate::album::Album`] record, as
    /// the top-level album fetcher would build it for this reference's
    /// id.
    pub fn get_full(&self) -> (r: String)
        ensures
            r@ == crate::album::spec_album_api(self.id),
    {
        crate::album::get_album_api(self.id)
    }
}

/// Shortened artist reference listed in a chart.
/// [`ChartArtist::get_full`] gives the URL of the full record.
#[derive(Debug, Clone, PartialEq)]
pub struct ChartArtist {
    /// The artist's id in the remote system.
    pub id: u32,
    /// The artist's name.
    pub name: String,
    /// The url of the artist page.
    pub link: String,
    /// The url of the artist picture.
    pub picture: String,
    /// The url of the artist picture in size small.
    pub picture_small: String,
    /// The url of the artist picture in size medium.
    pub picture_medium: String,
    /// The url of the artist picture in size big.
    pub picture_big: String,
    /// The url of the artist picture in size xl.
    pub picture_xl: String,
    /// True if the artist has a smart radio. Wire name: `radio`.
    pub has_radio: bool,
    /// The position of the artist in the charts.
    pub position: u32,
}

/// Mathematical model of a [`ChartArtist`].
pub struct ChartArtistView {
    pub id: u32,
    pub name: Seq<char>,
    pub link: Seq<char>,
    pub picture: Seq<char>,
    pub picture_small: Seq<char>,
    pub picture_medium: Seq<char>,
    pub picture_big: Seq<char>,
    pub picture_xl: Seq<char>,
    pub has_radio: bool,
    pub position: u32,
}

impl View for ChartArtist {
    type V = ChartArtistView;

    open spec fn view(&self) -> ChartArtistView {
        ChartArtistView {
            id: self.id,
            name: self.name@,
            link: self.link@,
            picture: self.picture@,
            picture_small: self.picture_small@,
            picture_medium: self.picture_medium@,
            picture_big: self.picture_big@,
            picture_xl: self.picture_xl@,
            has_radio: self.has_radio,
            position: self.position,
        }
    }
}

/// The decode of `v` as a chart's artist reference, when it succeeds.
pub open spec fn spec_chart_artist(v: JsonValue) -> Option<ChartArtistView> {
    if s_u32(v, "id"@) is None || s_str(v, "name"@) is None || s_str(v, "link"@) is None || s_str(
        v,
        "picture"@,
    ) is None || s_str(v, "picture_small"@) is None || s_str(v, "picture_medium"@) is None
        || s_str(v, "picture_big"@) is None || s_str(v, "picture_xl"@) is None || s_bool(
        v,
        "radio"@,
    ) is None || s_u32(v, "position"@) is None {
        None
    } else {
        Some(
            ChartArtistView {
                id: s_u32(v, "id"@)->0,
                name: s_str(v, "name"@)->0,
                link: s_str(v, "link"@)->0,
                picture: s_str(v, "picture"@)->0,
                picture_small: s_str(v, "picture_small"@)->0,
                picture_medium: s_str(v, "picture_medium"@)->0,
                picture_big: s_str(v, "picture_big"@)->0,
                picture_xl: s_str(v, "picture_xl"@)->0,
                has_radio: s_bool(v, "radio"@)->0,
                position: s_u32(v, "position"@)->0,
            },
        )
    }
}

impl FromJson for ChartArtist {
    open spec fn spec_from_json(v: JsonValue) -> Option<ChartArtistView> {
        spec_chart_artist(v)
    }

    fn from_json(v: &JsonValue) -> (r: Option<ChartArtist>) {
        let id = get_u32(v, "id")?;
        let name = get_str(v, "name")?;
        let link = get_str(v, "link")?;
        let picture = get_str(v, "picture")?;
        let picture_small = get_str(v, "picture_small")?;
        let picture_medium = get_str(v, "picture_medium")?;
        let picture_big = get_str(v, "picture_big")?;
        let picture_xl = get_str(v, "picture_xl")?;
        let has_radio = get_bool(v, "radio")?;
        let position = get_u32(v, "position")?;
        Some(
            ChartArtist {
                id,
                name,
                link,
                picture,
                picture_small,
                picture_medium,
                picture_big,
                picture_xl,
                has_radio,
                position,
            },
        )
    }
}

impl ChartArtist {
    /// URL of the corresponding full [`crate::artist::Artist`] record,
    /// as the top-level artist fetcher would build it for this
    /// reference's id.
    pub fn get_full(&self) -> (r: String)
        ensures
            r@ == crate::artist::spec_artist_api(self.id),
    {
        crate::artist::get_artist_api(self.id)
    }
}

/// Shortened user reference embedded in a chart's playlist.
/// [`ChartPlaylistUser::get_full`] gives the URL of the full record.
#[derive(Debug, Clone, PartialEq)]
pub struct ChartPlaylistUser {
    /// The user's id in the remote system.
    pub id: u32,
    /// The user's nickname.
    pub name: String,
}

/// Mathematical model of a [`ChartPlaylistUser`].
pub struct ChartPlaylistUserView {
    pub id: u32,
    pub name: Seq<char>,
}

impl View for ChartPlaylistUser {
    type V = ChartPlaylistUserView;

    open spec fn view(&self) -> ChartPlaylistUserView {
        ChartPlaylistUserView { id: self.id, name: self.name@ }
    }
}

/// The decode of `v` as a chart playlist's user reference, when it
/// succeeds.
pub open spec fn spec_chart_playlist_user(v: JsonValue) -> Option<ChartPlaylistUserView> {
    if s_u32(v, "id"@) is None || s_str(v, "name"@) is None {
        None
    } else {
        Some(ChartPlaylistUserView { id: s_u32(v, "id"@)->0, name: s_str(v, "name"@)->0 })
    }
}

impl ChartPlaylistUser {
    /// Decodes a chart playlist's user reference from a JSON value.
    pub fn from_json(v: &JsonValue) -> (r: Option<ChartPlaylistUser>)
        ensures
            r matches Some(u) ==> spec_chart_playlist_user(*v) == Some(u@),
            r is None ==> spec_chart_playlist_user(*v) is None,
    {
        let id = get_u32(v, "id")?;
        let name = get_str(v, "name")?;
        Some(ChartPlaylistUser { id, name })
    }

    /// URL of the corresponding full [`crate::user::User`] record, as
    /// the top-level user fetcher would build it for this reference's
    /// id.
    pub fn get_full(&self) -> (r: String)
        ensures
            r@ == crate::user::spec_user_api(self.id),
    {
        crate::user::get_user_api(self.id)
    }
}

/// Shortened playlist reference listed in a chart.
/// [`ChartPlaylist::get_full`] gives the URL of the full record.
#[derive(Debug, Clone, PartialEq)]
pub struct ChartPlaylist {
    /// The playlist's id in the remote system.
    pub id: u32,
    /// The playlist's title.
    pub title: String,
    /// Whether the playlist is public. Wire name: `public`.
    pub is_public: bool,
    /// The url of the playlist page.
    pub link: String,
    /// The url of the playlist's cover.
    pub picture: String,
    /// The url of the playlist's cover in size small.
    pub picture_small: String,
    /// The url of the playlist's cover in size medium.
    pub picture_medium: String,
    /// The url of the playlist's cover in size big.
    pub picture_big: String,
    /// The url of the playlist's cover in size xl.
    pub picture_xl: String,
    /// The position of the playlist in the charts; zero when missing.
    pub position: u32,
    /// The user who created the playlist.
    pub user: ChartPlaylistUser,
}

/// Mathematical model of a [`ChartPlaylist`].
pub struct ChartPlaylistView {
    pub id: u32,
    pub title: Seq<char>,
    pub is_public: bool,
    pub link: Seq<char>,
    pub picture: Seq<char>,
    pub picture_small: Seq<char>,
    pub picture_medium: Seq<char>,
    pub picture_big: Seq<char>,
    pub picture_xl: Seq<char>,
    pub position: u32,
    pub user: ChartPlaylistUserView,
}

impl View for ChartPlaylist {
    type V = ChartPlaylistView;

    open spec fn view(&self) -> ChartPlaylistView {
        ChartPlaylistView {
            id: self.id,
            title: self.title@,
            is_public: self.is_public,
            link: self.link@,
            picture: self.picture@,
            picture_small: self.picture_small@,
            picture_medium: self.picture_medium@,
            picture_big: self.picture_big@,
            picture_xl: self.picture_xl@,
            position: self.position,
            user: self.user@,
        }
    }
}

/// The decode of `v` as a chart's playlist reference, when it succeeds.
pub open spec fn spec_chart_playlist(v: JsonValue) -> Option<ChartPlaylistView> {
    if s_u32(v, "id"@) is None || s_str(v, "title"@) is None || s_bool(v, "public"@) is None
        || s_str(v, "link"@) is None || s_str(v, "picture"@) is None || s_str(v, "picture_small"@)
        is None || s_str(v, "picture_medium"@) is None || s_str(v, "picture_big"@) is None
        || s_str(v, "picture_xl"@) is None || s_def_u32(v, "position"@) is None || s_get(
        v,
        "user"@,
    ) is None || spec_chart_playlist_user(s_get(v, "user"@)->0) is None {
        None
    } else {
        Some(
            ChartPlaylistView {
                id: s_u32(v, "id"@)->0,
                title: s_str(v, "title"@)->0,
                is_public: s_bool(v, "public"@)->0,
                link: s_str(v, "link"@)->0,
                picture: s_str(v, "picture"@)->0,
                picture_small: s_str(v, "picture_small"@)->0,
                picture_medium: s_str(v, "picture_medium"@)->0,
                picture_big: s_str(v, "picture_big"@)->0,
                picture_xl: s_str(v, "picture_xl"@)->0,
                position: s_def_u32(v, "position"@)->0,
                user: spec_chart_playlist_user(s_get(v, "user"@)->0)->0,
            },
        )
    }
}

impl FromJson for ChartPlaylist {
    open spec fn spec_from_json(v: JsonValue) -> Option<ChartPlaylistView> {
        spec_chart_playlist(v)
    }

    fn from_json(v: &JsonValue) -> (r: Option<ChartPlaylist>) {
        let id = get_u32(v, "id")?;
        let title = get_str(v, "title")?;
        let is_public = get_bool(v, "public")?;
        let link = get_str(v, "link")?;
        let picture = get_str(v, "picture")?;
        let picture_small = get_str(v, "picture_small")?;
        let picture_medium = get_str(v, "picture_medium")?;
        let picture_big = get_str(v, "picture_big")?;
        let picture_xl = get_str(v, "picture_xl")?;
        let position = get_def_u32(v, "position")?;
        let user_v = get_entry(v, "user")?;
        let user = ChartPlaylistUser::from_json(user_v)?;
        Some(
            ChartPlaylist {
                id,
                title,
                is_public,
                link,
                picture,
                picture_small,
                picture_medium,
                picture_big,
                picture_xl,
                position,
                user,
            },
        )
    }
}

impl ChartPlaylist {
    /// URL of the corresponding full [`crate::playlist::Playlist`]
    /// record, as the top-level playlist fetcher would build it for this
    /// reference's id.
    pub fn get_full(&self) -> (r: String)
        ensures
            r@ == crate::playlist::spec_playlist_api(self.id),
    {
        crate::playlist::get_playlist_api(self.id)
    }
}

/// Full record for the chart resource.
#[derive(Debug, Clone, PartialEq)]
pub struct Chart {
    /// The chart's tracks, from a `data` envelope, decoded strictly.
    pub tracks: Vec<ChartTrack>,
    /// The chart's albums, from a `data` envelope, decoded strictly.
    pub albums: Vec<ChartAlbum>,
    /// The chart's artists, from a `data` envelope, decoded strictly.
    pub artists: Vec<ChartArtist>,
    /// The chart's playlists, from a `data` envelope, decoded strictly.
    pub playlists: Vec<ChartPlaylist>,
}

/// Mathematical model of a [`Chart`].
pub struct ChartView {
    pub tracks: Seq<ChartTrackView>,
    pub albums: Seq<ChartAlbumView>,
    pub artists: Seq<ChartArtistView>,
    pub playlists: Seq<ChartPlaylistView>,
}

impl View for Chart {
    type V = ChartView;

    open spec fn view(&self) -> ChartView {
        ChartView {
            tracks: views_of(self.tracks@),
            albums: views_of(self.albums@),
            artists: views_of(self.artists@),
            playlists: views_of(self.playlists@),
        }
    }
}

/// The decode of `v` as a chart record, when it succeeds: every list is
/// decoded strictly, so one failing element fails the whole chart.
pub open spec fn spec_chart(v: JsonValue) -> Option<ChartView> {
    if s_field_envelope(v, "tracks"@) is None || !all_elems_decode::<ChartTrack>(
        s_field_envelope(v, "tracks"@)->0,
    ) || s_field_envelope(v, "albums"@) is None || !all_elems_decode::<ChartAlbum>(
        s_field_envelope(v, "albums"@)->0,
    ) || s_field_envelope(v, "artists"@) is None || !all_elems_decode::<ChartArtist>(
        s_field_envelope(v, "artists"@)->0,
    ) || s_field_envelope(v, "playlists"@) is None || !all_elems_decode::<ChartPlaylist>(
        s_field_envelope(v, "playlists"@)->0,
    ) {
        None
    } else {
        Some(
            ChartView {
                tracks: spec_decode_strict::<ChartTrack>(s_field_envelope(v, "tracks"@)->0),
                albums: spec_decode_strict::<ChartAlbum>(s_field_envelope(v, "albums"@)->0),
                artists: spec_decode_strict::<ChartArtist>(s_field_envelope(v, "artists"@)->0),
                playlists: spec_decode_strict::<ChartPlaylist>(
                    s_field_envelope(v, "playlists"@)->0,
                ),
            },
        )
    }
}

impl Chart {
    /// Decodes a chart record from a JSON value.
    pub fn from_json(v: &JsonValue) -> (r: Option<Chart>)
        ensures
            r matches Some(c) ==> spec_chart(*v) == Some(c@),
            r is None ==> spec_chart(*v) is None,
    {
        let tracks_v = get_entry(v, "tracks")?;
        let tracks = match decode_envelope_strict::<ChartTrack>(tracks_v) {
            Ok(t) => t,
            Err(_) => {
                return None;
            },
        };
        let albums_v = get_entry(v, "albums")?;
        let albums = match decode_envelope_strict::<ChartAlbum>(albums_v) {
            Ok(a) => a,
            Err(_) => {
                return None;
            },
        };
        let artists_v = get_entry(v, "artists")?;
        let artists = match decode_envelope_strict::<ChartArtist>(artists_v) {
            Ok(a) => a,
            Err(_) => {
                return None;
            },
        };
        let playlists_v = get_entry(v, "playlists")?;
        let playlists = match decode_envelope_strict::<ChartPlaylist>(playlists_v) {
            Ok(p) => p,
            Err(_) => {
                return None;
            },
        };
        Some(Chart { tracks, albums, artists, playlists })
    }

    /// Decodes a chart record from JSON text: the body of a chart fetch.
    pub fn new(json: &str) -> (r: Result<Chart, DecodeError>)
        ensures
            match parsed_json(json@) {
                None => r matches Err(e) && e == DecodeError::Syntax,
                Some(v) => match spec_chart(v) {
                    None => r matches Err(e) && e == DecodeError::Structure,
                    Some(cv) => r matches Ok(c) && c@ == cv,
                },
            },
    {
        match parse_json(json) {
            None => Err(DecodeError::Syntax),
            Some(v) => match Chart::from_json(&v) {
                None => Err(DecodeError::Structure),
                Some(c) => Ok(c),
            },
        }
    }
}

/// URL of the chart resource.
pub open spec fn spec_chart_api() -> Seq<char> {
    "https://api.deezer.com/chart"@
}

/// Produces the appropriate api url.
pub fn get_chart_api() -> (r: String)
    ensures
        r@ == spec_chart_api(),
{
    "https://api.deezer.com/chart".to_owned()
}

} // verus!
