//! The track resource: the [`Track`] record, its nested reference
//! records, and its fetch URL.

use vstd::prelude::*;

use crate::DecodeError;
use crate::envelope::{FromJson, views_of, s_field_arr, all_elems_decode, spec_decode_strict,
    decode_array_strict};
use crate::json::{JsonValue, JsonNumber, JsonNumberView, parsed_json, parse_json, s_get, s_str,
    s_u32, s_bool, s_num, s_opt_str, s_opt_u32, s_opt_bool, opt_view, get_entry, get_str, get_u32,
    get_bool, get_num, get_opt_str, get_opt_u32, get_opt_bool};
use crate::spec_digits;
use crate::push_decimal;

verus! {

/// Shortened artist reference listed among a track's contributors.
/// [`ContributorArtist::get_full`] gives the URL of the full record.
#[derive(Debug, Clone, PartialEq)]
pub struct ContributorArtist {
    /// The artist's id in the remote system.
    pub id: u32,
    /// The artist's name.
    pub name: String,
    /// The url of the artist page.
    pub link: String,
    /// The share link of the artist page. Wire name: `share`.
    pub share_link: String,
    /// The url of the artist picture in size small.
    pub picture_small: String,
    /// The url of the artist picture in size medium.
    pub picture_medium: String,
    /// The url of the artist picture in size big.
    pub picture_big: String,
    /// The url of the artist picture in size xl.
    pub picture_xl: String,
    /// True if the artist has a smart radio. Wire name: `radio`.
    pub has_radio: bool,
    /// API link to the top tracks of this artist.
    pub tracklist: String,
}

/// Mathematical model of a [`ContributorArtist`].
pub struct ContributorArtistView {
    pub id: u32,
    pub name: Seq<char>,
    pub link: Seq<char>,
    pub share_link: Seq<char>,
    pub picture_small: Seq<char>,
    pub picture_medium: Seq<char>,
    pub picture_big: Seq<char>,
    pub picture_xl: Seq<char>,
    pub has_radio: bool,
    pub tracklist: Seq<char>,
}

impl View for ContributorArtist {
    type V = ContributorArtistView;

    open spec fn view(&self) -> ContributorArtistView {
        ContributorArtistView {
            id: self.id,
            name: self.name@,
            link: self.link@,
            share_link: self.share_link@,
            picture_small: self.picture_small@,
            picture_medium: self.picture_medium@,
            picture_big: self.picture_big@,
            picture_xl: self.picture_xl@,
            has_radio: self.has_radio,
            tracklist: self.tracklist@,
        }
    }
}

/// The decode of `v` as a contributor reference, when it succeeds.
pub open spec fn spec_contributor_artist(v: JsonValue) -> Option<ContributorArtistView> {
    if s_u32(v, "id"@) is None || s_str(v, "name"@) is None || s_str(v, "link"@) is None || s_str(
        v,
        "share"@,
    ) is None || s_str(v, "picture_small"@) is None || s_str(v, "picture_medium"@) is None || s_str(
        v,
        "picture_big"@,
    ) is None || s_str(v, "picture_xl"@) is None || s_bool(v, "radio"@) is None || s_str(
        v,
        "tracklist"@,
    ) is None {
        None
    } else {
        Some(
            ContributorArtistView {
                id: s_u32(v, "id"@)->0,
                name: s_str(v, "name"@)->0,
                link: s_str(v, "link"@)->0,
                share_link: s_str(v, "share"@)->0,
                picture_small: s_str(v, "picture_small"@)->0,
                picture_medium: s_str(v, "picture_medium"@)->0,
                picture_big: s_str(v, "picture_big"@)->0,
                picture_xl: s_str(v, "picture_xl"@)->0,
                has_radio: s_bool(v, "radio"@)->0,
                tracklist: s_str(v, "tracklist"@)->0,
            },
        )
    }
}

impl FromJson for ContributorArtist {
    open spec fn spec_from_json(v: JsonValue) -> Option<ContributorArtistView> {
        spec_contributor_artist(v)
    }

    fn from_json(v: &JsonValue) -> (r: Option<ContributorArtist>) {
        let id = get_u32(v, "id")?;
        let name = get_str(v, "name")?;
        let link = get_str(v, "link")?;
        let share_link = get_str(v, "share")?;
        let picture_small = get_str(v, "picture_small")?;
        let picture_medium = get_str(v, "picture_medium")?;
        let picture_big = get_str(v, "picture_big")?;
        let picture_xl = get_str(v, "picture_xl")?;
        let has_radio = get_bool(v, "radio")?;
        let tracklist = get_str(v, "tracklist")?;
        Some(
            ContributorArtist {
                id,
                name,
                link,
                share_link,
                picture_small,
                picture_medium,
                picture_big,
                picture_xl,
                has_radio,
                tracklist,
            },
        )
    }
}

impl ContributorArtist {
    /// URL of the corresponding full [`crate::artist::Artist`] record, as
    /// the top-level artist fetcher would build it for this reference's
    /// id.
    pub fn get_full(&self) -> (r: String)
        ensures
            r@ == crate::artist::spec_artist_api(self.id),
    {
        crate::artist::get_artist_api(self.id)
    }
}

/// Shortened artist reference embedded in a track.
/// [`TrackArtist::get_full`] gives the URL of the full record.
#[derive(Debug, Clone, PartialEq)]
pub struct TrackArtist {
    /// The artist's id in the remote system.
    pub id: u32,
    /// The artist's name.
    pub name: String,
    /// The url of the artist page.
    pub link: String,
    /// The share link of the artist page. Wire name: `share`.
    pub share_link: String,
    /// The url of the artist picture.
    pub picture: String,
    /// The url of the artist picture in size small.
    pub picture_small: String,
    /// The url of the artist picture in size medium.
    pub picture_medium: String,
    /// The url of the artist picture in size big.
    pub picture_big: String,
    /// The url of the artist picture in size xl.
    pub picture_xl: String,
    /// The number of the artist's albums, when given.
    pub nb_album: Option<u32>,
    /// The number of the artist's fans, when given.
    pub nb_fan: Option<u32>,
    /// True if the artist has a smart radio. Wire name: `radio`.
    pub has_radio: bool,
    /// API link to the top tracks of this artist.
    pub tracklist: String,
}

/// Mathematical model of a [`TrackArtist`].
pub struct TrackArtistView {
    pub id: u32,
    pub name: Seq<char>,
    pub link: Seq<char>,
    pub share_link: Seq<char>,
    pub picture: Seq<char>,
    pub picture_small: Seq<char>,
    pub picture_medium: Seq<char>,
    pub picture_big: Seq<char>,
    pub picture_xl: Seq<char>,
    pub nb_album: Option<u32>,
    pub nb_fan: Option<u32>,
    pub has_radio: bool,
    pub tracklist: Seq<char>,
}

impl View for TrackArtist {
    type V = TrackArtistView;

    open spec fn view(&self) -> TrackArtistView {
        TrackArtistView {
            id: self.id,
            name: self.name@,
            link: self.link@,
            share_link: self.share_link@,
            picture: self.picture@,
            picture_small: self.picture_small@,
            picture_medium: self.picture_medium@,
            picture_big: self.picture_big@,
            picture_xl: self.picture_xl@,
            nb_album: self.nb_album,
            nb_fan: self.nb_fan,
            has_radio: self.has_radio,
            tracklist: self.tracklist@,
        }
    }
}

/// The decode of `v` as a track's artist reference, when it succeeds.
pub open spec fn spec_track_artist(v: JsonValue) -> Option<TrackArtistView> {
    if s_u32(v, "id"@) is None || s_str(v, "name"@) is None || s_str(v, "link"@) is None || s_str(
        v,
        "share"@,
    ) is None || s_str(v, "picture"@) is None || s_str(v, "picture_small"@) is None || s_str(
        v,
        "picture_medium"@,
    ) is None || s_str(v, "picture_big"@) is None || s_str(v, "picture_xl"@) is None || s_opt_u32(
        v,
        "nb_album"@,
    ) is None || s_opt_u32(v, "nb_fan"@) is None || s_bool(v, "radio"@) is None || s_str(
        v,
        "tracklist"@,
    ) is None {
        None
    } else {
        Some(
            TrackArtistView {
                id: s_u32(v, "id"@)->0,
                name: s_str(v, "name"@)->0,
                link: s_str(v, "link"@)->0,
                share_link: s_str(v, "share"@)->0,
                picture: s_str(v, "picture"@)->0,
                picture_small: s_str(v, "picture_small"@)->0,
                picture_medium: s_str(v, "picture_medium"@)->0,
                picture_big: s_str(v, "picture_big"@)->0,
                picture_xl: s_str(v, "picture_xl"@)->0,
                nb_album: s_opt_u32(v, "nb_album"@)->0,
                nb_fan: s_opt_u32(v, "nb_fan"@)->0,
                has_radio: s_bool(v, "radio"@)->0,
                tracklist: s_str(v, "tracklist"@)->0,
            },
        )
    }
}

impl TrackArtist {
    /// Decodes a track's artist reference from a JSON value.
    pub fn from_json(v: &JsonValue) -> (r: Option<TrackArtist>)
        ensures
            r matches Some(a) ==> spec_track_artist(*v) == Some(a@),
            r is None ==> spec_track_artist(*v) is None,
    {
        let id = get_u32(v, "id")?;
        let name = get_str(v, "name")?;
        let link = get_str(v, "link")?;
        let share_link = get_str(v, "share")?;
        let picture = get_str(v, "picture")?;
        let picture_small = get_str(v, "picture_small")?;
        let picture_medium = get_str(v, "picture_medium")?;
        let picture_big = get_str(v, "picture_big")?;
        let picture_xl = get_str(v, "picture_xl")?;
        let nb_album = get_opt_u32(v, "nb_album")?;
        let nb_fan = get_opt_u32(v, "nb_fan")?;
        let has_radio = get_bool(v, "radio")?;
        let tracklist = get_str(v, "tracklist")?;
        Some(
            TrackArtist {
                id,
                name,
                link,
                share_link,
                picture,
                picture_small,
                picture_medium,
                picture_big,
                picture_xl,
                nb_album,
                nb_fan,
                has_radio,
                tracklist,
            },
        )
    }

    /// URL of the corresponding full [`crate::artist::Artist`] record, as
    /// the top-level artist fetcher would build it for this reference's
    /// id.
    pub fn get_full(&self) -> (r: String)
        ensures
            r@ == crate::artist::spec_artist_api(self.id),
    {
        crate::artist::get_artist_api(self.id)
    }
}

/// Shortened album reference embedded in a track.
/// [`TrackAlbum::get_full`] gives the URL of the full record.
#[derive(Debug, Clone, PartialEq)]
pub struct TrackAlbum {
    /// The album's id in the remote system.
    pub id: u32,
    /// The album title.
    pub title: String,
    /// The url of the album page.
    pub link: String,
    /// The url of the album's cover.
    pub cover: String,
    /// The url of the album's cover in size small.
    pub cover_small: String,
    /// The url of the album's cover in size medium.
    pub cover_medium: String,
    /// The url of the album's cover in size big.
    pub cover_big: String,
    /// The url of the album's cover in size xl.
    pub cover_xl: String,
    /// The album's release date.
    pub release_date: String,
}

/// Mathematical model of a [`TrackAlbum`].
pub struct TrackAlbumView {
    pub id: u32,
    pub title: Seq<char>,
    pub link: Seq<char>,
    pub cover: Seq<char>,
    pub cover_small: Seq<char>,
    pub cover_medium: Seq<char>,
    pub cover_big: Seq<char>,
    pub cover_xl: Seq<char>,
    pub release_date: Seq<char>,
}

impl View for TrackAlbum {
    type V = TrackAlbumView;

    open spec fn view(&self) -> TrackAlbumView {
        TrackAlbumView {
            id: self.id,
            title: self.title@,
            link: self.link@,
            cover: self.cover@,
            cover_small: self.cover_small@,
            cover_medium: self.cover_medium@,
            cover_big: self.cover_big@,
            cover_xl: self.cover_xl@,
            release_date: self.release_date@,
        }
    }
}

/// The decode of `v` as a track's album reference, when it succeeds.
pub open spec fn spec_track_album(v: JsonValue) -> Option<TrackAlbumView> {
    if s_u32(v, "id"@) is None || s_str(v, "title"@) is None || s_str(v, "link"@) is None || s_str(
        v,
        "cover"@,
    ) is None || s_str(v, "cover_small"@) is None || s_str(v, "cover_medium"@) is None || s_str(
        v,
        "cover_big"@,
    ) is None || s_str(v, "cover_xl"@) is None || s_str(v, "release_date"@) is None {
        None
    } else {
        Some(
            TrackAlbumView {
                id: s_u32(v, "id"@)->0,
                title: s_str(v, "title"@)->0,
                link: s_str(v, "link"@)->0,
                cover: s_str(v, "cover"@)->0,
                cover_small: s_str(v, "cover_small"@)->0,
                cover_medium: s_str(v, "cover_medium"@)->0,
                cover_big: s_str(v, "cover_big"@)->0,
                cover_xl: s_str(v, "cover_xl"@)->0,
                release_date: s_str(v, "release_date"@)->0,
            },
        )
    }
}

impl TrackAlbum {
    /// Decodes a track's album reference from a JSON value.
    pub fn from_json(v: &JsonValue) -> (r: Option<TrackAlbum>)
        ensures
            r matches Some(a) ==> spec_track_album(*v) == Some(a@),
            r is None ==> spec_track_album(*v) is None,
    {
        let id = get_u32(v, "id")?;
        let title = get_str(v, "title")?;
        let link = get_str(v, "link")?;
        let cover = get_str(v, "cover")?;
        let cover_small = get_str(v, "cover_small")?;
        let cover_medium = get_str(v, "cover_medium")?;
        let cover_big = get_str(v, "cover_big")?;
        let cover_xl = get_str(v, "cover_xl")?;
        let release_date = get_str(v, "release_date")?;
        Some(
            TrackAlbum {
                id,
                title,
                link,
                cover,
                cover_small,
                cover_medium,
                cover_big,
                cover_xl,
                release_date,
            },
        )
    }

    /// URL of the corresponding full [`crate::album::Album`] record, as
    /// the top-level album fetcher would build it for this reference's
    /// id.
    pub fn get_full(&self) -> (r: String)
        ensures
            r@ == crate::album::spec_album_api(self.id),
    {
        crate::album::get_album_api(self.id)
    }
}

/// Full record for a track resource.
#[derive(Debug, Clone, PartialEq)]
pub struct Track {
    /// The track's id in the remote system.
    pub id: u32,
    /// True if the track is readable in the player for the current user.
    pub readable: bool,
    /// The track's full title.
    pub title: String,
    /// The track's short title.
    pub title_short: String,
    /// The track's version.
    pub title_version: String,
    /// The track's unseen status, when given.
    pub unseen: Option<bool>,
    /// The track's isrc.
    pub isrc: String,
    /// The url of the track page.
    pub link: String,
    /// The share link of the track page. Wire name: `share`.
    pub share_link: String,
    /// The track's duration in seconds. Wire name: `duration`.
    pub duration_in_seconds: u32,
    /// The position of the track in its album. Wire name:
    /// `track_position`.
    pub track_position_in_album: u32,
    /// The track's album's disk number. Wire name: `disk_number`.
    pub album_disk_number: u32,
    /// The track's rank in the remote system.
    pub rank: u32,
    /// The track's release date.
    pub release_date: String,
    /// Whether the track contains explicit lyrics. Wire name:
    /// `explicit_lyrics`.
    pub has_explicit_lyrics: bool,
    /// The url of the track's 30-second preview file, when given.
    pub preview_url: Option<String>,
    /// Beats per minute, kept as the JSON number it arrived as.
    pub bpm: JsonNumber,
    /// Signal strength, kept as the JSON number it arrived as.
    pub gain: JsonNumber,
    /// List of countries where the track is available.
    pub available_countries: Vec<String>,
    /// Id of an alternative readable track, when the current track is not
    /// readable. Wire name: `alternative`.
    pub alternative_track_id: Option<u32>,
    /// The contributors on the track.
    pub contributors: Vec<ContributorArtist>,
    /// The artist this track belongs to.
    pub artist: TrackArtist,
    /// The album this track belongs to.
    pub album: TrackAlbum,
}

/// Mathematical model of a [`Track`].
pub struct TrackView {
    pub id: u32,
    pub readable: bool,
    pub title: Seq<char>,
    pub title_short: Seq<char>,
    pub title_version: Seq<char>,
    pub unseen: Option<bool>,
    pub isrc: Seq<char>,
    pub link: Seq<char>,
    pub share_link: Seq<char>,
    pub duration_in_seconds: u32,
    pub track_position_in_album: u32,
    pub album_disk_number: u32,
    pub rank: u32,
    pub release_date: Seq<char>,
    pub has_explicit_lyrics: bool,
    pub preview_url: Option<Seq<char>>,
    pub bpm: JsonNumberView,
    pub gain: JsonNumberView,
    pub available_countries: Seq<Seq<char>>,
    pub alternative_track_id: Option<u32>,
    pub contributors: Seq<ContributorArtistView>,
    pub artist: TrackArtistView,
    pub album: TrackAlbumView,
}

impl View for Track {
    type V = TrackView;

    open spec fn view(&self) -> TrackView {
        TrackView {
            id: self.id,
            readable: self.readable,
            title: self.title@,
            title_short: self.title_short@,
            title_version: self.title_version@,
            unseen: self.unseen,
            isrc: self.isrc@,
            link: self.link@,
            share_link: self.share_link@,
            duration_in_seconds: self.duration_in_seconds,
            track_position_in_album: self.track_position_in_album,
            album_disk_number: self.album_disk_number,
            rank: self.rank,
            release_date: self.release_date@,
            has_explicit_lyrics: self.has_explicit_lyrics,
            preview_url: opt_view(self.preview_url),
            bpm: self.bpm@,
            gain: self.gain@,
            available_countries: views_of(self.available_countries@),
            alternative_track_id: self.alternative_track_id,
            contributors: views_of(self.contributors@),
            artist: self.artist@,
            album: self.album@,
        }
    }
}

/// The decode of `v` as a track record, when it succeeds.
pub open spec fn spec_track(v: JsonValue) -> Option<TrackView> {
    if s_u32(v, "id"@) is None || s_bool(v, "readable"@) is None || s_str(v, "title"@) is None
        || s_str(v, "title_short"@) is None || s_str(v, "title_version"@) is None || s_opt_bool(
        v,
        "unseen"@,
    ) is None || s_str(v, "isrc"@) is None || s_str(v, "link"@) is None || s_str(v, "share"@)
        is None || s_u32(v, "duration"@) is None || s_u32(v, "track_position"@) is None || s_u32(
        v,
        "disk_number"@,
    ) is None || s_u32(v, "rank"@) is None || s_str(v, "release_date"@) is None || s_bool(
        v,
        "explicit_lyrics"@,
    ) is None || s_opt_str(v, "preview_url"@) is None || s_num(v, "bpm"@) is None || s_num(
        v,
        "gain"@,
    ) is None || s_field_arr(v, "available_countries"@) is None || !all_elems_decode::<String>(
        s_field_arr(v, "available_countries"@)->0,
    ) || s_opt_u32(v, "alternative"@) is None || s_field_arr(v, "contributors"@) is None
        || !all_elems_decode::<ContributorArtist>(s_field_arr(v, "contributors"@)->0) || s_get(
        v,
        "artist"@,
    ) is None || spec_track_artist(s_get(v, "artist"@)->0) is None || s_get(v, "album"@) is None
        || spec_track_album(s_get(v, "album"@)->0) is None {
        None
    } else {
        Some(
            TrackView {
                id: s_u32(v, "id"@)->0,
                readable: s_bool(v, "readable"@)->0,
                title: s_str(v, "title"@)->0,
                title_short: s_str(v, "title_short"@)->0,
                title_version: s_str(v, "title_version"@)->0,
                unseen: s_opt_bool(v, "unseen"@)->0,
                isrc: s_str(v, "isrc"@)->0,
                link: s_str(v, "link"@)->0,
                share_link: s_str(v, "share"@)->0,
                duration_in_seconds: s_u32(v, "duration"@)->0,
                track_position_in_album: s_u32(v, "track_position"@)->0,
                album_disk_number: s_u32(v, "disk_number"@)->0,
                rank: s_u32(v, "rank"@)->0,
                release_date: s_str(v, "release_date"@)->0,
                has_explicit_lyrics: s_bool(v, "explicit_lyrics"@)->0,
                preview_url: s_opt_str(v, "preview_url"@)->0,
                bpm: s_num(v, "bpm"@)->0,
                gain: s_num(v, "gain"@)->0,
                available_countries: spec_decode_strict::<String>(
                    s_field_arr(v, "available_countries"@)->0,
                ),
                alternative_track_id: s_opt_u32(v, "alternative"@)->0,
                contributors: spec_decode_strict::<ContributorArtist>(
                    s_field_arr(v, "contributors"@)->0,
                ),
                artist: spec_track_artist(s_get(v, "artist"@)->0)->0,
                album: spec_track_album(s_get(v, "album"@)->0)->0,
            },
        )
    }
}

impl Track {
    /// Decodes a track record from a JSON value.
    pub fn from_json(v: &JsonValue) -> (r: Option<Track>)
        ensures
            r matches Some(t) ==> spec_track(*v) == Some(t@),
            r is None ==> spec_track(*v) is None,
    {
        let id = get_u32(v, "id")?;
        let readable = get_bool(v, "readable")?;
        let title = get_str(v, "title")?;
        let title_short = get_str(v, "title_short")?;
        let title_version = get_str(v, "title_version")?;
        let unseen = get_opt_bool(v, "unseen")?;
        let isrc = get_str(v, "isrc")?;
        let link = get_str(v, "link")?;
        let share_link = get_str(v, "share")?;
        let duration_in_seconds = get_u32(v, "duration")?;
        let track_position_in_album = get_u32(v, "track_position")?;
        let album_disk_number = get_u32(v, "disk_number")?;
        let rank = get_u32(v, "rank")?;
        let release_date = get_str(v, "release_date")?;
        let has_explicit_lyrics = get_bool(v, "explicit_lyrics")?;
        let preview_url = get_opt_str(v, "preview_url")?;
        let bpm = get_num(v, "bpm")?;
        let gain = get_num(v, "gain")?;
        let countries_v = get_entry(v, "available_countries")?;
        let available_countries = match decode_array_strict::<String>(countries_v) {
            Ok(c) => c,
            Err(_) => {
                return None;
            },
        };
        let alternative_track_id = get_opt_u32(v, "alternative")?;
        let contributors_v = get_entry(v, "contributors")?;
        let contributors = match decode_array_strict::<ContributorArtist>(contributors_v) {
            Ok(c) => c,
            Err(_) => {
                return None;
            },
        };
        let artist_v = get_entry(v, "artist")?;
        let artist = TrackArtist::from_json(artist_v)?;
        let album_v = get_entry(v, "album")?;
        let album = TrackAlbum::from_json(album_v)?;
        Some(
            Track {
                id,
                readable,
                title,
                title_short,
                title_version,
                unseen,
                isrc,
                link,
                share_link,
                duration_in_seconds,
                track_position_in_album,
                album_disk_number,
                rank,
                release_date,
                has_explicit_lyrics,
                preview_url,
                bpm,
                gain,
                available_countries,
                alternative_track_id,
                contributors,
                artist,
                album,
            },
        )
    }

    /// Decodes a track record from JSON text: the body of a track fetch.
    pub fn new(json: &str) -> (r: Result<Track, DecodeError>)
        ensures
            match parsed_json(json@) {
                None => r matches Err(e) && e == DecodeError::Syntax,
                Some(v) => match spec_track(v) {
                    None => r matches Err(e) && e == DecodeError::Structure,
                    Some(tv) => r matches Ok(t) && t@ == tv,
                },
            },
    {
        match parse_json(json) {
            None => Err(DecodeError::Syntax),
            Some(v) => match Track::from_json(&v) {
                None => Err(DecodeError::Structure),
                Some(t) => Ok(t),
            },
        }
    }
}

/// Decoding is deterministic and side-effect-free on the record: two
/// successful decodes of the same JSON value are structurally equal
/// track records.
pub proof fn lemma_track_decode_deterministic(v: JsonValue, a: Track, b: Track)
    requires
        spec_track(v) == Some(a@),
        spec_track(v) == Some(b@),
    ensures
        a@ == b@,
{
}

/// URL of the track resource with the given id.
pub open spec fn spec_track_api(id: u32) -> Seq<char> {
    "https://api.deezer.com/track/"@ + spec_digits(id as nat)
}

/// Takes an id and produces the appropriate api url.
pub fn get_track_api(id: u32) -> (r: String)
    ensures
        r@ == spec_track_api(id),
{
    let mut s: String = "https://api.deezer.com/track/".to_owned();
    push_decimal(&mut s, id);
    s
}

} // verus!
