//! The artist resource: the [`Artist`] record and its fetch URL.

use vstd::prelude::*;

use crate::DecodeError;
use crate::json::{JsonValue, parsed_json, parse_json, s_str, s_u32, s_bool, get_str, get_u32,
    get_bool};
use crate::spec_digits;
use crate::push_decimal;

verus! {

/// Full record for an artist resource.
#[derive(Debug, Clone, PartialEq)]
pub struct Artist {
    /// The artist's id in the remote system.
    pub id: u32,
    /// The artist's name.
    pub name: String,
    /// The url of the artist page.
    pub link: String,
    /// The share link of the artist page. Wire name: `share`.
    pub share_link: String,
    /// The url of the artist picture.
    pub picture: String,
    /// The url of the artist picture in size small.
    pub picture_small: String,
    /// The url of the artist picture in size medium.
    pub picture_medium: String,
    /// The url of the artist picture in size big.
    pub picture_big: String,
    /// The url of the artist picture in size xl.
    pub picture_xl: String,
    /// The number of the artist's albums.
    pub nb_album: u32,
    /// The number of the artist's fans.
    pub nb_fan: u32,
    /// True if the artist has a smart radio. Wire name: `radio`.
    pub has_radio: bool,
    /// API link to the top tracks of this artist.
    pub tracklist: String,
}

/// Mathematical model of an [`Artist`].
pub struct ArtistView {
    pub id: u32,
    pub name: Seq<char>,
    pub link: Seq<char>,
    pub share_link: Seq<char>,
    pub picture: Seq<char>,
    pub picture_small: Seq<char>,
    pub picture_medium: Seq<char>,
    pub picture_big: Seq<char>,
    pub picture_xl: Seq<char>,
    pub nb_album: u32,
    pub nb_fan: u32,
    pub has_radio: bool,
    pub tracklist: Seq<char>,
}

impl View for Artist {
    type V = ArtistView;

    open spec fn view(&self) -> ArtistView {
        ArtistView {
            id: self.id,
            name: self.name@,
            link: self.link@,
            share_link: self.share_link@,
            picture: self.picture@,
            picture_small: self.picture_small@,
            picture_medium: self.picture_medium@,
            picture_big: self.picture_big@,
            picture_xl: self.picture_xl@,
            nb_album: self.nb_album,
            nb_fan: self.nb_fan,
            has_radio: self.has_radio,
            tracklist: self.tracklist@,
        }
    }
}

/// The decode of `v` as an artist record, when it succeeds.
pub open spec fn spec_artist(v: JsonValue) -> Option<ArtistView> {
    if s_u32(v, "id"@) is None || s_str(v, "name"@) is None || s_str(v, "link"@) is None || s_str(
        v,
        "share"@,
    ) is None || s_str(v, "picture"@) is None || s_str(v, "picture_small"@) is None || s_str(
        v,
        "picture_medium"@,
    ) is None || s_str(v, "picture_big"@) is None || s_str(v, "picture_xl"@) is None || s_u32(
        v,
        "nb_album"@,
    ) is None || s_u32(v, "nb_fan"@) is None || s_bool(v, "radio"@) is None || s_str(
        v,
        "tracklist"@,
    ) is None {
        None
    } else {
        Some(
            ArtistView {
                id: s_u32(v, "id"@)->0,
                name: s_str(v, "name"@)->0,
                link: s_str(v, "link"@)->0,
                share_link: s_str(v, "share"@)->0,
                picture: s_str(v, "picture"@)->0,
                picture_small: s_str(v, "picture_small"@)->0,
                picture_medium: s_str(v, "picture_medium"@)->0,
                picture_big: s_str(v, "picture_big"@)->0,
                picture_xl: s_str(v, "picture_xl"@)->0,
                nb_album: s_u32(v, "nb_album"@)->0,
                nb_fan: s_u32(v, "nb_fan"@)->0,
                has_radio: s_bool(v, "radio"@)->0,
                tracklist: s_str(v, "tracklist"@)->0,
            },
        )
    }
}

impl Artist {
    /// Decodes an artist record from a JSON value.
    pub fn from_json(v: &JsonValue) -> (r: Option<Artist>)
        ensures
            r matches Some(a) ==> spec_artist(*v) == Some(a@),
            r is None ==> spec_artist(*v) is None,
    {
        let id = get_u32(v, "id")?;
        let name = get_str(v, "name")?;
        let link = get_str(v, "link")?;
        let share_link = get_str(v, "share")?;
        let picture = get_str(v, "picture")?;
        let picture_small = get_str(v, "picture_small")?;
        let picture_medium = get_str(v, "picture_medium")?;
        let picture_big = get_str(v, "picture_big")?;
        let picture_xl = get_str(v, "picture_xl")?;
        let nb_album = get_u32(v, "nb_album")?;
        let nb_fan = get_u32(v, "nb_fan")?;
        let has_radio = get_bool(v, "radio")?;
        let tracklist = get_str(v, "tracklist")?;
        Some(
            Artist {
                id,
                name,
                link,
                share_link,
                picture,
                picture_small,
                picture_medium,
                picture_big,
                picture_xl,
                nb_album,
                nb_fan,
                has_radio,
                tracklist,
            },
        )
    }

    /// Decodes an artist record from JSON text: the body of an artist
    /// fetch.
    pub fn new(json: &str) -> (r: Result<Artist, DecodeError>)
        ensures
            match parsed_json(json@) {
                None => r matches Err(e) && e == DecodeError::Syntax,
                Some(v) => match spec_artist(v) {
                    None => r matches Err(e) && e == DecodeError::Structure,
                    Some(av) => r matches Ok(a) && a@ == av,
                },
            },
    {
        match parse_json(json) {
            None => Err(DecodeError::Syntax),
            Some(v) => match Artist::from_json(&v) {
                None => Err(DecodeError::Structure),
                Some(a) => Ok(a),
            },
        }
    }
}

/// URL of the artist resource with the given id.
pub open spec fn spec_artist_api(id: u32) -> Seq<char> {
    "https://api.deezer.com/artist/"@ + spec_digits(id as nat)
}

/// Takes an id and produces the appropriate api url.
pub fn get_artist_api(id: u32) -> (r: String)
    ensures
        r@ == spec_artist_api(id),
{
    let mut s: String = "https://api.deezer.com/artist/".to_owned();
    push_decimal(&mut s, id);
    s
}

} // verus!
