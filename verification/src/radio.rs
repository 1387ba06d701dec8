//! The radio resource: the [`Radio`] record and its fetch URL.

use vstd::prelude::*;

use crate::DecodeError;
use crate::json::{JsonValue, parsed_json, parse_json, s_str, s_u32, get_str, get_u32};
use crate::spec_digits;
use crate::push_decimal;

verus! {

/// Full record for a radio resource.
#[derive(Debug, Clone, PartialEq)]
pub struct Radio {
    /// The radio's id in the remote system.
    pub id: u32,
    /// The radio title.
    pub title: String,
    /// The radio description.
    pub description: String,
    /// The share link of the radio page. Wire name: `share`.
    pub share_link: String,
    /// The url of the radio picture.
    pub picture: String,
    /// The url of the radio picture in size small.
    pub picture_small: String,
    /// The url of the radio picture in size medium.
    pub picture_medium: String,
    /// The url of the radio picture in size big.
    pub picture_big: String,
    /// The url of the radio picture in size xl.
    pub picture_xl: String,
    /// API link to the tracklist of this radio. Wire name: `tracklist`.
    pub track_list: String,
}

/// Mathematical model of a [`Radio`].
pub struct RadioView {
    pub id: u32,
    pub title: Seq<char>,
    pub description: Seq<char>,
    pub share_link: Seq<char>,
    pub picture: Seq<char>,
    pub picture_small: Seq<char>,
    pub picture_medium: Seq<char>,
    pub picture_big: Seq<char>,
    pub picture_xl: Seq<char>,
    pub track_list: Seq<char>,
}

impl View for Radio {
    type V = RadioView;

    open spec fn view(&self) -> RadioView {
        RadioView {
            id: self.id,
            title: self.title@,
            description: self.description@,
            share_link: self.share_link@,
            picture: self.picture@,
            picture_small: self.picture_small@,
            picture_medium: self.picture_medium@,
            picture_big: self.picture_big@,
            picture_xl: self.picture_xl@,
            track_list: self.track_list@,
        }
    }
}

/// The decode of `v` as a radio record, when it succeeds.
pub open spec fn spec_radio(v: JsonValue) -> Option<RadioView> {
    if s_u32(v, "id"@) is None || s_str(v, "title"@) is None || s_str(v, "description"@) is None
        || s_str(v, "share"@) is None || s_str(v, "picture"@) is None || s_str(v, "picture_small"@)
        is None || s_str(v, "picture_medium"@) is None || s_str(v, "picture_big"@) is None || s_str(
        v,
        "picture_xl"@,
    ) is None || s_str(v, "tracklist"@) is None {
        None
    } else {
        Some(
            RadioView {
                id: s_u32(v, "id"@)->0,
                title: s_str(v, "title"@)->0,
                description: s_str(v, "description"@)->0,
                share_link: s_str(v, "share"@)->0,
                picture: s_str(v, "picture"@)->0,
                picture_small: s_str(v, "picture_small"@)->0,
                picture_medium: s_str(v, "picture_medium"@)->0,
                picture_big: s_str(v, "picture_big"@)->0,
                picture_xl: s_str(v, "picture_xl"@)->0,
                track_list: s_str(v, "tracklist"@)->0,
            },
        )
    }
}

impl Radio {
    /// Decodes a radio record from a JSON value.
    pub fn from_json(v: &JsonValue) -> (r: Option<Radio>)
        ensures
            r matches Some(x) ==> spec_radio(*v) == Some(x@),
            r is None ==> spec_radio(*v) is None,
    {
        let id = get_u32(v, "id")?;
        let title = get_str(v, "title")?;
        let description = get_str(v, "description")?;
        let share_link = get_str(v, "share")?;
        let picture = get_str(v, "picture")?;
        let picture_small = get_str(v, "picture_small")?;
        let picture_medium = get_str(v, "picture_medium")?;
        let picture_big = get_str(v, "picture_big")?;
        let picture_xl = get_str(v, "picture_xl")?;
        let track_list = get_str(v, "tracklist")?;
        Some(
            Radio {
                id,
                title,
                description,
                share_link,
                picture,
                picture_small,
                picture_medium,
                picture_big,
                picture_xl,
                track_list,
            },
        )
    }

    /// Decodes a radio record from JSON text: the body of a radio fetch.
    pub fn new(json: &str) -> (r: Result<Radio, DecodeError>)
        ensures
            match parsed_json(json@) {
                None => r matches Err(e) && e == DecodeError::Syntax,
                Some(v) => match spec_radio(v) {
                    None => r matches Err(e) && e == DecodeError::Structure,
                    Some(rv) => r matches Ok(x) && x@ == rv,
                },
            },
    {
        match parse_json(json) {
            None => Err(DecodeError::Syntax),
            Some(v) => match Radio::from_json(&v) {
                None => Err(DecodeError::Structure),
                Some(x) => Ok(x),
            },
        }
    }
}

/// URL of the radio resource with the given id.
pub open spec fn spec_radio_api(id: u32) -> Seq<char> {
    "https://api.deezer.com/radio/"@ + spec_digits(id as nat)
}

/// Takes an id and produces the appropriate api url.
pub fn get_radio_api(id: u32) -> (r: String)
    ensures
        r@ == spec_radio_api(id),
{
    let mut s: String = "https://api.deezer.com/radio/".to_owned();
    push_decimal(&mut s, id);
    s
}

} // verus!
