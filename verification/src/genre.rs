//! The genre resource: the [`Genre`] record and its fetch URL.

use vstd::prelude::*;

use crate::DecodeError;
use crate::json::{JsonValue, parsed_json, parse_json, s_str, s_u32, get_str, get_u32};
use crate::spec_digits;
use crate::push_decimal;

verus! {

/// Full record for a genre resource.
#[derive(Debug, Clone, PartialEq)]
pub struct Genre {
    /// The genre's id in the remote system.
    pub id: u32,
    /// The genre's name.
    pub name: String,
    /// The url of the genre picture.
    pub picture: String,
    /// The url of the genre picture in size small.
    pub picture_small: String,
    /// The url of the genre picture in size medium.
    pub picture_medium: String,
    /// The url of the genre picture in size big.
    pub picture_big: String,
    /// The url of the genre picture in size xl.
    pub picture_xl: String,
}

/// Mathematical model of a [`Genre`].
pub struct GenreView {
    pub id: u32,
    pub name: Seq<char>,
    pub picture: Seq<char>,
    pub picture_small: Seq<char>,
    pub picture_medium: Seq<char>,
    pub picture_big: Seq<char>,
    pub picture_xl: Seq<char>,
}

impl View for Genre {
    type V = GenreView;

    open spec fn view(&self) -> GenreView {
        GenreView {
            id: self.id,
            name: self.name@,
            picture: self.picture@,
            picture_small: self.picture_small@,
            picture_medium: self.picture_medium@,
            picture_big: self.picture_big@,
            picture_xl: self.picture_xl@,
        }
    }
}

/// The decode of `v` as a genre record, when it succeeds.
pub open spec fn spec_genre(v: JsonValue) -> Option<GenreView> {
    if s_u32(v, "id"@) is None || s_str(v, "name"@) is None || s_str(v, "picture"@) is None
        || s_str(v, "picture_small"@) is None || s_str(v, "picture_medium"@) is None || s_str(
        v,
        "picture_big"@,
    ) is None || s_str(v, "picture_xl"@) is None {
        None
    } else {
        Some(
            GenreView {
                id: s_u32(v, "id"@)->0,
                name: s_str(v, "name"@)->0,
                picture: s_str(v, "picture"@)->0,
                picture_small: s_str(v, "picture_small"@)->0,
                picture_medium: s_str(v, "picture_medium"@)->0,
                picture_big: s_str(v, "picture_big"@)->0,
                picture_xl: s_str(v, "picture_xl"@)->0,
            },
        )
    }
}

impl Genre {
    /// Decodes a genre record from a JSON value.
    pub fn from_json(v: &JsonValue) -> (r: Option<Genre>)
        ensures
            r matches Some(g) ==> spec_genre(*v) == Some(g@),
            r is None ==> spec_genre(*v) is None,
    {
        let id = get_u32(v, "id")?;
        let name = get_str(v, "name")?;
        let picture = get_str(v, "picture")?;
        let picture_small = get_str(v, "picture_small")?;
        let picture_medium = get_str(v, "picture_medium")?;
        let picture_big = get_str(v, "picture_big")?;
        let picture_xl = get_str(v, "picture_xl")?;
        Some(Genre { id, name, picture, picture_small, picture_medium, picture_big, picture_xl })
    }

    /// Decodes a genre record from JSON text: the body of a genre fetch.
    pub fn new(json: &str) -> (r: Result<Genre, DecodeError>)
        ensures
            match parsed_json(json@) {
                None => r matches Err(e) && e == DecodeError::Syntax,
                Some(v) => match spec_genre(v) {
                    None => r matches Err(e) && e == DecodeError::Structure,
                    Some(gv) => r matches Ok(g) && g@ == gv,
                },
            },
    {
        match parse_json(json) {
            None => Err(DecodeError::Syntax),
            Some(v) => match Genre::from_json(&v) {
                None => Err(DecodeError::Structure),
                Some(g) => Ok(g),
            },
        }
    }
}

/// URL of the genre resource with the given id.
pub open spec fn spec_genre_api(id: u32) -> Seq<char> {
    "https://api.deezer.com/genre/"@ + spec_digits(id as nat)
}

/// Takes an id and produces the appropriate api url.
pub fn get_genre_api(id: u32) -> (r: String)
    ensures
        r@ == spec_genre_api(id),
{
    let mut s: String = "https://api.deezer.com/genre/".to_owned();
    push_decimal(&mut s, id);
    s
}

} // verus!
