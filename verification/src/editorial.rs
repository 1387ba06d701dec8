//! The editorial resource: the [`Editorial`] record and its fetch URL.

use vstd::prelude::*;

use crate::DecodeError;
use crate::json::{JsonValue, parsed_json, parse_json, s_str, s_u32, get_str, get_u32};
use crate::spec_digits;
use crate::push_decimal;

verus! {

/// Full record for an editorial resource.
#[derive(Debug, Clone, PartialEq)]
pub struct Editorial {
    /// The editorial's id in the remote system.
    pub id: u32,
    /// The editorial's name.
    pub name: String,
    /// The url of the editorial picture.
    pub picture: String,
    /// The url of the editorial picture in size small.
    pub picture_small: String,
    /// The url of the editorial picture in size medium.
    pub picture_medium: String,
    /// The url of the editorial picture in size big.
    pub picture_big: String,
    /// The url of the editorial picture in size xl.
    pub picture_xl: String,
}

/// Mathematical model of an [`Editorial`].
pub struct EditorialView {
    pub id: u32,
    pub name: Seq<char>,
    pub picture: Seq<char>,
    pub picture_small: Seq<char>,
    pub picture_medium: Seq<char>,
    pub picture_big: Seq<char>,
    pub picture_xl: Seq<char>,
}

impl View for Editorial {
    type V = EditorialView;

    open spec fn view(&self) -> EditorialView {
        EditorialView {
            id: self.id,
            name: self.name@,
            picture: self.picture@,
            picture_small: self.picture_small@,
            picture_medium: self.picture_medium@,
            picture_big: self.picture_big@,
            picture_xl: self.picture_xl@,
        }
    }
}

/// The decode of `v` as an editorial record, when it succeeds.
pub open spec fn spec_editorial(v: JsonValue) -> Option<EditorialView> {
    if s_u32(v, "id"@) is None || s_str(v, "name"@) is None || s_str(v, "picture"@) is None
        || s_str(v, "picture_small"@) is None || s_str(v, "picture_medium"@) is None || s_str(
        v,
        "picture_big"@,
    ) is None || s_str(v, "picture_xl"@) is None {
        None
    } else {
        Some(
            EditorialView {
                id: s_u32(v, "id"@)->0,
                name: s_str(v, "name"@)->0,
                picture: s_str(v, "picture"@)->0,
                picture_small: s_str(v, "picture_small"@)->0,
                picture_medium: s_str(v, "picture_medium"@)->0,
                picture_big: s_str(v, "picture_big"@)->0,
                picture_xl: s_str(v, "picture_xl"@)->0,
            },
        )
    }
}

impl Editorial {
    /// Decodes an editorial record from a JSON value.
    pub fn from_json(v: &JsonValue) -> (r: Option<Editorial>)
        ensures
            r matches Some(e) ==> spec_editorial(*v) == Some(e@),
            r is None ==> spec_editorial(*v) is None,
    {
        let id = get_u32(v, "id")?;
        let name = get_str(v, "name")?;
        let picture = get_str(v, "picture")?;
        let picture_small = get_str(v, "picture_small")?;
        let picture_medium = get_str(v, "picture_medium")?;
        let picture_big = get_str(v, "picture_big")?;
        let picture_xl = get_str(v, "picture_xl")?;
        Some(
            Editorial { id, name, picture, picture_small, picture_medium, picture_big, picture_xl },
        )
    }

    /// Decodes an editorial record from JSON text: the body of an
    /// editorial fetch.
    pub fn new(json: &str) -> (r: Result<Editorial, DecodeError>)
        ensures
            match parsed_json(json@) {
                None => r matches Err(e) && e == DecodeError::Syntax,
                Some(v) => match spec_editorial(v) {
                    None => r matches Err(e) && e == DecodeError::Structure,
                    Some(ev) => r matches Ok(e) && e@ == ev,
                },
            },
    {
        match parse_json(json) {
            None => Err(DecodeError::Syntax),
            Some(v) => match Editorial::from_json(&v) {
                None => Err(DecodeError::Structure),
                Some(e) => Ok(e),
            },
        }
    }
}

/// URL of the editorial resource with the given id.
pub open spec fn spec_editorial_api(id: u32) -> Seq<char> {
    "https://api.deezer.com/editorial/"@ + spec_digits(id as nat)
}

/// Takes an id and produces the appropriate api url.
pub fn get_editorial_api(id: u32) -> (r: String)
    ensures
        r@ == spec_editorial_api(id),
{
    let mut s: String = "https://api.deezer.com/editorial/".to_owned();
    push_decimal(&mut s, id);
    s
}

} // verus!
