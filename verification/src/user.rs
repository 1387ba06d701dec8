//! The user resource: the [`User`] record and its fetch URL.

use vstd::prelude::*;

use crate::DecodeError;
use crate::json::{JsonValue, parsed_json, parse_json, s_str, s_u32, s_bool, s_def_str, s_def_u32,
    s_def_bool, get_str, get_u32, get_def_str, get_def_u32, get_def_bool};
use crate::spec_digits;
use crate::push_decimal;

verus! {

/// Full record for a user resource.
#[derive(Debug, Clone, PartialEq)]
pub struct User {
    /// The user's id in the remote system.
    pub id: u32,
    /// The user's nickname.
    pub name: String,
    /// The user's last name. Wire name: `lastname`; empty when missing.
    pub last_name: String,
    /// The user's first name. Wire name: `firstname`; empty when missing.
    pub first_name: String,
    /// The user's email; empty when missing.
    pub email: String,
    /// The user's status; zero when missing.
    pub status: u32,
    /// The user's birthday; empty when missing.
    pub birthday: String,
    /// The user's inscription date; empty when missing.
    pub inscription_date: String,
    /// The user's gender, F or M; empty when missing.
    pub gender: String,
    /// The url of the user's profile page.
    pub link: String,
    /// The url of the user's profile picture.
    pub picture: String,
    /// The url of the user's profile picture in size small.
    pub picture_small: String,
    /// The url of the user's profile picture in size medium.
    pub picture_medium: String,
    /// The url of the user's profile picture in size big.
    pub picture_big: String,
    /// The url of the user's profile picture in size xl.
    pub picture_xl: String,
    /// The user's country.
    pub country: String,
    /// The user's language; empty when missing.
    pub lang: String,
    /// Whether the user is a kid; false when missing.
    pub is_kid: bool,
    /// API link to the flow of this user. Wire name: `tracklist`.
    pub track_list: String,
}

/// Mathematical model of a [`User`].
pub struct UserView {
    pub id: u32,
    pub name: Seq<char>,
    pub last_name: Seq<char>,
    pub first_name: Seq<char>,
    pub email: Seq<char>,
    pub status: u32,
    pub birthday: Seq<char>,
    pub inscription_date: Seq<char>,
    pub gender: Seq<char>,
    pub link: Seq<char>,
    pub picture: Seq<char>,
    pub picture_small: Seq<char>,
    pub picture_medium: Seq<char>,
    pub picture_big: Seq<char>,
    pub picture_xl: Seq<char>,
    pub country: Seq<char>,
    pub lang: Seq<char>,
    pub is_kid: bool,
    pub track_list: Seq<char>,
}

impl View for User {
    type V = UserView;

    open spec fn view(&self) -> UserView {
        UserView {
            id: self.id,
            name: self.name@,
            last_name: self.last_name@,
            first_name: self.first_name@,
            email: self.email@,
            status: self.status,
            birthday: self.birthday@,
            inscription_date: self.inscription_date@,
            gender: self.gender@,
            link: self.link@,
            picture: self.picture@,
            picture_small: self.picture_small@,
            picture_medium: self.picture_medium@,
            picture_big: self.picture_big@,
            picture_xl: self.picture_xl@,
            country: self.country@,
            lang: self.lang@,
            is_kid: self.is_kid,
            track_list: self.track_list@,
        }
    }
}

/// The decode of `v` as a user record, when it succeeds.
pub open spec fn spec_user(v: JsonValue) -> Option<UserView> {
    if s_u32(v, "id"@) is None || s_str(v, "name"@) is None || s_def_str(v, "lastname"@) is None
        || s_def_str(v, "firstname"@) is None || s_def_str(v, "email"@) is None || s_def_u32(
        v,
        "status"@,
    ) is None || s_def_str(v, "birthday"@) is None || s_def_str(v, "inscription_date"@) is None
        || s_def_str(v, "gender"@) is None || s_str(v, "link"@) is None || s_str(v, "picture"@)
        is None || s_str(v, "picture_small"@) is None || s_str(v, "picture_medium"@) is None
        || s_str(v, "picture_big"@) is None || s_str(v, "picture_xl"@) is None || s_str(
        v,
        "country"@,
    ) is None || s_def_str(v, "lang"@) is None || s_def_bool(v, "is_kid"@) is None || s_str(
        v,
        "tracklist"@,
    ) is None {
        None
    } else {
        Some(
            UserView {
                id: s_u32(v, "id"@)->0,
                name: s_str(v, "name"@)->0,
                last_name: s_def_str(v, "lastname"@)->0,
                first_name: s_def_str(v, "firstname"@)->0,
                email: s_def_str(v, "email"@)->0,
                status: s_def_u32(v, "status"@)->0,
                birthday: s_def_str(v, "birthday"@)->0,
                inscription_date: s_def_str(v, "inscription_date"@)->0,
                gender: s_def_str(v, "gender"@)->0,
                link: s_str(v, "link"@)->0,
                picture: s_str(v, "picture"@)->0,
                picture_small: s_str(v, "picture_small"@)->0,
                picture_medium: s_str(v, "picture_medium"@)->0,
                picture_big: s_str(v, "picture_big"@)->0,
                picture_xl: s_str(v, "picture_xl"@)->0,
                country: s_str(v, "country"@)->0,
                lang: s_def_str(v, "lang"@)->0,
                is_kid: s_def_bool(v, "is_kid"@)->0,
                track_list: s_str(v, "tracklist"@)->0,
            },
        )
    }
}

impl User {
    /// Decodes a user record from a JSON value.
    pub fn from_json(v: &JsonValue) -> (r: Option<User>)
        ensures
            r matches Some(u) ==> spec_user(*v) == Some(u@),
            r is None ==> spec_user(*v) is None,
    {
        let id = get_u32(v, "id")?;
        let name = get_str(v, "name")?;
        let last_name = get_def_str(v, "lastname")?;
        let first_name = get_def_str(v, "firstname")?;
        let email = get_def_str(v, "email")?;
        let status = get_def_u32(v, "status")?;
        let birthday = get_def_str(v, "birthday")?;
        let inscription_date = get_def_str(v, "inscription_date")?;
        let gender = get_def_str(v, "gender")?;
        let link = get_str(v, "link")?;
        let picture = get_str(v, "picture")?;
        let picture_small = get_str(v, "picture_small")?;
        let picture_medium = get_str(v, "picture_medium")?;
        let picture_big = get_str(v, "picture_big")?;
        let picture_xl = get_str(v, "picture_xl")?;
        let country = get_str(v, "country")?;
        let lang = get_def_str(v, "lang")?;
        let is_kid = get_def_bool(v, "is_kid")?;
        let track_list = get_str(v, "tracklist")?;
        Some(
            User {
                id,
                name,
                last_name,
                first_name,
                email,
                status,
                birthday,
                inscription_date,
                gender,
                link,
                picture,
                picture_small,
                picture_medium,
                picture_big,
                picture_xl,
                country,
                lang,
                is_kid,
                track_list,
            },
        )
    }

    /// Decodes a user record from JSON text: the body of a user fetch.
    pub fn new(json: &str) -> (r: Result<User, DecodeError>)
        ensures
            match parsed_json(json@) {
                None => r matches Err(e) && e == DecodeError::Syntax,
                Some(v) => match spec_user(v) {
                    None => r matches Err(e) && e == DecodeError::Structure,
                    Some(uv) => r matches Ok(u) && u@ == uv,
                },
            },
    {
        match parse_json(json) {
            None => Err(DecodeError::Syntax),
            Some(v) => match User::from_json(&v) {
                None => Err(DecodeError::Structure),
                Some(u) => Ok(u),
            },
        }
    }
}

/// URL of the user resource with the given id.
pub open spec fn spec_user_api(id: u32) -> Seq<char> {
    "https://api.deezer.com/user/"@ + spec_digits(id as nat)
}

/// Takes an id and produces the appropriate api url.
pub fn get_user_api(id: u32) -> (r: String)
    ensures
        r@ == spec_user_api(id),
{
    let mut s: String = "https://api.deezer.com/user/".to_owned();
    push_decimal(&mut s, id);
    s
}

} // verus!
