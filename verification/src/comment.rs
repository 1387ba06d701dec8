//! The comment resource: the [`Comment`] record, its nested reference
//! records, and its fetch URL.

use vstd::prelude::*;

use crate::DecodeError;
use crate::json::{JsonValue, parsed_json, parse_json, s_get, s_str, s_u32, get_entry, get_str,
    get_u32};
use crate::spec_digits;
use crate::push_decimal;

verus! {

/// Shortened user reference for a comment's author.
/// [`CommentAuthor::get_full`] gives the URL of the full record.
#[derive(Debug, Clone, PartialEq)]
pub struct CommentAuthor {
    /// The user's id in the remote system.
    pub id: u32,
    /// The user's nickname.
    pub name: String,
    /// The url of the user's profile page.
    pub link: String,
    /// The url of the user's profile picture.
    pub picture: String,
    /// The url of the user's profile picture in size small.
    pub picture_small: String,
    /// The url of the user's profile picture in size medium.
    pub picture_medium: String,
    /// The url of the user's profile picture in size big.
    pub picture_big: String,
    /// The url of the user's profile picture in size xl.
    pub picture_xl: String,
}

/// Mathematical model of a [`CommentAuthor`].
pub struct CommentAuthorView {
    pub id: u32,
    pub name: Seq<char>,
    pub link: Seq<char>,
    pub picture: Seq<char>,
    pub picture_small: Seq<char>,
    pub picture_medium: Seq<char>,
    pub picture_big: Seq<char>,
    pub picture_xl: Seq<char>,
}

impl View for CommentAuthor {
    type V = CommentAuthorView;

    open spec fn view(&self) -> CommentAuthorView {
        CommentAuthorView {
            id: self.id,
            name: self.name@,
            link: self.link@,
            picture: self.picture@,
            picture_small: self.picture_small@,
            picture_medium: self.picture_medium@,
            picture_big: self.picture_big@,
            picture_xl: self.picture_xl@,
        }
    }
}

/// The decode of `v` as a comment's author reference, when it succeeds.
pub open spec fn spec_comment_author(v: JsonValue) -> Option<CommentAuthorView> {
    if s_u32(v, "id"@) is None || s_str(v, "name"@) is None || s_str(v, "link"@) is None || s_str(
        v,
        "picture"@,
    ) is None || s_str(v, "picture_small"@) is None || s_str(v, "picture_medium"@) is None
        || s_str(v, "picture_big"@) is None || s_str(v, "picture_xl"@) is None {
        None
    } else {
        Some(
            CommentAuthorView {
                id: s_u32(v, "id"@)->0,
                name: s_str(v, "name"@)->0,
                link: s_str(v, "link"@)->0,
                picture: s_str(v, "picture"@)->0,
                picture_small: s_str(v, "picture_small"@)->0,
                picture_medium: s_str(v, "picture_medium"@)->0,
                picture_big: s_str(v, "picture_big"@)->0,
                picture_xl: s_str(v, "picture_xl"@)->0,
            },
        )
    }
}

impl CommentAuthor {
    /// Decodes a comment's author reference from a JSON value.
    pub fn from_json(v: &JsonValue) -> (r: Option<CommentAuthor>)
        ensures
            r matches Some(a) ==> spec_comment_author(*v) == Some(a@),
            r is None ==> spec_comment_author(*v) is None,
    {
        let id = get_u32(v, "id")?;
        let name = get_str(v, "name")?;
        let link = get_str(v, "link")?;
        let picture = get_str(v, "picture")?;
        let picture_small = get_str(v, "picture_small")?;
        let picture_medium = get_str(v, "picture_medium")?;
        let picture_big = get_str(v, "picture_big")?;
        let picture_xl = get_str(v, "picture_xl")?;
        Some(
            CommentAuthor {
                id,
                name,
                link,
                picture,
                picture_small,
                picture_medium,
                picture_big,
                picture_xl,
            },
        )
    }

    /// URL of the corresponding full [`crate::user::User`] record, as
    /// the top-level user fetcher would build it for this reference's
    /// id.
    pub fn get_full(&self) -> (r: String)
        ensures
            r@ == crate::user::spec_user_api(self.id),
    {
        crate::user::get_user_api(self.id)
    }
}

/// The object a comment belongs to: an id and a type, the type being
/// `artist`, `album` or `playlist`.
#[derive(Debug, Clone, PartialEq)]
pub struct CommentParent {
    /// The id of the object the comment belongs to.
    pub id: String,
    /// The type of the object the comment belongs to. Wire name: `type`.
    pub object_type: String,
}

/// Mathematical model of a [`CommentParent`].
pub struct CommentParentView {
    pub id: Seq<char>,
    pub object_type: Seq<char>,
}

impl View for CommentParent {
    type V = CommentParentView;

    open spec fn view(&self) -> CommentParentView {
        CommentParentView { id: self.id@, object_type: self.object_type@ }
    }
}

/// The decode of `v` as a comment's parent object, when it succeeds.
pub open spec fn spec_comment_parent(v: JsonValue) -> Option<CommentParentView> {
    if s_str(v, "id"@) is None || s_str(v, "type"@) is None {
        None
    } else {
        Some(CommentParentView { id: s_str(v, "id"@)->0, object_type: s_str(v, "type"@)->0 })
    }
}

impl CommentParent {
    /// Decodes a comment's parent object from a JSON value.
    pub fn from_json(v: &JsonValue) -> (r: Option<CommentParent>)
        ensures
            r matches Some(p) ==> spec_comment_parent(*v) == Some(p@),
            r is None ==> spec_comment_parent(*v) is None,
    {
        let id = get_str(v, "id")?;
        let object_type = get_str(v, "type")?;
        Some(CommentParent { id, object_type })
    }
}

/// Full record for a comment resource.
#[derive(Debug, Clone, PartialEq)]
pub struct Comment {
    /// The comment's id in the remote system.
    pub id: u32,
    /// The content of the comment.
    pub text: String,
    /// The date the comment was posted.
    pub date: u32,
    /// The object the comment belongs to.
    pub object: CommentParent,
    /// The user this comment belongs to.
    pub author: CommentAuthor,
}

/// Mathematical model of a [`Comment`].
pub struct CommentView {
    pub id: u32,
    pub text: Seq<char>,
    pub date: u32,
    pub object: CommentParentView,
    pub author: CommentAuthorView,
}

impl View for Comment {
    type V = CommentView;

    open spec fn view(&self) -> CommentView {
        CommentView {
            id: self.id,
            text: self.text@,
            date: self.date,
            object: self.object@,
            author: self.author@,
        }
    }
}

/// The decode of `v` as a comment record, when it succeeds.
pub open spec fn spec_comment(v: JsonValue) -> Option<CommentView> {
    if s_u32(v, "id"@) is None || s_str(v, "text"@) is None || s_u32(v, "date"@) is None || s_get(
        v,
        "object"@,
    ) is None || spec_comment_parent(s_get(v, "object"@)->0) is None || s_get(v, "author"@) is None
        || spec_comment_author(s_get(v, "author"@)->0) is None {
        None
    } else {
        Some(
            CommentView {
                id: s_u32(v, "id"@)->0,
                text: s_str(v, "text"@)->0,
                date: s_u32(v, "date"@)->0,
                object: spec_comment_parent(s_get(v, "object"@)->0)->0,
                author: spec_comment_author(s_get(v, "author"@)->0)->0,
            },
        )
    }
}

impl Comment {
    /// Decodes a comment record from a JSON value.
    pub fn from_json(v: &JsonValue) -> (r: Option<Comment>)
        ensures
            r matches Some(c) ==> spec_comment(*v) == Some(c@),
            r is None ==> spec_comment(*v) is None,
    {
        let id = get_u32(v, "id")?;
        let text = get_str(v, "text")?;
        let date = get_u32(v, "date")?;
        let object_v = get_entry(v, "object")?;
        let object = CommentParent::from_json(object_v)?;
        let author_v = get_entry(v, "author")?;
        let author = CommentAuthor::from_json(author_v)?;
        Some(Comment { id, text, date, object, author })
    }

    /// Decodes a comment record from JSON text: the body of a comment
    /// fetch.
    pub fn new(json: &str) -> (r: Result<Comment, DecodeError>)
        ensures
            match parsed_json(json@) {
                None => r matches Err(e) && e == DecodeError::Syntax,
                Some(v) => match spec_comment(v) {
                    None => r matches Err(e) && e == DecodeError::Structure,
                    Some(cv) => r matches Ok(c) && c@ == cv,
                },
            },
    {
        match parse_json(json) {
            None => Err(DecodeError::Syntax),
            Some(v) => match Comment::from_json(&v) {
                None => Err(DecodeError::Structure),
                Some(c) => Ok(c),
            },
        }
    }
}

/// URL of the comment resource with the given id.
pub open spec fn spec_comment_api(id: u32) -> Seq<char> {
    "https://api.deezer.com/comment/"@ + spec_digits(id as nat)
}

/// Takes an id and produces the appropriate api url.
pub fn get_comment_api(id: u32) -> (r: String)
    ensures
        r@ == spec_comment_api(id),
{
    let mut s: String = "https://api.deezer.com/comment/".to_owned();
    push_decimal(&mut s, id);
    s
}

} // verus!
