//! Replies: a status and what the body holds.
use vstd::prelude::*;
use crate::file_system::dir::Group;
use crate::file_system::file::File;
use crate::user::User;

verus! {

/// The HTTP statuses the service answers with.
#[derive(Debug, Clone, Copy, PartialEq, Eq, Structural)]
pub enum Status {
    Success,
    BadRequest,
    Unauthorized,
    NotFound,
    InternalServerError,
}

impl Status {
    /// The numeric code of the status.
    pub open spec fn code_spec(self) -> u16 {
        match self {
            Status::Success => 200,
            Status::BadRequest => 400,
            Status::Unauthorized => 401,
            Status::NotFound => 404,
            Status::InternalServerError => 500,
        }
    }

    /// The numeric code of the status.
    pub fn code(&self) -> (res: u16)
        ensures
            res == self.code_spec(),
    {
        match self {
            Status::Success => 200,
            Status::BadRequest => 400,
            Status::Unauthorized => 401,
            Status::NotFound => 404,
            Status::InternalServerError => 500,
        }
    }
}

/// What a reply's body holds.
#[derive(Debug, Clone, PartialEq, Eq)]
pub enum Payload {
    /// No body.
    Nothing,
    /// The JSON object `{}`.
    EmptyObject,
    /// The JSON object `{key: text}`.
    Message { key: String, text: String },
    /// The JSON object `{"Err": error, "hint": hint}`.
    ErrorHint { error: String, hint: String },
    /// A file's record as JSON.
    FileRecord(File),
    /// A directory's record as JSON.
    GroupRecord(Group),
    /// A directory's record as JSON with the field `child` holding the
    /// identifiers of its children.
    DirRecord { dir: Group, child: Vec<String> },
    /// A user's record as JSON.
    UserRecord(User),
    /// The JSON object `{"i": token}`.
    Token(String),
    /// A new account: `{"id", "name", "createAt", "i", "root"}`.
    NewUser { id: String, name: Option<String>, created_at: i64, token: String, root: String },
    /// A JSON string.
    JsonText(String),
    /// The bytes kept at `path`, streamed with the `Content-Type` header
    /// `content_type` and, when present, the `Content-Disposition` header
    /// `disposition`.
    FileStream { path: String, content_type: String, disposition: Option<String> },
}

/// A reply: its status and body.
#[derive(Debug, Clone, PartialEq, Eq)]
pub struct Reply {
    pub status: Status,
    pub payload: Payload,
}

/// `r` has the status `s` and no body.
pub open spec fn status_only(r: Reply, s: Status) -> bool {
    r.status == s && r.payload is Nothing
}

/// `r` has the status `s` and the body `{key: text}`.
pub open spec fn is_message(r: Reply, s: Status, key: Seq<char>, text: Seq<char>) -> bool {
    &&& r.status == s
    &&& r.payload matches Payload::Message { key: k, text: t } && k@ == key && t@ == text
}

impl Reply {
    /// The reply with status `s` and no body.
    pub fn status(s: Status) -> (r: Reply)
        ensures
            status_only(r, s),
    {
        Reply { status: s, payload: Payload::Nothing }
    }

    /// The reply with status `s` and the body `{key: text}`.
    pub fn message(s: Status, key: &str, text: &str) -> (r: Reply)
        ensures
            is_message(r, s, key@, text@),
    {
        Reply { status: s, payload: Payload::Message { key: String::from_str(key), text: String::from_str(text) } }
    }
}

} // verus!
