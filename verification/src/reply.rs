//! The answer a request handler gives: a status code and a body.
use vstd::prelude::*;

use crate::dto::errors::HttpErrorBody;
use crate::dto::requests::auth::CredentialField;
use crate::dto::responses::auth::{LoginResponse, RegistrationResponse, TokenResponse};
use crate::dto::responses::characters::CreatedCharacter;

verus! {

pub const STATUS_OK: u16 = 200;
pub const STATUS_CREATED: u16 = 201;
pub const STATUS_BAD_REQUEST: u16 = 400;
pub const STATUS_UNAUTHORIZED: u16 = 401;
pub const STATUS_FORBIDDEN: u16 = 403;
pub const STATUS_NOT_FOUND: u16 = 404;
pub const STATUS_CONFLICT: u16 = 409;
pub const STATUS_PAYLOAD_TOO_LARGE: u16 = 413;
pub const STATUS_UNSUPPORTED_MEDIA_TYPE: u16 = 415;
pub const STATUS_INTERNAL_SERVER_ERROR: u16 = 500;
pub const STATUS_NOT_IMPLEMENTED: u16 = 501;

/// What a reply carries.
pub enum ReplyBody {
    /// No body at all.
    Empty,
    /// A plain text message.
    Text(String),
    /// A JSON error body.
    Error(HttpErrorBody),
    /// The request body failed validation on these fields, in declaration order.
    InvalidFields(Vec<CredentialField>),
    Login(LoginResponse),
    Registration(RegistrationResponse),
    Token(TokenResponse),
    CreatedCharacter(CreatedCharacter),
}

/// A status code with its body.
pub struct Reply {
    pub status: u16,
    pub body: ReplyBody,
}

/// `r` is a plain text reply with this status and text.
pub open spec fn is_text_reply(r: Reply, status: u16, text: Seq<char>) -> bool {
    &&& r.status == status
    &&& r.body matches ReplyBody::Text(t)
    &&& t@ == text
}

/// `r` is a JSON error reply with this status, error title and message.
pub open spec fn is_error_reply(r: Reply, status: u16, error: Seq<char>, message: Seq<char>) -> bool {
    &&& r.status == status
    &&& r.body matches ReplyBody::Error(b)
    &&& b.error@ == error
    &&& b.message@ == message
}

impl Reply {
    /// A plain text reply.
    pub fn text(status: u16, text: String) -> (r: Reply)
        ensures
            is_text_reply(r, status, text@),
    {
        Reply { status, body: ReplyBody::Text(text) }
    }

    /// A reply without a body.
    pub fn empty(status: u16) -> (r: Reply)
        ensures
            r.status == status,
            r.body is Empty,
    {
        Reply { status, body: ReplyBody::Empty }
    }
}

} // verus!
