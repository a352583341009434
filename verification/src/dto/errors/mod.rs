//! JSON error bodies and the error replies built from them.
use vstd::prelude::*;

pub mod auth;
pub mod characters;

verus! {

/// The body of an error reply: a short title and a message.
pub struct HttpErrorBody {
    pub error: String,
    pub message: String,
}

/// A JSON error reply.
pub fn error_reply(status: u16, error: &str, message: &str) -> (r: crate::reply::Reply)
    ensures
        crate::reply::is_error_reply(r, status, error@, message@),
{
    crate::reply::Reply {
        status,
        body: crate::reply::ReplyBody::Error(
            HttpErrorBody { error: crate::text::owned(error), message: crate::text::owned(message) },
        ),
    }
}

} // verus!
