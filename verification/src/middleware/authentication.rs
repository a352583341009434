//! The claims of a session token.
use vstd::prelude::*;

use crate::reply::{is_text_reply, Reply, STATUS_UNAUTHORIZED};

verus! {

/// The claims a session token carries: the user's id and its validity window.
#[derive(Clone, Copy, Debug, PartialEq, Eq, Structural)]
pub struct Claims {
    /// The id of the user the token was issued to.
    pub sub: i32,
    /// Issued at, in seconds since the Unix epoch.
    pub iat: i64,
    /// Expires at, in seconds since the Unix epoch.
    pub exp: i64,
}

/// The claims of the request, or 401 "No token." when the request carries none.
pub fn require_claims(claims: Option<Claims>) -> (r: Result<Claims, Reply>)
    ensures
        claims matches Some(c) ==> r == Ok::<Claims, Reply>(c),
        claims is None ==> (r matches Err(reply) && is_text_reply(reply, 401, "No token."@)),
{
    match claims {
        Some(c) => Ok(c),
        None => Err(Reply::text(STATUS_UNAUTHORIZED, crate::text::owned("No token."))),
    }
}

} // verus!
