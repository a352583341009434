//! Error replies of the authentication routes.
use vstd::prelude::*;

use super::error_reply;
use crate::reply::{is_error_reply, Reply, STATUS_CONFLICT, STATUS_UNAUTHORIZED};

verus! {

/// 401: the username or the password is wrong.
pub fn incorrect_credentials() -> (r: Reply)
    ensures
        is_error_reply(r, 401, "Unauthorized"@, "Username or password incorrect."@),
{
    error_reply(STATUS_UNAUTHORIZED, "Unauthorized", "Username or password incorrect.")
}

/// 409: another user already has this username.
pub fn username_taken() -> (r: Reply)
    ensures
        is_error_reply(r, 409, "Conflict"@, "Username taken."@),
{
    error_reply(STATUS_CONFLICT, "Conflict", "Username taken.")
}

/// 409: another user already has this email.
pub fn email_taken() -> (r: Reply)
    ensures
        is_error_reply(r, 409, "Conflict"@, "Email taken"@),
{
    error_reply(STATUS_CONFLICT, "Conflict", "Email taken")
}

} // verus!
