//! Error replies of the character routes.
use vstd::prelude::*;

use super::error_reply;
use crate::reply::{
    is_error_reply, Reply, STATUS_BAD_REQUEST, STATUS_FORBIDDEN, STATUS_PAYLOAD_TOO_LARGE,
    STATUS_UNSUPPORTED_MEDIA_TYPE,
};

verus! {

/// 400: the character could not be created.
pub fn failed_creation() -> (r: Reply)
    ensures
        is_error_reply(r, 400, "Bad Request"@, "Failed to create character"@),
{
    error_reply(STATUS_BAD_REQUEST, "Bad Request", "Failed to create character")
}

/// 403: the user already has as many characters as allowed.
pub fn too_many_characters() -> (r: Reply)
    ensures
        is_error_reply(r, 403, "Forbidden"@, "Not allowed to create more characters."@),
{
    error_reply(STATUS_FORBIDDEN, "Forbidden", "Not allowed to create more characters.")
}

/// 415: the uploaded file is neither a PNG nor a JPEG image.
pub fn unsupported_file() -> (r: Reply)
    ensures
        is_error_reply(r, 415, "Unsupported Media Type"@, "Only image/png and image/jpeg allowed."@),
{
    error_reply(STATUS_UNSUPPORTED_MEDIA_TYPE, "Unsupported Media Type", "Only image/png and image/jpeg allowed.")
}

/// 413: the request carries more than the allowed number of bytes.
pub fn file_too_large() -> (r: Reply)
    ensures
        is_error_reply(r, 413, "Payload Too Large"@, "File size must be 5MiB or less."@),
{
    error_reply(STATUS_PAYLOAD_TOO_LARGE, "Payload Too Large", "File size must be 5MiB or less.")
}

} // verus!
