//! A stored user.
use vstd::prelude::*;

verus! {

/// `chrono::NaiveDateTime`, carried through unread.
#[verifier::external_type_specification]
#[verifier::external_body]
pub struct ExNaiveDateTime(chrono::NaiveDateTime);

/// A row of the `user` table.
pub struct User {
    pub id: i32,
    pub email: String,
    pub username: String,
    pub password_hash: String,
    pub role: String,
    pub pfp_path: Option<String>,
    pub pfp_mime_type: Option<String>,
    pub created_at: chrono::NaiveDateTime,
}

} // verus!
