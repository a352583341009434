//! The metadata part of a character upload.
use vstd::prelude::*;

verus! {

/// The JSON `metadata` field of `POST /characters/`.
pub struct CreateCharacterData {
    pub first_name: String,
    pub last_name: Option<String>,
    pub pronouns: Option<String>,
    pub quote: Option<String>,
}

} // verus!
