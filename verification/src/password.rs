//! Password hashing and checking, done by the `bcrypt` crate.
use vstd::prelude::*;

verus! {

/// What `bcrypt::verify` answers for this password and stored hash: whether
/// they match, or the text of its error (for instance for a malformed hash).
pub uninterp spec fn bcrypt_verdict(password: Seq<char>, hash: Seq<char>) -> Result<bool, Seq<char>>;

/// `bcrypt::verify`, with its error turned into the error's text.
/// The contract ties the answer to `bcrypt_verdict` and claims nothing more.
#[verifier::external_body]
pub(crate) fn verify_password(password: &str, hash: &str) -> (r: Result<bool, String>)
    ensures
        r matches Ok(b) ==> (bcrypt_verdict(password@, hash@) matches Ok(v) && v == b),
        r matches Err(m) ==> (bcrypt_verdict(password@, hash@) matches Err(e) && e == m@),
{
    match bcrypt::verify(password, hash) {
        Ok(b) => Ok(b),
        Err(e) => Err(e.to_string()),
    }
}

/// `bcrypt::hash` with `bcrypt::DEFAULT_COST` (12), which draws a random salt,
/// with its error turned into the error's text. The contract claims what the
/// source shows of a hash it gives back: `bcrypt::verify` accepts it for the
/// same password (it hashes again with the salt and cost read back from the
/// hash and compares), and it is the 60 characters `$2b$12$`, 22 of salt and
/// 31 of hash. Nothing is claimed of the error's text.
#[verifier::external_body]
pub(crate) fn hash_password(password: &str) -> (r: Result<String, String>)
    ensures
        r matches Ok(h) ==> {
            &&& bcrypt_verdict(password@, h@) matches Ok(v) && v
            &&& h@.len() == 60
            &&& h@.take(7) == "$2b$12$"@
        },
{
    match bcrypt::hash(password, bcrypt::DEFAULT_COST) {
        Ok(h) => Ok(h),
        Err(e) => Err(e.to_string()),
    }
}

} // verus!
