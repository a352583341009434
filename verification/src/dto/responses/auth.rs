//! Reply bodies of the authentication routes.
use vstd::prelude::*;

verus! {

/// Body of a successful login.
pub struct LoginResponse {
    pub id: i64,
    pub username: String,
    pub role: String,
}

/// Body of a successful registration.
pub struct RegistrationResponse {
    pub id: i64,
    pub username: String,
    pub role: String,
}

/// Body of `GET /auth/token`: who the token belongs to.
pub struct TokenResponse {
    pub id: i32,
    pub role: String,
    pub username: String,
}

} // verus!
