//! What the authentication layer hands to the routes behind it.
pub mod authentication;
