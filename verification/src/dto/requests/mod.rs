//! Request bodies.
pub mod auth;
pub mod characters;
