//! Rows of the database.
pub mod auth;
pub mod characters;
