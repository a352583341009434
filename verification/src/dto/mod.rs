//! The data that requests carry in and replies carry out.
pub mod errors;
pub mod requests;
pub mod responses;
