//! Request handling logic of the doodleswap backend: credential validation,
//! login and registration flows, token claims, and character uploads.

pub mod controllers;
pub mod dto;
pub mod middleware;
pub mod models;
pub mod password;
pub mod reply;
pub mod text;
