//! What the request handlers decide before and after they reach for the
//! database.

pub mod auth;
pub mod user;
