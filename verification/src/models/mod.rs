//! The records that the backend keeps.

pub mod user;
