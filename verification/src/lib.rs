//! Verified core of a user-management REST backend: the pagination engine,
//! the error vocabulary, password hashing and the rules that the request
//! handlers apply.

pub mod auth;
pub mod decimal;
pub mod errors;
pub mod handlers;
pub mod middleware;
pub mod models;
pub mod paginate;
