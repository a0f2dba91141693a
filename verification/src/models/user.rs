//! Users as they are stored: with the password hashed.

use vstd::prelude::*;
use vstd::string::*;

use crate::auth::{argon2i_digest, hash, hashable, hex_lower};

verus! {

/// A user as stored. `password` holds the hashed password.
#[derive(Clone, Debug, PartialEq)]
pub struct User {
    pub id: String,
    pub first_name: String,
    pub last_name: String,
    pub email: String,
    pub password: String,
}

/// A user about to be stored. `password` holds the password as typed.
#[derive(Clone, Debug)]
pub struct NewUser {
    pub id: String,
    pub first_name: String,
    pub last_name: String,
    pub email: String,
    pub password: String,
}

impl User {
    /// The stored form of `user`: the same in everything but the password,
    /// which is hashed under `salt`.
    pub fn from_new(user: NewUser, salt: &str) -> (stored: User)
        requires
            hashable(user.password@, salt@),
        ensures
            stored.id == user.id,
            stored.first_name == user.first_name,
            stored.last_name == user.last_name,
            stored.email == user.email,
            stored.password@ == hex_lower(argon2i_digest(user.password@, salt@)),
    {
        let password = hash(user.password.as_str(), salt);
        User {
            id: user.id,
            first_name: user.first_name,
            last_name: user.last_name,
            email: user.email,
            password,
        }
    }
}

} // verus!
