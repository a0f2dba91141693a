//! The rule that decides which requests may pass without a login.

use vstd::prelude::*;
use vstd::string::*;

verus! {

/// The one path that a client may ask for before it has logged in.
pub const LOGIN_PATH: &'static str = "/api/v1/auth/login";

/// The guard that stands before the routes.
pub struct Auth;

/// What the guard answers to a request.
#[derive(Clone, Copy, Debug, PartialEq, Eq)]
pub enum Access {
    /// The request goes on to the route it asked for.
    Granted,
    /// The request is answered at once, as unauthorized.
    Denied,
}

impl Auth {
    /// What becomes of a request for `path`: it goes on if its sender is
    /// logged in or asks for the login itself, and is turned away otherwise.
    /// That a path of another length is another path goes without saying; it
    /// is said for the solver, which then need not compare the texts.
    pub open spec fn access(is_logged_in: bool, path: Seq<char>) -> Access {
        if is_logged_in || (path.len() == LOGIN_PATH@.len() && path == LOGIN_PATH@) {
            Access::Granted
        } else {
            Access::Denied
        }
    }

    /// Decides what becomes of a request for `path`.
    pub fn authorize(&self, is_logged_in: bool, path: &str) -> (access: Access)
        ensures
            access == Self::access(is_logged_in, path@),
    {
        if is_logged_in {
            Access::Granted
        } else {
            let asked = path.to_owned();
            let login = LOGIN_PATH.to_owned();
            if asked == login {
                Access::Granted
            } else {
                Access::Denied
            }
        }
    }
}

} // verus!
