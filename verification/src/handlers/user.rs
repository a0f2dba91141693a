//! The address under which a collection is served.

use vstd::prelude::*;
use vstd::string::*;

verus! {

/// The scheme of a request that names none.
pub const DEFAULT_SCHEME: &'static str = "http";

/// The text of a scheme that may be missing.
pub open spec fn scheme_text(scheme: Option<&str>) -> Option<Seq<char>> {
    match scheme {
        Some(s) => Some(s@),
        None => None,
    }
}

/// The scheme that a request stands for: its own, or `http`.
pub open spec fn effective_scheme(scheme: Option<Seq<char>>) -> Seq<char> {
    match scheme {
        Some(s) => s,
        None => DEFAULT_SCHEME@,
    }
}

/// The address of a request without its query: scheme, host and path, as in
/// `http://127.0.0.1:8000/path`.
pub open spec fn base_text(scheme: Option<Seq<char>>, host: Seq<char>, path: Seq<char>) -> Seq<
    char,
> {
    effective_scheme(scheme) + "://"@ + host + path
}

/// The address of a request without its query. Host and path are taken as
/// they are.
pub fn get_base(scheme: Option<&str>, host: &str, path: &str) -> (base: String)
    ensures
        base@ == base_text(scheme_text(scheme), host@, path@),
{
    let mut base = match scheme {
        Some(s) => s.to_owned(),
        None => DEFAULT_SCHEME.to_owned(),
    };
    base.append("://");
    base.append(host);
    base.append(path);
    base
}

} // verus!
