//! The public-path allow-list of the authentication middleware: the root
//! path, the favicon, everything under the auth API prefix, and static asset
//! names ending in `.html`, `.css` or `.js` are served without a token.

use vstd::prelude::*;
use crate::strutil::{is_prefix, is_suffix, str_eq_str, starts_with_str, ends_with_str};

verus! {

/// A request path that skips authentication entirely.
pub open spec fn is_public_path(p: Seq<char>) -> bool {
    ||| p == "/"@
    ||| p == "/favicon.ico"@
    ||| is_prefix("/api/auth/"@, p)
    ||| is_suffix(".html"@, p)
    ||| is_suffix(".css"@, p)
    ||| is_suffix(".js"@, p)
}

/// Decides whether `path` is on the allow-list and needs no bearer token.
pub fn is_auth_ignored(path: &str) -> (r: bool)
    ensures
        r == is_public_path(path@),
{
    if str_eq_str(path, "/") {
        return true;
    }
    if str_eq_str(path, "/favicon.ico") {
        return true;
    }
    if starts_with_str(path, "/api/auth/") {
        return true;
    }
    if ends_with_str(path, ".html") {
        return true;
    }
    if ends_with_str(path, ".css") {
        return true;
    }
    ends_with_str(path, ".js")
}

} // verus!
