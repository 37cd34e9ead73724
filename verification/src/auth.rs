//! The per-request decision rules of the authentication middleware.
//!
//! A request is either forwarded untouched (public path), rejected outright
//! (no bearer credential), or held until the identity provider has resolved
//! the extracted token.  The provider's answer is modelled as a minimal typed
//! record; a missing `id` is the uniform "unauthenticated" signal.

use vstd::prelude::*;
use vstd::string::StrSliceExecFns;
use crate::strutil::{is_prefix, starts_with_str};
use crate::paths::is_public_path;

verus! {

/// The request body of the register and login endpoints.
pub struct AuthForm {
    pub email: String,
    pub password: String,
}

/// What the identity provider reported for a token: decoded defensively,
/// every field may be absent.
pub struct UserInfo {
    pub id: Option<String>,
    pub email: Option<String>,
    pub error: Option<String>,
}

/// What the middleware does with an inbound request before any network call.
pub enum AuthDecision {
    /// Public path: forward without looking at any header.
    Forward,
    /// Private path without a bearer credential: reject immediately.
    Unauthorized,
    /// Private path with a bearer credential: resolve this token first.
    Resolve(String),
}

/// The header value carries a bearer credential: it starts with `"Bearer "`.
pub open spec fn has_bearer(header: Seq<char>) -> bool {
    is_prefix("Bearer "@, header)
}

/// The token carried by a bearer header: everything after `"Bearer "`.
pub open spec fn bearer_token_of(header: Seq<char>) -> Seq<char> {
    header.subrange(7, header.len() as int)
}

/// Screens one inbound request: forwards public paths untouched, rejects
/// private ones without a bearer header, and extracts the token otherwise.
///
/// `auth_header` is the `Authorization` header value, or `""` where the
/// header is absent or not valid text.
pub fn screen_request(path: &str, auth_header: &str) -> (d: AuthDecision)
    ensures
        is_public_path(path@) ==> d == AuthDecision::Forward,
        !is_public_path(path@) && !has_bearer(auth_header@) ==> d == AuthDecision::Unauthorized,
        !is_public_path(path@) && has_bearer(auth_header@) ==> (d matches AuthDecision::Resolve(t)
            && t@ == bearer_token_of(auth_header@)),
{
    if crate::paths::is_auth_ignored(path) {
        return AuthDecision::Forward;
    }
    match extract_bearer_token(auth_header) {
        None => AuthDecision::Unauthorized,
        Some(token) => AuthDecision::Resolve(token),
    }
}

/// Strips the `"Bearer "` prefix from a header value, if it is there.
pub fn extract_bearer_token(header: &str) -> (r: Option<String>)
    ensures
        has_bearer(header@) ==> (r matches Some(t) && t@ == bearer_token_of(header@)),
        !has_bearer(header@) ==> r is None,
{
    if starts_with_str(header, "Bearer ") {
        proof {
            reveal_strlit("Bearer ");
        }
        let len = header.unicode_len();
        let token = header.substring_char(7, len);
        Some(token.to_owned())
    } else {
        None
    }
}

/// The register handler's decision on the provider's signup answer: an
/// answer that carries an `id` registered the account (status 200); any
/// other answer is forwarded as a provider error (status 400).
pub fn register_status(info: &UserInfo) -> (s: u16)
    ensures
        info.id is Some ==> s == 200,
        info.id is None ==> s == 400,
{
    match &info.id {
        Some(_) => 200,
        None => 400,
    }
}

/// Decides whether a resolved provider answer admits the request: the
/// request-scoped identity is exactly the provider's reported `id`, and a
/// missing `id` rejects the request.
pub fn admit_user(info: UserInfo) -> (r: Option<String>)
    ensures
        r == info.id,
{
    info.id
}

} // verus!
