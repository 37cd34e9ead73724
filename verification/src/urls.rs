//! URL construction for the identity provider: the endpoint joiner used by
//! every outbound call, the GitHub sign-in redirect, and the base host URL
//! echoed back to browsers.

use vstd::prelude::*;
use vstd::string::{StrSliceExecFns, StringExecFns};

verus! {

/// `s` without any trailing `/` characters.
pub open spec fn trim_trailing_slashes(s: Seq<char>) -> Seq<char>
    decreases s.len(),
{
    if s.len() > 0 && s[s.len() - 1] == '/' {
        trim_trailing_slashes(s.drop_last())
    } else {
        s
    }
}

/// `s` without any leading `/` characters.
pub open spec fn trim_leading_slashes(s: Seq<char>) -> Seq<char>
    decreases s.len(),
{
    if s.len() > 0 && s[0] == '/' {
        trim_leading_slashes(s.subrange(1, s.len() as int))
    } else {
        s
    }
}

/// Strips every trailing `/` from a string slice.
pub fn trim_end_slashes<'a>(s: &'a str) -> (r: &'a str)
    ensures
        r@ == trim_trailing_slashes(s@),
{
    let mut end = s.unicode_len();
    proof {
        assert(s@.subrange(0, end as int) =~= s@);
    }
    while end > 0 && s.get_char(end - 1) == '/'
        invariant
            end <= s@.len(),
            trim_trailing_slashes(s@) == trim_trailing_slashes(s@.subrange(0, end as int)),
        decreases end,
    {
        proof {
            let cur = s@.subrange(0, end as int);
            assert(cur.drop_last() =~= s@.subrange(0, end - 1));
        }
        end -= 1;
    }
    s.substring_char(0, end)
}

/// Strips every leading `/` from a string slice.
pub fn trim_start_slashes<'a>(s: &'a str) -> (r: &'a str)
    ensures
        r@ == trim_leading_slashes(s@),
{
    let len = s.unicode_len();
    let mut start: usize = 0;
    proof {
        assert(s@.subrange(0, s@.len() as int) =~= s@);
    }
    while start < len && s.get_char(start) == '/'
        invariant
            start <= len,
            len == s@.len(),
            trim_leading_slashes(s@)
                == trim_leading_slashes(s@.subrange(start as int, s@.len() as int)),
        decreases len - start,
    {
        proof {
            let cur = s@.subrange(start as int, s@.len() as int);
            assert(cur.subrange(1, cur.len() as int)
                =~= s@.subrange(start + 1, s@.len() as int));
        }
        start += 1;
    }
    s.substring_char(start, len)
}

/// The URL of a provider endpoint: the base with trailing slashes dropped,
/// one `/`, and the path with leading slashes dropped.
pub open spec fn api_url_of(base: Seq<char>, path: Seq<char>) -> Seq<char> {
    trim_trailing_slashes(base) + "/"@ + trim_leading_slashes(path)
}

/// Joins the provider's base URL and an endpoint path with exactly one `/`.
pub fn build_api_url(base: &str, path: &str) -> (r: String)
    ensures
        r@ == api_url_of(base@, path@),
{
    let mut r = trim_end_slashes(base).to_owned();
    r.append("/");
    r.append(trim_start_slashes(path));
    r
}

/// The GitHub sign-in redirect: the provider's authorize endpoint with the
/// `github` provider, the given return URL, and the email scope.
pub open spec fn github_signin_url_of(supabase_url: Seq<char>, redirect_to: Seq<char>) -> Seq<char> {
    trim_trailing_slashes(supabase_url)
        + "/auth/v1/authorize?provider=github&redirect_to="@
        + redirect_to
        + "&scopes=user:email"@
}

/// Builds the URL a browser is sent to for GitHub sign-in.  Pure string
/// construction: no network call is made.
pub fn get_github_signin_url(supabase_url: &str, redirect_to: &str) -> (r: String)
    ensures
        r@ == github_signin_url_of(supabase_url@, redirect_to@),
{
    let mut r = trim_end_slashes(supabase_url).to_owned();
    r.append("/auth/v1/authorize?provider=github&redirect_to=");
    r.append(redirect_to);
    r.append("&scopes=user:email");
    r
}

/// A base URL of the form `scheme://host/`.
pub open spec fn host_url_of(scheme: Seq<char>, host: Seq<char>) -> Seq<char> {
    scheme + "://"@ + host + "/"@
}

/// The externally visible base URL of this service: a forwarding proxy's
/// reported scheme and host win over the connection's own.
pub fn base_host_url(
    forwarded_proto: Option<&str>,
    connection_scheme: &str,
    forwarded_host: Option<&str>,
    connection_host: &str,
) -> (r: String)
    ensures
        ({
            let scheme = match forwarded_proto {
                Some(p) => p@,
                None => connection_scheme@,
            };
            let host = match forwarded_host {
                Some(h) => h@,
                None => connection_host@,
            };
            r@ == host_url_of(scheme, host)
        }),
{
    let scheme = match forwarded_proto {
        Some(p) => p,
        None => connection_scheme,
    };
    let host = match forwarded_host {
        Some(h) => h,
        None => connection_host,
    };
    let mut r = scheme.to_owned();
    r.append("://");
    r.append(host);
    r.append("/");
    r
}

} // verus!
