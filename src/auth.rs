//! API-key check on incoming requests.
use vstd::prelude::*;

verus! {

/// Scheme prefix of a bearer token in the authorization header.
pub const BEARER_PREFIX: &'static str = "Bearer ";

/// Relies on str::strip_prefix with a string pattern: the rest of `s` after
/// `p` when `p` is a prefix of `s`, else nothing.
#[verifier::external_body]
fn strip_text_prefix(s: &str, p: &str) -> (r: Option<String>)
    ensures
        r is Some <==> (p@.len() <= s@.len() && s@.take(p@.len() as int) == p@),
        r matches Some(t) ==> t@ == s@.skip(p@.len() as int),
{
    s.strip_prefix(p).map(|t| t.to_string())
}

pub open spec fn str_view(o: Option<&str>) -> Option<Seq<char>> {
    match o {
        Some(s) => Some(s@),
        None => None,
    }
}

/// The token of an authorization header value, if it carries a bearer token.
pub open spec fn bearer_token(h: Seq<char>) -> Option<Seq<char>> {
    if BEARER_PREFIX@.len() <= h.len() && h.take(BEARER_PREFIX@.len() as int) == BEARER_PREFIX@ {
        Some(h.skip(BEARER_PREFIX@.len() as int))
    } else {
        None
    }
}

/// With no key configured every request passes; otherwise the key must be
/// given in the key header or as a bearer token.
pub open spec fn request_authorized(
    key: Option<Seq<char>>,
    key_header: Option<Seq<char>>,
    authorization: Option<Seq<char>>,
) -> bool {
    match key {
        None => true,
        Some(k) => key_header == Some(k) || (authorization matches Some(a) && bearer_token(a) == Some(k)),
    }
}

/// Decides whether a request may pass, from the configured key and the
/// values of the request's key header and authorization header.
pub fn is_authorized(api_key: Option<&str>, x_api_key: Option<&str>, authorization: Option<&str>) -> (r: bool)
    ensures
        r == request_authorized(str_view(api_key), str_view(x_api_key), str_view(authorization)),
{
    let key = match api_key {
        None => {
            return true;
        },
        Some(k) => k.to_string(),
    };
    if let Some(x) = x_api_key {
        if x.to_string() == key {
            return true;
        }
    }
    match authorization {
        None => false,
        Some(a) => match strip_text_prefix(a, BEARER_PREFIX) {
            None => false,
            Some(token) => token == key,
        },
    }
}

} // verus!
