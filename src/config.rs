//! Service configuration, decided from values that the caller has read from
//! the process environment.
use vstd::prelude::*;

verus! {

/// Prefix of the variables that configure the object store.
pub const STORAGE_PREFIX: &'static str = "AWS_";

/// Certificate and key files for serving over TLS.
pub struct TlsConfig {
    pub cert_path: String,
    pub key_path: String,
}

/// Whether `c` has the Unicode White_Space property, the whitespace of
/// `char::is_whitespace`.
pub open spec fn is_white_space(c: char) -> bool {
    ('\u{9}' <= c && c <= '\u{d}') || c == ' ' || c == '\u{85}' || c == '\u{a0}' || c == '\u{1680}'
        || ('\u{2000}' <= c && c <= '\u{200a}') || c == '\u{2028}' || c == '\u{2029}' || c
        == '\u{202f}' || c == '\u{205f}' || c == '\u{3000}'
}

pub open spec fn trim_start(s: Seq<char>) -> Seq<char>
    decreases s.len(),
{
    if s.len() > 0 && is_white_space(s[0]) {
        trim_start(s.skip(1))
    } else {
        s
    }
}

pub open spec fn trim_end(s: Seq<char>) -> Seq<char>
    decreases s.len(),
{
    if s.len() > 0 && is_white_space(s.last()) {
        trim_end(s.drop_last())
    } else {
        s
    }
}

/// `s` with leading and trailing whitespace removed.
pub open spec fn trimmed(s: Seq<char>) -> Seq<char> {
    trim_end(trim_start(s))
}

/// Relies on str::trim: the string without its leading and trailing
/// characters that have the White_Space property.
#[verifier::external_body]
fn trim_text(s: &str) -> (r: String)
    ensures
        r@ == trimmed(s@),
{
    s.trim().to_string()
}

/// Relies on str::starts_with with a string pattern: whether `p` is a prefix of `s`.
#[verifier::external_body]
fn has_prefix(s: &str, p: &str) -> (r: bool)
    ensures
        r == (p@.len() <= s@.len() && s@.take(p@.len() as int) == p@),
{
    s.starts_with(p)
}

/// TLS is configured by both files or by neither; one without the other is
/// refused.
pub fn tls_config_from(cert_path: Option<String>, key_path: Option<String>) -> (r: Result<
    Option<TlsConfig>,
    String,
>)
    ensures
        (cert_path is Some) != (key_path is Some) <==> r is Err,
        cert_path is None && key_path is None ==> r matches Ok(None),
        cert_path matches Some(c) ==> (key_path matches Some(k) ==> (r matches Ok(Some(t))
            && t.cert_path == c && t.key_path == k)),
{
    match (cert_path, key_path) {
        (Some(cert_path), Some(key_path)) => Ok(Some(TlsConfig { cert_path, key_path })),
        (None, None) => Ok(None),
        _ => Err("the TLS certificate and key must both be set".to_string()),
    }
}

/// The API key from an already trimmed value: an empty value sets none.
pub fn api_key_from_trimmed(value: String) -> (r: Option<String>)
    ensures
        value@.len() == 0 ==> r is None,
        value@.len() > 0 ==> r == Some(value),
{
    if value.as_str().is_empty() {
        None
    } else {
        Some(value)
    }
}

/// The API key from the raw setting: surrounding whitespace is dropped and
/// a value left empty sets no key.
pub fn api_key_from(value: Option<String>) -> (r: Option<String>)
    ensures
        value is None ==> r is None,
        value matches Some(v) ==> (trimmed(v@).len() == 0 ==> r is None),
        value matches Some(v) ==> (trimmed(v@).len() > 0 ==> (r matches Some(k) && k@ == trimmed(v@))),
{
    match value {
        None => None,
        Some(v) => api_key_from_trimmed(trim_text(v.as_str())),
    }
}

pub open spec fn is_storage_var(k: Seq<char>) -> bool {
    STORAGE_PREFIX@.len() <= k.len() && k.take(STORAGE_PREFIX@.len() as int) == STORAGE_PREFIX@
}

/// The variables, in order, whose names configure the object store.
pub open spec fn storage_vars(vars: Seq<(String, String)>) -> Seq<(String, String)> {
    vars.filter(|e: (String, String)| is_storage_var(e.0@))
}

/// Keeps the variables whose names start with the object-store prefix.
pub fn load_storage_options(vars: Vec<(String, String)>) -> (r: Vec<(String, String)>)
    ensures
        r@ == storage_vars(vars@),
{
    let mut r: Vec<(String, String)> = Vec::new();
    let mut i: usize = 0;
    while i < vars.len()
        invariant
            0 <= i <= vars@.len(),
            r@ == storage_vars(vars@.take(i as int)),
        decreases vars@.len() - i,
    {
        let keep = has_prefix(vars[i].0.as_str(), STORAGE_PREFIX);
        proof {
            reveal(Seq::filter);
            assert(vars@.take(i as int + 1).drop_last() == vars@.take(i as int));
        }
        if keep {
            r.push((vars[i].0.clone(), vars[i].1.clone()));
        }
        i = i + 1;
    }
    proof {
        assert(vars@.take(vars@.len() as int) == vars@);
    }
    r
}

} // verus!
