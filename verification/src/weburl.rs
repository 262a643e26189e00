//! Base-URL handling for blob hosts.
//!
//! An owner's published server list carries URL strings; only the entries
//! that parse as URLs are kept, in their serialized (normalized) form. A
//! fetch for a content hash addresses `base/<hex-hash>`, built by the URL
//! crate's join. Both operations are functions of their string arguments
//! alone; their results are named below and every caller's contract goes
//! through those names.

use vstd::prelude::*;

verus! {

/// What `url::Url::parse` makes of `s`: `None` when `s` is not a valid
/// URL, otherwise the parsed URL's serialized string.
pub uninterp spec fn url_normal_form(s: Seq<char>) -> Option<Seq<char>>;

/// What joining `rel` onto the URL `base` yields: `None` when `base` does
/// not parse or the join fails, otherwise the joined URL's serialized
/// string.
pub uninterp spec fn url_joined(base: Seq<char>, rel: Seq<char>) -> Option<Seq<char>>;

/// Relies on `url::Url::parse` and `url::Url::as_str`: parses `s` and
/// returns the serialized form, `None` exactly when parsing fails.
#[verifier::external_body]
pub(crate) fn normalize_url(s: &str) -> (r: Option<String>)
    ensures
        r.deep_view() == url_normal_form(s@),
{
    match url::Url::parse(s) {
        Ok(u) => Some(String::from(u.as_str())),
        Err(_) => None,
    }
}

/// Relies on `url::Url::parse`, `url::Url::join` and `url::Url::as_str`:
/// parses `base`, joins `rel` onto it, and returns the serialized result,
/// `None` exactly when parsing or joining fails.
#[verifier::external_body]
pub(crate) fn join_url(base: &str, rel: &str) -> (r: Option<String>)
    ensures
        r.deep_view() == url_joined(base@, rel@),
{
    match url::Url::parse(base) {
        Ok(u) => match u.join(rel) {
            Ok(j) => Some(String::from(j.as_str())),
            Err(_) => None,
        },
        Err(_) => None,
    }
}

} // verus!
