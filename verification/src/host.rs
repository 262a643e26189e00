//! Turning an HTTP Host header into a candidate subdomain.
//!
//! The host is first stripped of an optional `:port` suffix, then split on
//! `.`: with fewer than three labels there is no subdomain and the request
//! falls through to the default landing page; otherwise the first label is
//! the subdomain.

use vstd::prelude::*;
use crate::text::{before_char, count_char, before_char_exec, char_count};

verus! {

/// The host with an optional trailing `:port` removed.
pub open spec fn host_without_port(host: Seq<char>) -> Seq<char> {
    before_char(host, ':')
}

/// The subdomain of a host, if the host has at least three dot-separated
/// labels once the port is stripped: the first label. Two or fewer labels
/// mean "no subdomain".
pub open spec fn subdomain_of(host: Seq<char>) -> Option<Seq<char>> {
    let h = host_without_port(host);
    if count_char(h, '.') >= 2 {
        Some(before_char(h, '.'))
    } else {
        None
    }
}

/// Extracts the subdomain of a Host header value, or `None` when the host
/// has no subdomain and the request should pass through.
pub fn extract_subdomain(host: &str) -> (r: Option<String>)
    ensures
        r matches Some(s) ==> subdomain_of(host@) == Some(s@),
        r is None ==> subdomain_of(host@) is None,
{
    let stripped = before_char_exec(host, ':');
    let dots = char_count(stripped, '.');
    if dots >= 2 {
        let label = before_char_exec(stripped, '.');
        Some(String::from_str(label))
    } else {
        None
    }
}

} // verus!
