//! Endpoint URL construction. A doubled slash produced by joining an authority
//! that ends in `/` with a path is collapsed; the `//` of a scheme separator,
//! recognized by the `:` before it, is kept. A cosmetic fix, not a security
//! control.

use vstd::prelude::*;
use vstd::string::{StrSliceExecFns, StringExecFns};

verus! {

/// Whether the character at `i` survives normalization: a `/` is dropped when
/// it directly follows another `/`, unless that pair belongs to a `://`.
pub open spec fn keeps_char(s: Seq<char>, i: int) -> bool {
    !(s[i] == '/' && i >= 1 && s[i - 1] == '/' && !(i >= 2 && s[i - 2] == ':'))
}

pub open spec fn normalized_prefix(s: Seq<char>, n: int) -> Seq<char>
    decreases n,
{
    if n <= 0 {
        Seq::empty()
    } else if keeps_char(s, n - 1) {
        normalized_prefix(s, n - 1).push(s[n - 1])
    } else {
        normalized_prefix(s, n - 1)
    }
}

/// The URL with every doubled slash outside a scheme separator collapsed.
pub open spec fn normalize_spec(s: Seq<char>) -> Seq<char> {
    normalized_prefix(s, s.len() as int)
}

/// Relies on String::push: it appends the one character to the string.
pub assume_specification[ String::push ](s: &mut String, c: char)
    ensures
        final(s)@ == old(s)@.push(c),
;

pub fn normalize_url(s: &str) -> (r: String)
    ensures
        r@ == normalize_spec(s@),
{
    let n: usize = s.unicode_len();
    let mut out: String = String::new();
    let mut i: usize = 0;
    while i < n
        invariant
            n == s@.len(),
            i <= n,
            out@ == normalized_prefix(s@, i as int),
        decreases n - i,
    {
        let c = s.get_char(i);
        let keep: bool = if c == '/' && i >= 1 {
            if s.get_char(i - 1) == '/' {
                i >= 2 && s.get_char(i - 2) == ':'
            } else {
                true
            }
        } else {
            true
        };
        if keep {
            out.push(c);
        }
        i = i + 1;
    }
    out
}

/// The canonical well-known JWKS path under an authority.
pub open spec fn jwks_well_known_url_spec(authority: Seq<char>) -> Seq<char> {
    normalize_spec(authority + "/.well-known/jwks.json"@)
}

pub fn jwks_well_known_url(authority: &str) -> (r: String)
    ensures
        r@ == jwks_well_known_url_spec(authority@),
{
    let joined = String::from_str(authority).concat("/.well-known/jwks.json");
    normalize_url(joined.as_str())
}

/// The OAuth token endpoint under a domain.
pub open spec fn token_endpoint_url_spec(domain: Seq<char>) -> Seq<char> {
    normalize_spec(domain + "/oauth/token"@)
}

pub fn token_endpoint_url(domain: &str) -> (r: String)
    ensures
        r@ == token_endpoint_url_spec(domain@),
{
    let joined = String::from_str(domain).concat("/oauth/token");
    normalize_url(joined.as_str())
}

} // verus!
