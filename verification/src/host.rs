//! Extracting the host part of a server address.

use vstd::prelude::*;

verus! {

/// The host part of the address `s`, if `s` is a valid absolute URL that has
/// one. What counts as valid and how the host is spelled are decided by the
/// `url` crate; the result is a function of `s` alone.
pub uninterp spec fn host_of(s: Seq<char>) -> Option<Seq<char>>;

/// Relies on `url::Url::parse` and `url::Url::host_str`: parsing an address
/// and reading its host part depend on the address alone, so the result is
/// named by `host_of`.
#[verifier::external_body]
pub(crate) fn host_of_address(s: &str) -> (r: Option<String>)
    ensures
        r.deep_view() == host_of(s@),
{
    match url::Url::parse(s) {
        Ok(u) => u.host_str().map(|h| h.to_owned()),
        Err(_) => None,
    }
}

} // verus!
