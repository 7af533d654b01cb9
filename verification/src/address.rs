//! Canonical base addresses: the `scheme://host` key under which the
//! tab cache files a live tab.  An address that does not parse is its
//! own key, so the cache still works on malformed input.

use vstd::prelude::*;
use vstd::string::*;

verus! {

/// The scheme and host that the URL parser extracts from `s`: `None`
/// when `s` is not a valid URL, otherwise the scheme and the host (a
/// URL such as `data:` has no host).
pub uninterp spec fn url_scheme_host(s: Seq<char>) -> Option<(Seq<char>, Option<Seq<char>>)>;

/// Relies on url::Url::parse, Url::scheme and Url::host_str: the scheme
/// and host of an address are a function of the text alone, named
/// `url_scheme_host`.
#[verifier::external_body]
fn split_scheme_host(address: &str) -> (r: Option<(String, Option<String>)>)
    ensures
        match (r, url_scheme_host(address@)) {
            (Some(t), Some(u)) => t.0@ == u.0 && (match (t.1, u.1) {
                (Some(x), Some(y)) => x@ == y,
                (None, None) => true,
                _ => false,
            }),
            (None, None) => true,
            _ => false,
        },
{
    match url::Url::parse(address) {
        Ok(u) => Some((u.scheme().to_string(), u.host_str().map(|h| h.to_string()))),
        Err(_) => None,
    }
}

/// The tab-cache key of an address: `scheme://host` when it parses
/// (an absent host contributes the empty string), the address itself
/// when it does not.
pub open spec fn base_address_spec(s: Seq<char>) -> Seq<char> {
    match url_scheme_host(s) {
        Some((scheme, host)) => scheme + "://"@ + (match host {
            Some(h) => h,
            None => Seq::<char>::empty(),
        }),
        None => s,
    }
}

/// Compute the tab-cache key of `address`.
pub fn base_address(address: &str) -> (r: String)
    ensures
        r@ == base_address_spec(address@),
{
    match split_scheme_host(address) {
        Some((scheme, host)) => {
            let mut out = scheme;
            out.append("://");
            if let Some(h) = host {
                out.append(h.as_str());
            } else {
                proof {
                    assert(out@ + Seq::<char>::empty() =~= out@);
                }
            }
            out
        },
        None => address.to_owned(),
    }
}

/// Law: the base address is host-scoped — any address with the same
/// parsed scheme and host as `a` yields the same tab-cache key.
pub proof fn lemma_base_address_host_scoped(a: Seq<char>, b: Seq<char>)
    requires
        url_scheme_host(a) is Some,
        url_scheme_host(a) == url_scheme_host(b),
    ensures
        base_address_spec(a) == base_address_spec(b),
{
}

} // verus!
