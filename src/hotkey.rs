//! Hosts taken from a URL, as the add-host hotkey reads it from the clipboard.

use vstd::prelude::*;

use crate::host::HostConfig;

verus! {

/// The host part of `text` read as an absolute URL, when it parses as one
/// and has a host.
pub uninterp spec fn url_host_of(text: Seq<char>) -> Option<Seq<char>>;

/// Relies on `url::Url::parse` and `url::Url::host_str`: the host of `text`
/// parsed as an absolute URL, or nothing when it does not parse or has no
/// host.
#[verifier::external_body]
fn extract(text: &str) -> (r: Option<String>)
    ensures
        r is None <==> url_host_of(text@) is None,
        r matches Some(h) ==> url_host_of(text@) == Some(h@),
{
    match url::Url::parse(text) {
        Ok(u) => u.host_str().map(|h| h.to_string()),
        Err(_) => None,
    }
}

/// The host named by the URL in `text`, registered with every port enabled;
/// nothing when `text` is not a URL with a host.
pub fn host_from_url(text: &str) -> (r: Option<HostConfig>)
    ensures
        r is Some <==> url_host_of(text@) is Some,
        r matches Some(h) ==> url_host_of(text@) == Some(h.name@) && forall|p|
            h.ports.spec_get(p) == Some(true),
{
    match extract(text) {
        Some(name) => Some(HostConfig::with_all_enable(name)),
        None => None,
    }
}

} // verus!
