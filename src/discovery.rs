use vstd::prelude::*;
use crate::roku::DeviceEndpoint;

verus! {

/// The search target of the multicast search: the devices' control service.
pub const SEARCH_TARGET: &'static str = "roku:ecp";

/// The longest wait, in seconds, that a search asks responders to keep to
/// (the MX field); it also bounds how long a search blocks.
pub const SEARCH_MX: u8 = 5;

/// The text that bytes give when read as UTF-8, each invalid sequence
/// replaced by U+FFFD.
pub uninterp spec fn utf8_lossy(b: Seq<u8>) -> Seq<char>;

/// The host of the URL `s`, as a URL writes it (a domain, a dotted IPv4
/// address, or a bracketed IPv6 address); `None` where `s` is not a URL or
/// has no host.
pub uninterp spec fn url_host(s: Seq<char>) -> Option<Seq<char>>;

/// Relies on `String::from_utf8_lossy` to read a header's raw bytes as text.
#[verifier::external_body]
fn lossy_text(b: &[u8]) -> (r: String)
    ensures
        r@ == utf8_lossy(b@),
{
    String::from_utf8_lossy(b).into_owned()
}

/// Relies on `url::Url::parse` to parse a location, and on `Url::host` and
/// `Host`'s `Display` to give its host as text.
#[verifier::external_body]
fn host_of_url(s: &str) -> (r: Option<String>)
    ensures
        match r {
            Some(h) => url_host(s@) == Some(h@),
            None => url_host(s@) is None,
        },
{
    match url::Url::parse(s) {
        Ok(u) => u.host().map(|h| h.to_string()),
        Err(_) => None,
    }
}

pub open spec fn location_view(l: Option<Vec<u8>>) -> Option<Seq<u8>> {
    match l {
        Some(b) => Some(b@),
        None => None,
    }
}

pub open spec fn locations_view(v: Seq<Option<Vec<u8>>>) -> Seq<Option<Seq<u8>>> {
    v.map_values(|l: Option<Vec<u8>>| location_view(l))
}

/// The control host that a search reply names: the host of the URL in its
/// `Location` header; `None` where the header is missing or is no URL with
/// a host.
pub open spec fn host_of_location(l: Option<Seq<u8>>) -> Option<Seq<char>> {
    match l {
        Some(b) => url_host(utf8_lossy(b)),
        None => None,
    }
}

pub open spec fn host_of_reply() -> spec_fn(Option<Seq<u8>>) -> Option<Seq<char>> {
    |l: Option<Seq<u8>>| host_of_location(l)
}

/// The hosts that search replies name, in order of arrival, skipping each
/// reply without a usable `Location`.
pub open spec fn discovered_hosts(locations: Seq<Option<Seq<u8>>>) -> Seq<Seq<char>> {
    locations.filter_map(host_of_reply())
}

pub open spec fn endpoint_hosts(v: Seq<DeviceEndpoint>) -> Seq<Seq<char>> {
    v.map_values(|e: DeviceEndpoint| e.host@)
}

/// The control endpoints that a search found, from the raw `Location` header
/// of each reply in order of arrival (`None`: the reply had none). A reply
/// whose location is unusable is skipped; no reply gives no endpoint.
pub fn endpoints_from_locations(locations: &Vec<Option<Vec<u8>>>) -> (r: Vec<DeviceEndpoint>)
    ensures
        endpoint_hosts(r@) == discovered_hosts(locations_view(locations@)),
{
    let ghost ls = locations_view(locations@);
    let mut found: Vec<DeviceEndpoint> = Vec::new();
    let mut i: usize = 0;
    while i < locations.len()
        invariant
            ls == locations_view(locations@),
            i <= locations@.len(),
            endpoint_hosts(found@) == ls.take(i as int).filter_map(host_of_reply()),
        decreases locations@.len() - i,
    {
        proof {
            ls.lemma_filter_map_take_succ(host_of_reply(), i as int);
        }
        match &locations[i] {
            Some(raw) => {
                let text = lossy_text(raw.as_slice());
                match host_of_url(text.as_str()) {
                    Some(host) => {
                        let ghost before = found@;
                        found.push(DeviceEndpoint::new(host));
                        assert(endpoint_hosts(found@) =~= endpoint_hosts(before) + seq![
                            host_of_location(ls[i as int])->Some_0,
                        ]);
                    },
                    None => {},
                }
            },
            None => {},
        }
        i += 1;
    }
    assert(ls.take(locations@.len() as int) =~= ls);
    found
}

} // verus!
