//! What the library reads of a URL and of an IP address.

use vstd::prelude::*;

verus! {

/// The parts of a parsed URL that decide whether it may carry credentials.
#[derive(Debug)]
pub struct UrlParts {
    /// The scheme, lower-cased, without the `:` delimiter.
    pub scheme: String,
    /// The host as it is written in the URL (IPv6 addresses between brackets), if it has one.
    pub host: Option<String>,
}

/// A URL's scheme and host as contracts speak of them.
pub open spec fn url_parts_view(p: UrlParts) -> (Seq<char>, Option<Seq<char>>) {
    (
        p.scheme@,
        match p.host {
            Some(h) => Some(h@),
            None => None,
        },
    )
}

/// What `url::Url::parse` makes of the text: `None` where it refuses it, and otherwise the
/// scheme and the host that `Url::scheme` and `Url::host_str` give.
pub uninterp spec fn parsed_url(text: Seq<char>) -> Option<(Seq<char>, Option<Seq<char>>)>;

/// Calls `reqwest::Url::parse` (the `url` crate's parser) and reads `scheme` and `host_str`.
#[verifier::external_body]
pub fn parse_url(text: &str) -> (r: Option<UrlParts>)
    ensures
        r is None <==> parsed_url(text@) is None,
        r matches Some(p) ==> parsed_url(text@) == Some(url_parts_view(p)),
{
    match reqwest::Url::parse(text) {
        Ok(url) => Some(
            UrlParts {
                scheme: url.scheme().to_owned(),
                host: match url.host_str() {
                    Some(h) => Some(h.to_owned()),
                    None => None,
                },
            },
        ),
        Err(_) => None,
    }
}

/// An IP address: four octets, or eight 16-bit segments.
#[derive(Debug, Clone, Copy)]
pub enum IpAddress {
    /// An IPv4 address by its octets.
    V4([u8; 4]),
    /// An IPv6 address by its segments.
    V6([u16; 8]),
}

/// What `IpAddr::from_str` makes of the text: `None` where it refuses it.
pub uninterp spec fn parsed_ip(text: Seq<char>) -> Option<IpAddress>;

/// Calls `<IpAddr as FromStr>::from_str` and reads the address's octets or segments.
#[verifier::external_body]
pub fn parse_ip(text: &str) -> (r: Option<IpAddress>)
    ensures
        r == parsed_ip(text@),
{
    match text.parse::<core::net::IpAddr>() {
        Ok(core::net::IpAddr::V4(a)) => Some(IpAddress::V4(a.octets())),
        Ok(core::net::IpAddr::V6(a)) => Some(IpAddress::V6(a.segments())),
        Err(_) => None,
    }
}

/// Whether the address is a loopback address: `127.0.0.0/8`, or `::1`.
pub open spec fn is_loopback_address(ip: IpAddress) -> bool {
    match ip {
        IpAddress::V4(o) => o[0] == 127,
        IpAddress::V6(s) => s@ == seq![0u16, 0, 0, 0, 0, 0, 0, 1],
    }
}

impl IpAddress {
    /// Whether the address is a loopback address, as `IpAddr::is_loopback` decides it.
    pub fn is_loopback(&self) -> (r: bool)
        ensures
            r == is_loopback_address(*self),
    {
        match self {
            IpAddress::V4(o) => o[0] == 127,
            IpAddress::V6(s) => {
                let r = s[0] == 0 && s[1] == 0 && s[2] == 0 && s[3] == 0 && s[4] == 0 && s[5]
                    == 0 && s[6] == 0 && s[7] == 1;
                assert(r ==> s@ =~= seq![0u16, 0, 0, 0, 0, 0, 0, 1]);
                r
            },
        }
    }
}

} // verus!
