//! Peer addresses, held as plain bytes.
use vstd::prelude::*;

verus! {

/// An IP address: four octets, or sixteen for IPv6, most significant first.
#[derive(Debug, Clone, Copy, PartialEq, Eq)]
pub enum IpAddress {
    V4([u8; 4]),
    V6([u8; 16]),
}

/// The address that a text names, in the notation of std's `IpAddr`
/// parser, or nothing when the text is not an address.
pub uninterp spec fn parsed_ip(s: Seq<char>) -> Option<IpAddress>;

/// Relies on `<core::net::IpAddr as FromStr>::from_str` (std's `IpAddr`):
/// the address in dotted-quad or IPv6 notation, `None` on any other text.
#[verifier::external_body]
pub(crate) fn parse_ip(s: &str) -> (r: Option<IpAddress>)
    ensures
        r == parsed_ip(s@),
{
    match s.parse::<core::net::IpAddr>() {
        Ok(core::net::IpAddr::V4(a)) => Some(IpAddress::V4(a.octets())),
        Ok(core::net::IpAddr::V6(a)) => Some(IpAddress::V6(a.octets())),
        Err(_) => None,
    }
}

} // verus!
