//! IP addresses as plain integers.

use vstd::prelude::*;

verus! {

/// An IPv4 address as its 32 bits, or an IPv6 address as its 128 bits, most
/// significant first.
#[derive(Debug, Clone, Copy, PartialEq, Eq, Structural)]
pub enum IpAddress {
    V4(u32),
    V6(u128),
}

/// The address that a string denotes in the standard textual syntax (dotted
/// IPv4, or IPv6 with `::` and an optional trailing dotted part), if it
/// is one; no host names, ports, prefixes or zones.
pub uninterp spec fn address_syntax(s: Seq<char>) -> Option<IpAddress>;

/// Relies on `core::net::IpAddr`'s `FromStr`: it reads exactly the standard
/// textual forms of an IPv4 or IPv6 address, and nothing else.
#[verifier::external_body]
pub(crate) fn parse_address(s: &str) -> (r: Option<IpAddress>)
    ensures
        r == address_syntax(s@),
{
    match s.parse::<core::net::IpAddr>() {
        Ok(core::net::IpAddr::V4(a)) => Some(IpAddress::V4(u32::from(a))),
        Ok(core::net::IpAddr::V6(a)) => Some(IpAddress::V6(u128::from(a))),
        Err(_) => None,
    }
}

} // verus!
