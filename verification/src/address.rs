//! The address and command vocabularies of the two sides of the bridge.
//!
//! IP addresses are held as their numeric values and host names as plain
//! strings, so that every conversion the bridge performs is a total,
//! lossless rearrangement of these fields.

use vstd::prelude::*;

verus! {

/// An IP address: an IPv4 address as its 32-bit value, or an IPv6 address
/// as its 128-bit value.
#[derive(Clone, Copy, Debug, PartialEq, Eq, Structural)]
pub enum IpAddress {
    V4(u32),
    V6(u128),
}

/// A socket address: an IP address together with a port.
#[derive(Clone, Copy, Debug, PartialEq, Eq, Structural)]
pub struct SockAddr {
    pub ip: IpAddress,
    pub port: u16,
}

/// An address in the SOCKS5 wire vocabulary: either a socket address or a
/// domain name with a port.
#[derive(Clone, Debug, PartialEq, Eq)]
pub enum SocksAddress {
    SocketAddress(SockAddr),
    DomainAddress(String, u16),
}

/// An address in the relay vocabulary, used on the datagram relay path.
/// Structurally it mirrors `SocksAddress`.
#[derive(Clone, Debug, PartialEq, Eq)]
pub enum RelayAddress {
    SocketAddress(SockAddr),
    DomainAddress(String, u16),
}

/// An address in the tunnel protocol's vocabulary, used on the stream
/// establishment path. It mirrors `SocksAddress` except that the non-IP
/// variant is named after a URI authority rather than a domain.
#[derive(Clone, Debug, PartialEq, Eq)]
pub enum TunnelAddress {
    SocketAddress(SockAddr),
    UriAuthorityAddress(String, u16),
}

/// The SOCKS5 commands that reach the translator. Only `Connect` does:
/// every other command is filtered out upstream, before translation.
#[derive(Clone, Copy, Debug, PartialEq, Eq, Structural)]
pub enum SocksCommand {
    Connect,
}

/// The tunnel protocol's commands that the translator produces.
#[derive(Clone, Copy, Debug, PartialEq, Eq, Structural)]
pub enum TunnelCommand {
    Connect,
}

impl SocksAddress {
    /// The all-zero IPv4 socket address, used as the placeholder address of
    /// a failure reply.
    pub open spec fn spec_unspecified() -> SocksAddress {
        SocksAddress::SocketAddress(SockAddr { ip: IpAddress::V4(0), port: 0 })
    }

    pub fn unspecified() -> (r: SocksAddress)
        ensures
            r == SocksAddress::spec_unspecified(),
    {
        SocksAddress::SocketAddress(SockAddr { ip: IpAddress::V4(0), port: 0 })
    }
}

} // verus!
