//! Translation between the SOCKS5 vocabulary and the relay and tunnel
//! vocabularies.
//!
//! Every conversion is total and lossless: the socket-address variant
//! passes through unchanged, and the non-IP variant keeps its host string
//! and port exactly, changing only its name. The lemmas at the end state
//! that each conversion is a bijection between the two variant sets.

use vstd::prelude::*;
use vstd::std_specs::convert::FromSpec;

use crate::address::RelayAddress;
use crate::address::SocksAddress;
use crate::address::SocksCommand;
use crate::address::TunnelAddress;
use crate::address::TunnelCommand;

verus! {

/// The relay form of a SOCKS5 wire address.
pub open spec fn spec_relay_of(a: SocksAddress) -> RelayAddress {
    match a {
        SocksAddress::SocketAddress(s) => RelayAddress::SocketAddress(s),
        SocksAddress::DomainAddress(host, port) => RelayAddress::DomainAddress(host, port),
    }
}

/// The SOCKS5 wire form of a relay address.
pub open spec fn spec_socks_of(a: RelayAddress) -> SocksAddress {
    match a {
        RelayAddress::SocketAddress(s) => SocksAddress::SocketAddress(s),
        RelayAddress::DomainAddress(host, port) => SocksAddress::DomainAddress(host, port),
    }
}

/// The tunnel form of a SOCKS5 wire address.
pub open spec fn spec_tunnel_of(a: SocksAddress) -> TunnelAddress {
    match a {
        SocksAddress::SocketAddress(s) => TunnelAddress::SocketAddress(s),
        SocksAddress::DomainAddress(host, port) => TunnelAddress::UriAuthorityAddress(host, port),
    }
}

/// The SOCKS5 wire form of a tunnel address.
pub open spec fn spec_socks_of_tunnel(a: TunnelAddress) -> SocksAddress {
    match a {
        TunnelAddress::SocketAddress(s) => SocksAddress::SocketAddress(s),
        TunnelAddress::UriAuthorityAddress(host, port) => SocksAddress::DomainAddress(host, port),
    }
}

/// Translates a datagram's SOCKS5 wire address into the relay vocabulary.
pub fn relay_address_of(a: SocksAddress) -> (r: RelayAddress)
    ensures
        r == spec_relay_of(a),
{
    match a {
        SocksAddress::SocketAddress(s) => RelayAddress::SocketAddress(s),
        SocksAddress::DomainAddress(host, port) => RelayAddress::DomainAddress(host, port),
    }
}

/// Translates a relay address back into the SOCKS5 wire vocabulary.
pub fn socks_address_of(a: RelayAddress) -> (r: SocksAddress)
    ensures
        r == spec_socks_of(a),
{
    match a {
        RelayAddress::SocketAddress(s) => SocksAddress::SocketAddress(s),
        RelayAddress::DomainAddress(host, port) => SocksAddress::DomainAddress(host, port),
    }
}

impl core::convert::From<SocksAddress> for TunnelAddress {
    /// Translates a SOCKS5 address into the tunnel vocabulary.
    fn from(a: SocksAddress) -> (r: TunnelAddress) {
        match a {
            SocksAddress::SocketAddress(s) => TunnelAddress::SocketAddress(s),
            SocksAddress::DomainAddress(host, port) => {
                TunnelAddress::UriAuthorityAddress(host, port)
            },
        }
    }
}

impl vstd::std_specs::convert::FromSpecImpl<SocksAddress> for TunnelAddress {
    open spec fn obeys_from_spec() -> bool {
        true
    }

    open spec fn from_spec(a: SocksAddress) -> TunnelAddress {
        spec_tunnel_of(a)
    }
}

impl core::convert::From<SocksCommand> for TunnelCommand {
    /// Translates the one supported SOCKS5 command into the tunnel
    /// vocabulary.
    fn from(c: SocksCommand) -> (r: TunnelCommand) {
        match c {
            SocksCommand::Connect => TunnelCommand::Connect,
        }
    }
}

impl vstd::std_specs::convert::FromSpecImpl<SocksCommand> for TunnelCommand {
    open spec fn obeys_from_spec() -> bool {
        true
    }

    open spec fn from_spec(c: SocksCommand) -> TunnelCommand {
        TunnelCommand::Connect
    }
}

/// Address translation between the SOCKS5 and relay vocabularies is a
/// bijection: translating to the relay form and back yields the original
/// address, variant, host string and port included.
pub proof fn lemma_relay_round_trip(a: SocksAddress)
    ensures
        spec_socks_of(spec_relay_of(a)) == a,
{
}

/// The inverse round trip: a relay address survives translation to the
/// SOCKS5 wire form and back unchanged.
pub proof fn lemma_socks_round_trip(a: RelayAddress)
    ensures
        spec_relay_of(spec_socks_of(a)) == a,
{
}

/// Address translation between the SOCKS5 and tunnel vocabularies is a
/// bijection: translating to the tunnel form and back yields the original
/// address; the non-IP variant keeps its host string and port across the
/// renaming.
pub proof fn lemma_tunnel_round_trip(a: SocksAddress)
    ensures
        spec_socks_of_tunnel(spec_tunnel_of(a)) == a,
{
}

/// The inverse round trip on the tunnel side.
pub proof fn lemma_tunnel_inverse_round_trip(a: TunnelAddress)
    ensures
        spec_tunnel_of(spec_socks_of_tunnel(a)) == a,
{
}

/// Command translation sends `Connect` to `Connect`; no other command
/// enters the translator's domain.
pub proof fn lemma_command_connect(c: SocksCommand)
    ensures
        c == SocksCommand::Connect,
        TunnelCommand::from_spec(c) == TunnelCommand::Connect,
{
}

} // verus!
