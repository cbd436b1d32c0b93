//! Per-datagram and per-session decisions of the association bridge.
//!
//! The bridge runs outside the library as two concurrent forwarding loops
//! racing against a connection-closed watch. Each loop's body is a pure
//! decision, stated and proved here: what to do with a datagram received
//! from the local socket (forward it to the relay, fix the peer, or drop a
//! fragment), what to send to the local socket for a message arriving from
//! the relay, how to reply after binding the local socket, and what the
//! whole association returns once one branch of the race finishes.

use vstd::prelude::*;

use crate::address::RelayAddress;
use crate::address::SockAddr;
use crate::address::SocksAddress;
use crate::convert::relay_address_of;
use crate::convert::socks_address_of;
use crate::convert::spec_relay_of;
use crate::convert::spec_socks_of;

verus! {

/// A datagram received from the local socket before the socket is
/// connected: payload, fragmentation id, declared destination, and the
/// sender's socket address.
#[derive(Clone, Debug, PartialEq, Eq)]
pub struct LocalDatagram {
    pub payload: Vec<u8>,
    pub fragment_id: u8,
    pub destination: SocksAddress,
    pub source: SockAddr,
}

/// A packet handed to the outbound relay channel: the payload and the
/// destination it is to be relayed to, in the relay vocabulary.
#[derive(Clone, Debug, PartialEq, Eq)]
pub struct RelayPacket {
    pub payload: Vec<u8>,
    pub address: RelayAddress,
}

/// A datagram to send on the local socket for a message that arrived from
/// the relay: payload, fragmentation id, and the remote source it is
/// presented as coming from, in the SOCKS5 wire vocabulary.
#[derive(Clone, Debug, PartialEq, Eq)]
pub struct LocalSendPacket {
    pub payload: Vec<u8>,
    pub fragment_id: u8,
    pub source: SocksAddress,
}

/// A local I/O failure, carried as the raw OS error code of the operation
/// that failed, or zero where none was reported.
#[derive(Clone, Copy, Debug, PartialEq, Eq, Structural)]
pub struct SocketError {
    pub code: i32,
}

/// The state of the local-to-relay direction: still discovering the
/// client's peer address, or connected to the peer that sent the first
/// unfragmented datagram.
#[derive(Clone, Copy, Debug, PartialEq, Eq, Structural)]
pub enum Phase {
    Discovery,
    Connected { peer: SockAddr },
}

/// The packet the local-to-relay direction forwards for one received
/// datagram, in either phase: nothing for a fragment continuation, the
/// translated `(payload, destination)` pair otherwise. No reassembly is
/// attempted: fragments are dropped, never buffered.
pub open spec fn spec_forward_decision(
    payload: Vec<u8>,
    fragment_id: u8,
    destination: SocksAddress,
) -> Option<RelayPacket> {
    if fragment_id == 0 {
        Some(RelayPacket { payload, address: spec_relay_of(destination) })
    } else {
        None
    }
}

/// The packet forwarded for one local datagram, if any.
pub open spec fn spec_forwarded_packet(d: LocalDatagram) -> Option<RelayPacket> {
    spec_forward_decision(d.payload, d.fragment_id, d.destination)
}

/// The phase after one local datagram is handled: the first unfragmented
/// datagram's sender becomes the fixed peer, and a connected phase never
/// changes again.
pub open spec fn spec_next_phase(phase: Phase, d: LocalDatagram) -> Phase {
    if d.fragment_id == 0 {
        match phase {
            Phase::Discovery => Phase::Connected { peer: d.source },
            Phase::Connected { peer } => Phase::Connected { peer },
        }
    } else {
        phase
    }
}

/// The decision taken on a datagram received while in discovery.
#[derive(Clone, Debug, PartialEq, Eq)]
pub enum DiscoveryAction {
    /// The datagram is a fragment continuation: drop it and keep waiting.
    Skip,
    /// The first unfragmented datagram: forward its payload to the relay
    /// and connect the local socket to the datagram's sender.
    Establish { forward: RelayPacket, peer: SockAddr },
}

/// Decides what to do with a datagram received from the unconnected local
/// socket. A fragment continuation is dropped; the first complete datagram
/// is translated and forwarded, and its sender becomes the fixed peer.
pub fn discovery_step(d: LocalDatagram) -> (r: DiscoveryAction)
    ensures
        d.fragment_id != 0 ==> r == DiscoveryAction::Skip,
        d.fragment_id == 0 ==> (r matches DiscoveryAction::Establish { forward, peer }
            && forward.payload == d.payload
            && forward.address == spec_relay_of(d.destination)
            && peer == d.source),
        r matches DiscoveryAction::Establish { forward, peer } ==> (Some(forward)
            == spec_forwarded_packet(d) && spec_next_phase(Phase::Discovery, d) == (Phase::Connected {
            peer,
        })),
        r is Skip ==> spec_forwarded_packet(d) is None && spec_next_phase(Phase::Discovery, d)
            == Phase::Discovery,
{
    if d.fragment_id == 0 {
        DiscoveryAction::Establish {
            forward: RelayPacket { payload: d.payload, address: relay_address_of(d.destination) },
            peer: d.source,
        }
    } else {
        DiscoveryAction::Skip
    }
}

/// Decides what to do with a datagram received on the connected read path:
/// a fragment continuation yields nothing, a complete datagram yields the
/// packet to forward to the relay.
pub fn connected_step(payload: Vec<u8>, fragment_id: u8, destination: SocksAddress) -> (r: Option<
    RelayPacket,
>)
    ensures
        r == spec_forward_decision(payload, fragment_id, destination),
        fragment_id != 0 ==> r is None,
        fragment_id == 0 ==> (r matches Some(p) && p.payload == payload && p.address
            == spec_relay_of(destination)),
{
    if fragment_id == 0 {
        Some(RelayPacket { payload, address: relay_address_of(destination) })
    } else {
        None
    }
}

/// Builds the single unfragmented datagram to send to the client for a
/// message that arrived from the relay: the payload is kept exactly, the
/// fragmentation id is zero, and the remote source address is translated
/// back to the SOCKS5 wire form.
pub fn inbound_step(payload: Vec<u8>, source: RelayAddress) -> (r: LocalSendPacket)
    ensures
        r.payload == payload,
        r.fragment_id == 0,
        r.source == spec_socks_of(source),
{
    LocalSendPacket { payload, fragment_id: 0, source: socks_address_of(source) }
}

/// The address a fresh local datagram socket is bound to: the same IP as
/// the control connection's local address, with an ephemeral port.
pub fn bind_address(local: SockAddr) -> (r: SockAddr)
    ensures
        r.ip == local.ip,
        r.port == 0,
{
    SockAddr { ip: local.ip, port: 0 }
}

/// What the bridge does right after trying to bind the local socket.
#[derive(Clone, Debug, PartialEq, Eq)]
pub enum SetupAction {
    /// The bind succeeded: submit a relay session (best effort) and reply
    /// success to the client with the bound address.
    Establish { reply_address: SocksAddress },
    /// The bind failed: reply a general failure with the unspecified
    /// address, shut the control connection down, and return the error.
    /// No relay session is created on this path.
    Refuse { error: SocketError, reply_address: SocksAddress },
}

/// Decides the reply owed to the client from the outcome of binding the
/// local datagram socket.
pub fn setup_step(bind_result: Result<SockAddr, SocketError>) -> (r: SetupAction)
    ensures
        bind_result matches Ok(a) ==> r == (SetupAction::Establish {
            reply_address: SocksAddress::SocketAddress(a),
        }),
        bind_result matches Err(e) ==> r == (SetupAction::Refuse {
            error: e,
            reply_address: SocksAddress::spec_unspecified(),
        }),
{
    match bind_result {
        Ok(a) => SetupAction::Establish { reply_address: SocksAddress::SocketAddress(a) },
        Err(e) => SetupAction::Refuse { error: e, reply_address: SocksAddress::unspecified() },
    }
}

/// How the race of the three concurrent branches of an association ended.
/// The first branch to finish wins and the others are cancelled.
#[derive(Clone, Copy, Debug, PartialEq, Eq, Structural)]
pub enum BranchOutcome {
    /// The client closed the control connection.
    ControlClosed,
    /// The inbound relay channel is permanently closed: the relay side has
    /// nothing left to deliver.
    RelayDrained,
    /// A forwarding loop failed on local-socket I/O.
    LocalIoFailed { error: SocketError },
}

/// The association's terminal result. Only a genuine I/O failure is an
/// error: the client closing the connection and the relay running dry are
/// normal endings, and a dropped best-effort channel send never reaches
/// this point at all.
pub fn session_result(w: BranchOutcome) -> (r: Result<(), SocketError>)
    ensures
        w is ControlClosed ==> r is Ok,
        w is RelayDrained ==> r is Ok,
        w matches BranchOutcome::LocalIoFailed { error } ==> (r matches Err(e) && e == error),
{
    match w {
        BranchOutcome::ControlClosed => Ok(()),
        BranchOutcome::RelayDrained => Ok(()),
        BranchOutcome::LocalIoFailed { error } => Err(error),
    }
}

/// The phase after a whole sequence of received local datagrams.
pub open spec fn spec_run_phase(phase: Phase, ds: Seq<LocalDatagram>) -> Phase
    decreases ds.len(),
{
    if ds.len() == 0 {
        phase
    } else {
        spec_run_phase(spec_next_phase(phase, ds[0]), ds.drop_first())
    }
}

/// Everything the local-to-relay direction forwards over the relay channel
/// for a sequence of received datagrams, in order of receipt.
pub open spec fn spec_run_forwarded(ds: Seq<LocalDatagram>) -> Seq<RelayPacket>
    decreases ds.len(),
{
    if ds.len() == 0 {
        Seq::empty()
    } else {
        match spec_forwarded_packet(ds[0]) {
            Some(p) => seq![p] + spec_run_forwarded(ds.drop_first()),
            None => spec_run_forwarded(ds.drop_first()),
        }
    }
}

/// The unfragmented datagrams of a sequence, in order.
pub open spec fn spec_unfragmented(ds: Seq<LocalDatagram>) -> Seq<LocalDatagram>
    decreases ds.len(),
{
    if ds.len() == 0 {
        Seq::empty()
    } else if ds[0].fragment_id == 0 {
        seq![ds[0]] + spec_unfragmented(ds.drop_first())
    } else {
        spec_unfragmented(ds.drop_first())
    }
}

/// The translated packets of a sequence of datagrams, one per datagram.
pub open spec fn spec_packets_of(ds: Seq<LocalDatagram>) -> Seq<RelayPacket>
    decreases ds.len(),
{
    if ds.len() == 0 {
        Seq::empty()
    } else {
        seq![
            RelayPacket { payload: ds[0].payload, address: spec_relay_of(ds[0].destination) },
        ] + spec_packets_of(ds.drop_first())
    }
}

proof fn lemma_packets_of_cons(d: LocalDatagram, s: Seq<LocalDatagram>)
    ensures
        spec_packets_of(seq![d] + s) == seq![
            RelayPacket { payload: d.payload, address: spec_relay_of(d.destination) },
        ] + spec_packets_of(s),
{
    assert((seq![d] + s)[0] == d);
    assert((seq![d] + s).drop_first() =~= s);
}

/// What reaches the relay is exactly the unfragmented datagrams, each
/// translated, in order: a fragment continuation is never forwarded, in
/// discovery or in the connected phase, and no forwarded packet is
/// reordered, duplicated or invented.
pub proof fn lemma_forwarded_exactly_unfragmented(ds: Seq<LocalDatagram>)
    ensures
        spec_run_forwarded(ds) == spec_packets_of(spec_unfragmented(ds)),
    decreases ds.len(),
{
    if ds.len() == 0 {
        assert(spec_run_forwarded(ds) =~= spec_packets_of(spec_unfragmented(ds)));
    } else {
        lemma_forwarded_exactly_unfragmented(ds.drop_first());
        if ds[0].fragment_id == 0 {
            lemma_packets_of_cons(ds[0], spec_unfragmented(ds.drop_first()));
        }
    }
}

/// Once connected, the peer never changes: no later datagram, fragmented
/// or not, moves the local-to-relay direction off the established peer.
pub proof fn lemma_peer_fixed(peer: SockAddr, ds: Seq<LocalDatagram>)
    ensures
        spec_run_phase(Phase::Connected { peer }, ds) == (Phase::Connected { peer }),
    decreases ds.len(),
{
    if ds.len() != 0 {
        lemma_peer_fixed(peer, ds.drop_first());
    }
}

/// Discovery ends at the first unfragmented datagram: if the datagrams
/// before index `k` are all fragment continuations and the one at `k` is
/// complete, then the first packet to reach the relay carries exactly that
/// datagram's payload and its translated destination, and from then on the
/// direction stays connected to that datagram's source.
pub proof fn lemma_discovery_establishes_peer(ds: Seq<LocalDatagram>, k: int)
    requires
        0 <= k < ds.len(),
        forall|i: int| 0 <= i < k ==> ds[i].fragment_id != 0,
        ds[k].fragment_id == 0,
    ensures
        spec_run_phase(Phase::Discovery, ds) == (Phase::Connected { peer: ds[k].source }),
        spec_run_forwarded(ds).len() > 0,
        spec_run_forwarded(ds)[0].payload == ds[k].payload,
        spec_run_forwarded(ds)[0].address == spec_relay_of(ds[k].destination),
    decreases k,
{
    if k == 0 {
        lemma_peer_fixed(ds[0].source, ds.drop_first());
    } else {
        assert forall|i: int| 0 <= i < k - 1 implies ds.drop_first()[i].fragment_id != 0 by {
            assert(ds.drop_first()[i] == ds[i + 1]);
        }
        assert(ds.drop_first()[k - 1] == ds[k]);
        lemma_discovery_establishes_peer(ds.drop_first(), k - 1);
    }
}

} // verus!
