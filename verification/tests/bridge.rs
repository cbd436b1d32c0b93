use udp_associate::address::IpAddress;
use udp_associate::address::RelayAddress;
use udp_associate::address::SockAddr;
use udp_associate::address::SocksAddress;
use udp_associate::bridge::bind_address;
use udp_associate::bridge::connected_step;
use udp_associate::bridge::discovery_step;
use udp_associate::bridge::inbound_step;
use udp_associate::bridge::session_result;
use udp_associate::bridge::setup_step;
use udp_associate::bridge::BranchOutcome;
use udp_associate::bridge::DiscoveryAction;
use udp_associate::bridge::LocalDatagram;
use udp_associate::bridge::SetupAction;
use udp_associate::bridge::SocketError;

fn client_addr() -> SockAddr {
    // 10.0.0.2:40000
    SockAddr { ip: IpAddress::V4(0x0a00_0002), port: 40000 }
}

fn remote_addr() -> SockAddr {
    // 93.184.216.34:53
    SockAddr { ip: IpAddress::V4(0x5db8_d822), port: 53 }
}

fn datagram(fragment_id: u8, payload: &[u8]) -> LocalDatagram {
    LocalDatagram {
        payload: payload.to_vec(),
        fragment_id,
        destination: SocksAddress::SocketAddress(remote_addr()),
        source: client_addr(),
    }
}

#[test]
fn discovery_skips_fragment_continuations() {
    for fragment_id in [1u8, 2, 255] {
        assert_eq!(discovery_step(datagram(fragment_id, b"half")), DiscoveryAction::Skip);
    }
}

#[test]
fn first_unfragmented_datagram_fixes_peer_and_forwards_destination() {
    // Two fragments arrive first and are dropped; the first complete
    // datagram establishes the session.
    assert_eq!(discovery_step(datagram(1, b"frag-a")), DiscoveryAction::Skip);
    assert_eq!(discovery_step(datagram(2, b"frag-b")), DiscoveryAction::Skip);
    match discovery_step(datagram(0, b"query")) {
        DiscoveryAction::Establish { forward, peer } => {
            assert_eq!(forward.payload, b"query".to_vec());
            assert_eq!(forward.address, RelayAddress::SocketAddress(remote_addr()));
            assert_eq!(peer, client_addr());
        }
        DiscoveryAction::Skip => panic!("complete datagram was not forwarded"),
    }
}

#[test]
fn connected_path_drops_fragments_and_forwards_complete_datagrams() {
    let dst = SocksAddress::DomainAddress(String::from("example.org"), 123);
    assert_eq!(connected_step(b"late".to_vec(), 7, dst.clone()), None);
    let forwarded = connected_step(b"ping".to_vec(), 0, dst).expect("complete datagram dropped");
    assert_eq!(forwarded.payload, b"ping".to_vec());
    assert_eq!(forwarded.address, RelayAddress::DomainAddress(String::from("example.org"), 123));
}

#[test]
fn relay_message_becomes_one_unfragmented_datagram() {
    // 1.2.3.4:5
    let source = RelayAddress::SocketAddress(SockAddr { ip: IpAddress::V4(0x0102_0304), port: 5 });
    let sent = inbound_step(b"abc".to_vec(), source);
    assert_eq!(sent.payload, b"abc".to_vec());
    assert_eq!(sent.fragment_id, 0);
    assert_eq!(
        sent.source,
        SocksAddress::SocketAddress(SockAddr { ip: IpAddress::V4(0x0102_0304), port: 5 })
    );
}

#[test]
fn relay_domain_source_is_translated_back() {
    let sent = inbound_step(b"reply".to_vec(), RelayAddress::DomainAddress(String::from("a.b"), 9));
    assert_eq!(sent.source, SocksAddress::DomainAddress(String::from("a.b"), 9));
    assert_eq!(sent.fragment_id, 0);
}

#[test]
fn bind_address_keeps_ip_and_uses_ephemeral_port() {
    let bound = bind_address(SockAddr { ip: IpAddress::V6(1), port: 1080 });
    assert_eq!(bound.ip, IpAddress::V6(1));
    assert_eq!(bound.port, 0);
}

#[test]
fn successful_bind_replies_with_bound_address() {
    let bound = SockAddr { ip: IpAddress::V4(0x7f00_0001), port: 49152 };
    assert_eq!(
        setup_step(Ok(bound)),
        SetupAction::Establish { reply_address: SocksAddress::SocketAddress(bound) }
    );
}

#[test]
fn failed_bind_replies_general_failure_with_unspecified_address() {
    let err = SocketError { code: 98 };
    assert_eq!(
        setup_step(Err(err)),
        SetupAction::Refuse { error: err, reply_address: SocksAddress::unspecified() }
    );
}

#[test]
fn connection_close_ends_association_without_error() {
    assert_eq!(session_result(BranchOutcome::ControlClosed), Ok(()));
}

#[test]
fn drained_relay_channel_is_a_normal_ending() {
    assert_eq!(session_result(BranchOutcome::RelayDrained), Ok(()));
}

#[test]
fn local_io_failure_ends_association_with_that_error() {
    let err = SocketError { code: 111 };
    assert_eq!(session_result(BranchOutcome::LocalIoFailed { error: err }), Err(err));
}
