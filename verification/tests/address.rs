use std::io::{Error, ErrorKind};

use socket2::{Domain, SockAddr, Socket, Type};
use tokio_udp::address::{endpoint, endpoint_from, require_endpoint};
use tokio_udp::{AddressError, Endpoint, SocketError, UdpSocket};

const V4: Endpoint = Endpoint::V4 { ip4: [127, 0, 0, 1], port: 8080 };
const V6: Endpoint = Endpoint::V6 {
    ip6: [0x20, 1, 0xd, 0xb8, 0, 0, 0, 0, 0, 0, 0, 0, 0, 0, 0, 7],
    port: 53,
    flowinfo: 9,
    scope_id: 2,
};

fn record_of(addr: &str) -> SockAddr {
    let runtime = tokio::runtime::Builder::new_current_thread().build().unwrap();
    let found = runtime.block_on(async { tokio::net::lookup_host(addr).await.unwrap().next() });
    SockAddr::from(found.unwrap())
}

fn no_internet_address() -> SockAddr {
    SockAddr::unix("/tmp/nowhere").unwrap()
}

#[test]
fn an_endpoint_comes_from_either_family() {
    let ip6 = [0x20, 1, 0xd, 0xb8, 0, 0, 0, 0, 0, 0, 0, 0, 0, 0, 0, 7];
    assert_eq!(endpoint_from(Some(([127, 0, 0, 1], 8080)), None), Some(V4));
    assert_eq!(endpoint_from(None, Some((ip6, 53, 9, 2))), Some(V6));
    assert_eq!(endpoint_from(None, None), None);
}

#[test]
fn a_missing_endpoint_is_the_error_of_its_owner() {
    assert!(matches!(require_endpoint(Some(V4), AddressError::Local), Ok(found) if found == V4));
    for whose in [AddressError::Local, AddressError::Peer, AddressError::Source] {
        match require_endpoint(None, whose) {
            Err(SocketError::Address(found)) => assert_eq!(found, whose),
            other => panic!("{other:?}"),
        }
    }
}

#[test]
fn each_address_error_has_its_text() {
    assert_eq!(AddressError::Local.message(), "failed to convert socket address");
    assert_eq!(AddressError::Peer.message(), "failed to convert peer address");
    assert_eq!(AddressError::Source.message(), "failed to convert source address");
}

#[test]
fn an_unbound_socket_reports_the_unspecified_address() {
    let socket = Socket::new(Domain::IPV4, Type::DGRAM, None).unwrap();
    assert_eq!(
        UdpSocket::local_addr(socket.local_addr()).unwrap(),
        Endpoint::V4 { ip4: [0, 0, 0, 0], port: 0 }
    );
}

#[test]
fn an_address_of_another_family_is_no_endpoint() {
    assert_eq!(endpoint(&no_internet_address()), None);
    assert!(matches!(
        UdpSocket::local_addr(Ok(no_internet_address())),
        Err(SocketError::Address(AddressError::Local))
    ));
    assert!(matches!(
        UdpSocket::peer_addr(Ok(no_internet_address())),
        Err(SocketError::Address(AddressError::Peer))
    ));
    assert!(matches!(
        UdpSocket::recv_from(Ok((4, no_internet_address()))),
        Err(SocketError::Address(AddressError::Source))
    ));
}

#[test]
fn a_refusal_of_the_system_is_passed_on() {
    match UdpSocket::local_addr(Err(Error::from(ErrorKind::InvalidInput))) {
        Err(SocketError::Io(error)) => assert_eq!(error.kind(), ErrorKind::InvalidInput),
        other => panic!("{other:?}"),
    }
    match UdpSocket::peer_addr(Err(Error::from(ErrorKind::NotConnected))) {
        Err(SocketError::Io(error)) => assert_eq!(error.kind(), ErrorKind::NotConnected),
        other => panic!("{other:?}"),
    }
    match UdpSocket::recv_from(Err(Error::from(ErrorKind::ConnectionRefused))) {
        Err(SocketError::Io(error)) => assert_eq!(error.kind(), ErrorKind::ConnectionRefused),
        other => panic!("{other:?}"),
    }
}

#[test]
fn a_record_reads_as_the_endpoint_it_was_made_from() {
    assert_eq!(endpoint(&record_of("127.0.0.1:8080")), Some(V4));
    assert_eq!(
        endpoint(&record_of("[2001:db8::7%2]:53")),
        Some(Endpoint::V6 {
            ip6: [0x20, 1, 0xd, 0xb8, 0, 0, 0, 0, 0, 0, 0, 0, 0, 0, 0, 7],
            port: 53,
            flowinfo: 0,
            scope_id: 2,
        })
    );
}

#[test]
fn a_receive_names_the_sender() {
    match UdpSocket::recv_from(Ok((4, record_of("127.0.0.1:8080")))) {
        Ok((n, source)) => {
            assert_eq!(n, 4);
            assert_eq!(source, V4);
        }
        other => panic!("{other:?}"),
    }
    assert_eq!(
        UdpSocket::peer_addr(Ok(record_of("127.0.0.1:8080"))).unwrap(),
        V4
    );
}
