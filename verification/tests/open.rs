use std::cell::RefCell;
use std::io::{Error, ErrorKind};

use socket2::{Domain, Protocol, SockAddr, Socket, Type};
use tokio_udp::open::domain_for;
use tokio_udp::{Endpoint, UdpSocket};

const V4: Endpoint = Endpoint::V4 { ip4: [127, 0, 0, 1], port: 0 };
const V6: Endpoint = Endpoint::V6 { ip6: [0; 16], port: 0, flowinfo: 0, scope_id: 0 };

/// Opens a pretended socket whose step number `failing` fails, and returns the
/// steps that were taken and the result.
fn open_failing_at(addr: &Endpoint, failing: usize) -> (Vec<&'static str>, Result<u32, usize>) {
    let steps = RefCell::new(Vec::new());
    let take = |step: &'static str| {
        steps.borrow_mut().push(step);
        let number = steps.borrow().len();
        if number == failing {
            Err(number)
        } else {
            Ok(())
        }
    };
    let result = UdpSocket::bind(
        addr,
        |_, _, _| take("create").map(|()| 7u8),
        |socket: u8, on| {
            assert_eq!(socket, 7);
            assert!(on);
            take("set_nonblocking").map(|()| u16::from(socket) * 10)
        },
        |socket: u16, to: &Endpoint| {
            assert_eq!(socket, 70);
            assert_eq!(to, addr);
            take("bind").map(|()| u32::from(socket) * 10)
        },
        |socket: u32| take("register").map(|()| socket + 1),
    );
    (steps.into_inner(), result)
}

#[test]
fn a_socket_is_made_for_the_family_of_its_address() {
    assert!(domain_for(&V4) == Domain::IPV4);
    assert!(domain_for(&V6) == Domain::IPV6);
    for (addr, want) in [(V4, Domain::IPV4), (V6, Domain::IPV6)] {
        let result: Result<u8, ()> = UdpSocket::bind(
            &addr,
            |domain, kind, protocol| {
                assert!(domain == want);
                assert!(kind == Type::DGRAM);
                assert!(protocol == Some(Protocol::UDP));
                Ok(1u8)
            },
            |socket: u8, _| Ok(socket),
            |socket: u8, _: &Endpoint| Ok(socket),
            Ok,
        );
        assert_eq!(result, Ok(1));
    }
}

#[test]
fn opening_takes_four_steps_in_order() {
    assert_eq!(
        open_failing_at(&V4, 0),
        (vec!["create", "set_nonblocking", "bind", "register"], Ok(701))
    );
}

#[test]
fn the_first_step_that_fails_is_the_last() {
    assert_eq!(open_failing_at(&V4, 1), (vec!["create"], Err(1)));
    assert_eq!(
        open_failing_at(&V4, 2),
        (vec!["create", "set_nonblocking"], Err(2))
    );
    assert_eq!(
        open_failing_at(&V4, 3),
        (vec!["create", "set_nonblocking", "bind"], Err(3))
    );
    assert_eq!(
        open_failing_at(&V4, 4),
        (vec!["create", "set_nonblocking", "bind", "register"], Err(4))
    );
}

#[test]
fn a_system_socket_is_opened_and_never_blocks() {
    let runtime = tokio::runtime::Builder::new_current_thread().build().unwrap();
    let found =
        runtime.block_on(async { tokio::net::lookup_host("127.0.0.1:0").await.unwrap().next() });
    let addr = SockAddr::from(found.unwrap());
    let socket: Result<Socket, Error> = UdpSocket::bind(
        &V4,
        Socket::new,
        |socket: Socket, on| socket.set_nonblocking(on).map(|()| socket),
        |socket: Socket, _: &Endpoint| socket.bind(&addr).map(|()| socket),
        Ok,
    );
    let socket = socket.unwrap();
    match UdpSocket::local_addr(socket.local_addr()).unwrap() {
        Endpoint::V4 { ip4, port } => {
            assert_eq!(ip4, [127, 0, 0, 1]);
            assert_ne!(port, 0);
        }
        other => panic!("{other:?}"),
    }
    let mut buf = Vec::with_capacity(8);
    assert_eq!(
        socket.recv(buf.spare_capacity_mut()).unwrap_err().kind(),
        ErrorKind::WouldBlock
    );
}
