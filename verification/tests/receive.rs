use std::io::{Error, ErrorKind, Read, Write};
use std::time::Duration;

use bytes::BytesMut;
use socket2::{Domain, SockAddr, Socket, Type};
use tokio::io::unix::AsyncFd;
use tokio::runtime::Builder;
use tokio_udp::{
    recv_interest, try_recv_interest, AddressError, Endpoint, ReceiveBuffer, SocketError, UdpSocket,
};

fn would_block() -> Error {
    Error::from(ErrorKind::WouldBlock)
}

fn record_of(addr: &str) -> SockAddr {
    let runtime = Builder::new_current_thread().build().unwrap();
    let found = runtime.block_on(async { tokio::net::lookup_host(addr).await.unwrap().next() });
    SockAddr::from(found.unwrap())
}

/// Two connected datagram sockets that do not block.
fn pair() -> (Socket, Socket) {
    let (a, b) = Socket::pair(Domain::UNIX, Type::DGRAM, None).unwrap();
    a.set_nonblocking(true).unwrap();
    b.set_nonblocking(true).unwrap();
    (a, b)
}

#[allow(deprecated)]
fn register(socket: Socket) -> AsyncFd<Socket> {
    AsyncFd::new(socket).unwrap()
}

/// One receive of a system socket into at most `room` bytes.
fn system_recv(mut socket: &Socket, room: usize) -> Result<Vec<u8>, Error> {
    let mut datagram = vec![0u8; room];
    let n = socket.read(&mut datagram)?;
    datagram.truncate(n);
    Ok(datagram)
}

#[test]
fn recv_buf_advances_the_growable_buffer() {
    let runtime = Builder::new_multi_thread().enable_all().build().unwrap();
    let client_addr = record_of("127.0.0.1:8080");
    let (server, mut client) = pair();
    runtime.block_on(async {
        let server = register(server);
        client.write(b"hello").unwrap();
        let mut buf = BytesMut::with_capacity(64);
        let n = server
            .async_io(recv_interest(), |socket| {
                UdpSocket::recv_buf(&mut buf, |room| system_recv(socket, room))
            })
            .await
            .unwrap();
        assert_eq!(n, 5);
        assert_eq!(
            &buf[..],
            b"hello",
            "recv_buf must commit the read bytes to the buffer"
        );

        client.write(b"world").unwrap();
        let mut buf = BytesMut::with_capacity(64);
        let (n, src) = server
            .async_io(recv_interest(), |socket| {
                UdpSocket::recv_buf_from(&mut buf, |room| {
                    Ok((system_recv(socket, room)?, client_addr.clone()))
                })
                .map_err(|error| match error {
                    SocketError::Io(error) => error,
                    SocketError::Address(error) => Error::other(error.message()),
                })
            })
            .await
            .unwrap();
        assert_eq!(n, 5);
        assert_eq!(
            &buf[..],
            b"world",
            "recv_buf_from must commit the read bytes to the buffer"
        );
        assert_eq!(src, UdpSocket::local_addr(Ok(client_addr.clone())).unwrap());
    });
}

#[test]
fn the_sender_of_a_datagram_is_named() {
    let mut buf = BytesMut::with_capacity(64);
    let source = record_of("127.0.0.1:8080");
    let (n, src) =
        UdpSocket::recv_buf_from(&mut buf, |_| Ok((b"world".to_vec(), source.clone()))).unwrap();
    assert_eq!(n, 5);
    assert_eq!(&buf[..], b"world");
    assert_eq!(src, Endpoint::V4 { ip4: [127, 0, 0, 1], port: 8080 });
}

#[test]
fn bytes_are_added_after_those_already_there() {
    let mut buf = BytesMut::from(&b"ab"[..]);
    assert_eq!(UdpSocket::recv_buf(&mut buf, |_| Ok(b"cd".to_vec())).unwrap(), 2);
    assert_eq!(UdpSocket::recv_buf(&mut buf, |_| Ok(Vec::new())).unwrap(), 0);
    assert_eq!(UdpSocket::recv_buf(&mut buf, |_| Ok(b"e".to_vec())).unwrap(), 1);
    assert_eq!(&buf[..], b"abcde");
    let mut buf = b"ab".to_vec();
    assert_eq!(UdpSocket::recv_buf(&mut buf, |_| Ok(b"cd".to_vec())).unwrap(), 2);
    assert_eq!(buf, b"abcd");
}

#[test]
fn a_full_buffer_makes_room() {
    let mut buf = BytesMut::new();
    assert!(buf.room() >= 64);
    let mut buf: Vec<u8> = Vec::new();
    assert!(buf.room() >= 64);
    assert!(buf.is_empty());
    let mut buf: Vec<u8> = Vec::with_capacity(10);
    buf.push(1);
    let room = buf.room();
    assert_eq!(room, buf.capacity() - 1);
    assert_eq!(buf, [1]);
}

#[test]
fn room_is_all_the_free_space() {
    for capacity in [1usize, 10, 64, 5_000] {
        let mut buf = BytesMut::with_capacity(capacity);
        let room = buf.room();
        assert_eq!(room, buf.capacity());
        assert!(room >= capacity);
        buf.commit(b"x");
        let room = buf.room();
        assert_eq!(room, buf.capacity() - 1);
        assert_eq!(&buf[..], b"x");
        let mut buf: Vec<u8> = Vec::with_capacity(capacity);
        assert_eq!(buf.room(), buf.capacity());
        buf.commit(b"x");
        let room = buf.room();
        assert_eq!(room, buf.capacity() - 1);
        assert_eq!(buf, b"x");
    }
}

#[test]
fn a_datagram_is_cut_only_at_the_room_of_the_buffer() {
    let (a, mut b) = pair();
    let datagram: Vec<u8> = (0..100u8).collect();
    for capacity in [1usize, 7, 64, 99, 100, 101, 300] {
        b.write(&datagram).unwrap();
        let mut buf = BytesMut::with_capacity(capacity);
        let want = datagram.len().min(buf.capacity());
        let n = UdpSocket::recv_buf(&mut buf, |room| system_recv(&a, room)).unwrap();
        assert_eq!(n, want);
        assert_eq!(&buf[..], &datagram[..want]);

        b.write(&datagram).unwrap();
        let mut buf: Vec<u8> = Vec::with_capacity(capacity + 2);
        buf.extend(b"ab");
        let want = datagram.len().min(buf.capacity() - 2);
        let source = record_of("127.0.0.1:8080");
        let (n, _) = UdpSocket::recv_buf_from(&mut buf, |room| {
            Ok((system_recv(&a, room)?, source.clone()))
        })
        .unwrap();
        assert_eq!(n, want);
        assert_eq!(&buf[..2], b"ab");
        assert_eq!(&buf[2..], &datagram[..want]);
    }
}

#[test]
fn the_operation_is_given_the_room_there_is() {
    let mut buf: Vec<u8> = Vec::with_capacity(32);
    let capacity = buf.capacity();
    let n = UdpSocket::recv_buf(&mut buf, |room| {
        assert_eq!(room, capacity);
        Ok(vec![9; 3])
    });
    assert_eq!(n.unwrap(), 3);
    assert_eq!(buf, [9, 9, 9]);
}

#[test]
fn a_failed_receive_leaves_the_buffer_alone() {
    let mut buf = BytesMut::from(&b"ab"[..]);
    let error = UdpSocket::recv_buf(&mut buf, |_| Err(would_block())).unwrap_err();
    assert_eq!(error.kind(), ErrorKind::WouldBlock);
    assert_eq!(&buf[..], b"ab");
    match UdpSocket::recv_buf_from(&mut buf, |_| Err(Error::from(ErrorKind::ConnectionRefused))) {
        Err(SocketError::Io(error)) => assert_eq!(error.kind(), ErrorKind::ConnectionRefused),
        other => panic!("{other:?}"),
    }
    assert_eq!(&buf[..], b"ab");
}

#[test]
fn a_datagram_without_an_internet_sender_is_kept_and_reported() {
    let mut buf = BytesMut::new();
    let result = UdpSocket::recv_buf_from(&mut buf, |_| {
        Ok((b"kept".to_vec(), SockAddr::unix("/tmp/nowhere").unwrap()))
    });
    assert!(matches!(result, Err(SocketError::Address(AddressError::Source))));
    assert_eq!(&buf[..], b"kept");
}

#[test]
fn datagrams_are_committed_once_however_many_receives_fail() {
    let mut buf: Vec<u8> = Vec::new();
    let replies = [None, Some("one"), None, None, Some("two"), Some(""), None, Some("three")];
    for reply in replies {
        let result = UdpSocket::recv_buf(&mut buf, |_| match reply {
            Some(datagram) => Ok(datagram.as_bytes().to_vec()),
            None => Err(would_block()),
        });
        assert_eq!(result.ok(), reply.map(|datagram| datagram.len()));
    }
    assert_eq!(buf, b"onetwothree");
}

#[test]
fn a_receive_dropped_while_it_waits_leaves_the_late_datagram_for_the_next() {
    let runtime = Builder::new_multi_thread().enable_all().build().unwrap();
    let (server, mut b) = pair();
    runtime.block_on(async {
        let server = register(server);
        for round in 0..8u8 {
            let mut dropped = BytesMut::new();
            let waiting = server.async_io(recv_interest(), |socket| {
                UdpSocket::recv_buf(&mut dropped, |room| system_recv(socket, room))
            });
            assert!(
                tokio::time::timeout(Duration::from_millis(5), waiting).await.is_err(),
                "round {round}: the socket must start empty, so the receive parks"
            );
            assert!(dropped.is_empty());
            b.write(&[round, 0x5A, 0xA5]).unwrap();
            let mut buf = BytesMut::new();
            let waiting = server.async_io(recv_interest(), |socket| {
                UdpSocket::recv_buf(&mut buf, |room| system_recv(socket, room))
            });
            let n = tokio::time::timeout(Duration::from_secs(5), waiting).await.unwrap().unwrap();
            assert_eq!(n, 3);
            assert_eq!(&buf[..], [round, 0x5A, 0xA5]);
        }
    });
}

#[test]
fn receivers_that_share_a_socket_conserve_every_datagram() {
    let (a, mut b) = pair();
    let mut bufs: Vec<Vec<u8>> = vec![Vec::new(), Vec::new(), Vec::new()];
    for tag in 0..40u8 {
        b.write(&[tag]).unwrap();
        for turn in 0..2usize {
            let receiver = (tag as usize + turn) % 3;
            let result = UdpSocket::recv_buf(&mut bufs[receiver], |room| system_recv(&a, room));
            match result {
                Ok(n) => assert_eq!((n, turn), (1, 0)),
                Err(error) => assert_eq!((error.kind(), turn), (ErrorKind::WouldBlock, 1)),
            }
        }
    }
    let mut all: Vec<u8> = bufs.concat();
    all.sort();
    assert_eq!(all, (0..40u8).collect::<Vec<u8>>());
}

#[test]
fn a_receive_is_given_exactly_the_room_it_has() {
    let mut buf = b"ab".to_vec();
    let n = UdpSocket::receive_into(&mut buf, 3, |room| {
        assert_eq!(room, 3);
        Ok(b"cde".to_vec())
    });
    assert_eq!(n.unwrap(), 3);
    assert_eq!(buf, b"abcde");
    let n = UdpSocket::receive_into(&mut buf, 0, |room| Ok(vec![7; room]));
    assert_eq!(n.unwrap(), 0);
    assert_eq!(buf, b"abcde");
    let error = UdpSocket::receive_into(&mut buf, 8, |_| Err(would_block())).unwrap_err();
    assert_eq!(error.kind(), ErrorKind::WouldBlock);
    assert_eq!(buf, b"abcde");

    let source = record_of("127.0.0.1:8080");
    let mut buf = BytesMut::from(&b"ab"[..]);
    let (n, src) = UdpSocket::receive_from_into(&mut buf, 3, |room| {
        assert_eq!(room, 3);
        Ok((b"cde".to_vec(), source.clone()))
    })
    .unwrap();
    assert_eq!(n, 3);
    assert_eq!(src, Endpoint::V4 { ip4: [127, 0, 0, 1], port: 8080 });
    assert_eq!(&buf[..], b"abcde");
    let result = UdpSocket::receive_from_into(&mut buf, 1, |_| {
        Ok((b"f".to_vec(), SockAddr::unix("/tmp/nowhere").unwrap()))
    });
    assert!(matches!(result, Err(SocketError::Address(AddressError::Source))));
    assert_eq!(&buf[..], b"abcdef");
    match UdpSocket::receive_from_into(&mut buf, 1, |_| Err(would_block())) {
        Err(SocketError::Io(error)) => assert_eq!(error.kind(), ErrorKind::WouldBlock),
        other => panic!("{other:?}"),
    }
    assert_eq!(&buf[..], b"abcdef");
}

#[test]
fn each_receive_names_the_sender_of_its_own_datagram() {
    let mut queue = Vec::new();
    for port in 8001..8007u16 {
        queue.push((port.to_be_bytes().to_vec(), record_of(&format!("127.0.0.1:{port}"))));
    }
    queue.reverse();
    let mut received: Vec<Vec<(Vec<u8>, Endpoint)>> = vec![Vec::new(), Vec::new()];
    for turn in 0..6usize {
        let mut buf = BytesMut::new();
        let (n, src) =
            UdpSocket::recv_buf_from(&mut buf, |_| queue.pop().ok_or_else(would_block)).unwrap();
        assert_eq!(n, 2);
        received[turn % 2].push((buf.to_vec(), src));
    }
    let mut buf = BytesMut::new();
    assert!(UdpSocket::recv_buf_from(&mut buf, |_| queue.pop().ok_or_else(would_block)).is_err());
    let mut all = received.concat();
    all.sort_by(|one, other| one.0.cmp(&other.0));
    for (i, (bytes, src)) in all.into_iter().enumerate() {
        let port = 8001 + i as u16;
        assert_eq!(bytes, port.to_be_bytes());
        assert_eq!(src, Endpoint::V4 { ip4: [127, 0, 0, 1], port });
    }
}

#[test]
fn a_late_datagram_stays_announced_until_a_receive_finds_nothing() {
    let runtime = Builder::new_multi_thread().enable_all().build().unwrap();
    let (server, mut b) = pair();
    runtime.block_on(async {
        let server = register(server);
        let mut dropped = BytesMut::new();
        let waiting = server.async_io(recv_interest(), |socket| {
            UdpSocket::recv_buf(&mut dropped, |room| system_recv(socket, room))
        });
        assert!(tokio::time::timeout(Duration::from_millis(5), waiting).await.is_err());
        b.write(b"late").unwrap();
        for _ in 0..2 {
            let ready = tokio::time::timeout(Duration::from_secs(5), server.readable());
            assert!(ready.await.unwrap().is_ok());
        }
        let mut buf = BytesMut::new();
        let result = server.try_io(try_recv_interest(), |socket| {
            UdpSocket::recv_buf(&mut buf, |room| system_recv(socket, room))
        });
        assert_eq!(result.unwrap(), 4);
        assert_eq!(&buf[..], b"late");
        let result = server.try_io(try_recv_interest(), |socket| {
            UdpSocket::recv_buf(&mut buf, |room| system_recv(socket, room))
        });
        assert_eq!(result.unwrap_err().kind(), ErrorKind::WouldBlock);
        let ready = tokio::time::timeout(Duration::from_millis(20), server.readable());
        assert!(ready.await.is_err());
    });
}
