use std::io::{IoSlice, Read};

use socket2::{Domain, SockAddr, Socket, Type};
use tokio_udp::gather::{concatenate, join, joined_len, slices, EmptyList, Transmission};
use tokio_udp::platform::SendWait;
use tokio_udp::{Platform, UdpSocket};

fn copy_of(transmission: Transmission) -> Vec<u8> {
    match transmission {
        Transmission::Joined(copy) => copy,
        other => panic!("{other:?}"),
    }
}

fn slice_of(transmission: Transmission) -> Vec<u8> {
    match transmission {
        Transmission::Single(slice) => slice.to_vec(),
        other => panic!("{other:?}"),
    }
}

#[test]
fn a_copying_send_carries_every_buffer() {
    let socket = UdpSocket::fallback(Platform::Unix);
    let parts = [
        IoSlice::new(b"ab"),
        IoSlice::new(b"cd"),
        IoSlice::new(b"ef"),
    ];
    let outgoing = socket.send_vectored(&parts);
    assert!(outgoing.target.is_none());
    assert_eq!(outgoing.wait, SendWait::Runtime);
    assert_eq!(copy_of(outgoing.transmission), b"abcdef");
}

#[test]
fn a_copying_send_of_one_buffer_copies_nothing() {
    let socket = UdpSocket::new(Platform::Windows);
    let buf = b"x";
    let parts = [IoSlice::new(buf)];
    match socket.send_vectored(&parts).transmission {
        Transmission::Single(slice) => {
            assert_eq!(slice, b"x");
            assert!(slice.as_ptr() == buf.as_ptr());
        }
        other => panic!("{other:?}"),
    }
}

#[test]
fn a_copying_send_of_an_empty_list_sends_nothing() {
    for socket in [UdpSocket::new(Platform::Other), UdpSocket::fallback(Platform::Unix)] {
        let outgoing = socket.send_vectored(&[]);
        assert!(matches!(outgoing.transmission, Transmission::Nothing));
        assert_eq!(outgoing.transmission.settled(), Some(Ok(0)));
    }
}

#[test]
fn a_copying_send_of_one_empty_buffer_is_still_a_datagram() {
    let socket = UdpSocket::new(Platform::Other);
    let parts = [IoSlice::new(b"")];
    assert_eq!(slice_of(socket.send_vectored(&parts).transmission), b"");
}

#[test]
fn a_vectored_send_gathers_its_buffers() {
    for (platform, wait) in [
        (Platform::Unix, SendWait::Writable),
        (Platform::MacOs, SendWait::Backoff),
    ] {
        let socket = UdpSocket::new(platform);
        for parts in [
            vec![IoSlice::new(b"hello "), IoSlice::new(b"world")],
            vec![IoSlice::new(b"hello")],
            vec![IoSlice::new(b"")],
        ] {
            let outgoing = socket.send_vectored(&parts);
            assert!(matches!(outgoing.transmission, Transmission::Gather));
            assert_eq!(outgoing.transmission.settled(), None);
            assert_eq!(outgoing.wait, wait);
        }
    }
}

#[test]
fn a_vectored_send_refuses_an_empty_list() {
    let target = SockAddr::unix("/tmp/a").unwrap();
    for platform in [Platform::Unix, Platform::MacOs] {
        let socket = UdpSocket::new(platform);
        for outgoing in [
            socket.send_vectored(&[]),
            socket.send_to_vectored(&[], &target),
            socket.plan_send(&[], None).unwrap(),
            socket.plan_send(&[], Some(&target)).unwrap(),
        ] {
            assert!(matches!(outgoing.transmission, Transmission::Rejected));
            assert_eq!(outgoing.transmission.settled(), Some(Err(EmptyList)));
        }
    }
    assert_eq!(EmptyList.message(), "no buffers to send");
    assert_eq!(EmptyList.code(Platform::MacOs), Some(40));
    assert_eq!(EmptyList.code(Platform::Unix), None);
}

#[test]
fn a_plain_send_is_a_vectored_send_of_one_buffer() {
    let buf = IoSlice::new(b"alone");
    let copying = UdpSocket::fallback(Platform::Unix);
    let outgoing = copying.send(&buf);
    assert!(outgoing.target.is_none());
    assert_eq!(outgoing.wait, SendWait::Runtime);
    assert_eq!(outgoing.transmission.settled(), None);
    assert_eq!(slice_of(outgoing.transmission), b"alone");
    let gathering = UdpSocket::new(Platform::Unix);
    let outgoing = gathering.send(&buf);
    assert!(matches!(outgoing.transmission, Transmission::Gather));
    assert_eq!(outgoing.bufs.len(), 1);
    assert_eq!(&outgoing.bufs[0][..], b"alone");
    let (a, mut b) = Socket::pair(Domain::UNIX, Type::DGRAM, None).unwrap();
    assert_eq!(a.sendmsg(&outgoing.message(), 0).unwrap(), 5);
    let mut received = [0u8; 32];
    let n = b.read(&mut received).unwrap();
    assert_eq!(&received[..n], b"alone");
}

#[test]
fn any_split_of_the_bytes_makes_the_same_datagram() {
    let whole = b"hello vectored";
    let target = SockAddr::unix("\0any_split_of_the_bytes_makes_the_same_datagram").unwrap();
    let mut receiver = Socket::new(Domain::UNIX, Type::DGRAM, None).unwrap();
    receiver.bind(&target).unwrap();
    let sender = Socket::new(Domain::UNIX, Type::DGRAM, None).unwrap();
    let gathering = UdpSocket::new(Platform::Unix);
    let copying = UdpSocket::fallback(Platform::Unix);
    for cut in 0..whole.len() {
        let parts = [IoSlice::new(&whole[..cut]), IoSlice::new(&whole[cut..])];
        let message = gathering.send_to_vectored(&parts, &target).message();
        assert_eq!(sender.sendmsg(&message, 0).unwrap(), whole.len());
        let mut received = [0u8; 32];
        let n = receiver.read(&mut received).unwrap();
        assert_eq!(&received[..n], whole);
        assert_eq!(copy_of(copying.send_to_vectored(&parts, &target).transmission), whole);
    }
}

#[test]
fn a_send_to_an_address_keeps_the_address() {
    let socket = UdpSocket::fallback(Platform::Unix);
    let target = SockAddr::unix("/tmp/a").unwrap();
    let header = b"HDR:";
    let body = b"hello vectored";
    let parts = [IoSlice::new(header), IoSlice::new(body)];
    let outgoing = socket.send_to_vectored(&parts, &target);
    assert!(outgoing.target == Some(&target));
    assert_eq!(copy_of(outgoing.transmission), b"HDR:hello vectored");
}

#[test]
fn a_planned_send_is_the_send_itself() {
    let socket = UdpSocket::fallback(Platform::Unix);
    let target = SockAddr::unix("/tmp/a").unwrap();
    let parts = [IoSlice::new(b"one"), IoSlice::new(b"two")];
    let outgoing = socket.plan_send(&parts, Some(&target)).unwrap();
    assert!(outgoing.target == Some(&target));
    assert_eq!(copy_of(outgoing.transmission), b"onetwo");
    let outgoing = socket.plan_send(&parts, None).unwrap();
    assert!(outgoing.target.is_none());
    assert_eq!(copy_of(outgoing.transmission), b"onetwo");
    let outgoing = UdpSocket::new(Platform::Unix).plan_send(&parts, None).unwrap();
    assert!(matches!(outgoing.transmission, Transmission::Gather));
}

#[test]
fn slices_are_joined_in_order() {
    assert_eq!(join(&[b"ab", b"", b"cde"]), b"abcde");
    assert_eq!(join(&[]), b"");
    assert_eq!(joined_len(&[b"ab", b"", b"cde"]), Some(5));
    assert_eq!(joined_len(&[]), Some(0));
    let parts = [IoSlice::new(b"ab"), IoSlice::new(b"c")];
    assert_eq!(slices(&parts), vec![&b"ab"[..], &b"c"[..]]);
    assert_eq!(copy_of(concatenate(&[b"ab", b"c"])), b"abc");
    assert_eq!(slice_of(concatenate(&[b"ab"])), b"ab");
    assert!(matches!(concatenate(&[]), Transmission::Nothing));
}

#[test]
fn the_datagram_of_two_lists_is_theirs_in_order() {
    let whole = join(&[b"he", b"llo", b" wor", b"ld"]);
    let mut halves = join(&[b"he", b"llo"]);
    halves.extend(join(&[b" wor", b"ld"]));
    assert_eq!(whole, halves);
}

#[test]
fn a_message_carries_every_buffer_in_one_datagram() {
    let (a, mut b) = Socket::pair(Domain::UNIX, Type::DGRAM, None).unwrap();
    let parts = [IoSlice::new(b"hello "), IoSlice::new(b"world")];
    let message = UdpSocket::try_send_vectored(&parts, None);
    assert_eq!(a.sendmsg(&message, 0).unwrap(), 11);
    let mut buf = [0u8; 32];
    let n = b.read(&mut buf).unwrap();
    assert_eq!(&buf[..n], b"hello world");
}

#[test]
fn a_message_goes_to_the_address_it_names() {
    let target = SockAddr::unix("\0a_message_goes_to_the_address_it_names").unwrap();
    let mut receiver = Socket::new(Domain::UNIX, Type::DGRAM, None).unwrap();
    receiver.bind(&target).unwrap();
    let sender = Socket::new(Domain::UNIX, Type::DGRAM, None).unwrap();
    let parts = [IoSlice::new(b"HDR:"), IoSlice::new(b"hello vectored")];
    assert!(sender
        .sendmsg(&UdpSocket::try_send_vectored(&parts, None), 0)
        .is_err());
    let message = UdpSocket::try_send_vectored(&parts, Some(&target));
    assert_eq!(sender.sendmsg(&message, 0).unwrap(), 18);
    let mut buf = [0u8; 64];
    let n = receiver.read(&mut buf).unwrap();
    assert_eq!(&buf[..n], b"HDR:hello vectored");
}
