use std::io::{Error, ErrorKind, IoSlice, Read};

use socket2::{Domain, SockAddr, Socket, Type};
use tokio_udp::{Platform, Step, UdpSocket};

/// Carries out a send whose attempts have these outcomes. Returns the number of
/// attempts, the sleeps and the result.
fn run(outcomes: Vec<Result<usize, ErrorKind>>) -> (usize, Vec<u64>, Result<usize, ErrorKind>) {
    let parts = [IoSlice::new(b"x")];
    let outgoing = UdpSocket::new(Platform::MacOs).send_vectored(&parts);
    let mut send = UdpSocket::send_vectored_with_bounded_backoff(outgoing);
    let mut sleeps = Vec::new();
    let mut attempts = 0;
    for outcome in outcomes {
        attempts += 1;
        match send.step(outcome.map_err(Error::from)) {
            Step::Done(result) => return (attempts, sleeps, result.map_err(|error| error.kind())),
            Step::Again => {}
            Step::Sleep(micros) => sleeps.push(micros),
        }
    }
    panic!("the send is not over after {attempts} attempts");
}

#[test]
fn a_send_that_succeeds_at_once_sleeps_never() {
    assert_eq!(run(vec![Ok(1), Ok(1)]), (1, vec![], Ok(1)));
}

#[test]
fn a_send_sleeps_the_schedule_until_it_succeeds() {
    let blocked = Err(ErrorKind::WouldBlock);
    let interrupted = Err(ErrorKind::Interrupted);
    assert_eq!(
        run(vec![blocked, interrupted, blocked, interrupted, Ok(9)]),
        (5, vec![1_000, 2_000], Ok(9))
    );
    assert_eq!(
        run(vec![blocked, blocked, blocked, blocked, blocked, Ok(9)]),
        (6, vec![1_000, 2_000, 4_000, 8_000, 16_000], Ok(9))
    );
}

#[test]
fn a_send_gives_up_at_the_sixth_refusal() {
    let blocked = Err(ErrorKind::WouldBlock);
    assert_eq!(
        run(vec![blocked; 7]),
        (6, vec![1_000, 2_000, 4_000, 8_000, 16_000], blocked)
    );
}

#[test]
fn another_failure_ends_the_send() {
    assert_eq!(
        run(vec![Err(ErrorKind::WouldBlock), Err(ErrorKind::ConnectionRefused), Ok(1)]),
        (2, vec![1_000], Err(ErrorKind::ConnectionRefused))
    );
}

#[test]
fn every_attempt_sends_the_same_datagram_to_the_same_address() {
    let target =
        SockAddr::unix("\0every_attempt_sends_the_same_datagram_to_the_same_address").unwrap();
    let mut receiver = Socket::new(Domain::UNIX, Type::DGRAM, None).unwrap();
    receiver.bind(&target).unwrap();
    let sender = Socket::new(Domain::UNIX, Type::DGRAM, None).unwrap();
    let parts = [IoSlice::new(b"HDR:"), IoSlice::new(b"again")];
    let outgoing = UdpSocket::new(Platform::MacOs).send_to_vectored(&parts, &target);
    let mut send = UdpSocket::send_vectored_with_bounded_backoff(outgoing);
    for failure in [
        ErrorKind::Interrupted,
        ErrorKind::WouldBlock,
        ErrorKind::WouldBlock,
        ErrorKind::Interrupted,
    ] {
        assert_eq!(sender.sendmsg(&send.message(), 0).unwrap(), 9);
        let mut received = [0u8; 32];
        let n = receiver.read(&mut received).unwrap();
        assert_eq!(&received[..n], b"HDR:again");
        assert!(!matches!(send.step(Err(Error::from(failure))), Step::Done(_)));
    }
}
