use std::cell::Cell;
use std::io::{Error, ErrorKind, Read, Write};
use std::time::Duration;

use socket2::{Domain, Socket, Type};
use tokio::io::unix::AsyncFd;
use tokio::io::Interest;
use tokio::runtime::{Builder, Handle, Runtime};
use tokio_udp::{Attempt, UdpSocket};

const BUDGET: Duration = Duration::from_secs(5);

fn runtime() -> Runtime {
    Builder::new_multi_thread().worker_threads(2).enable_all().build().unwrap()
}

/// Two connected datagram sockets that do not block.
fn pair() -> (Socket, Socket) {
    let (a, b) = Socket::pair(Domain::UNIX, Type::DGRAM, None).unwrap();
    a.set_nonblocking(true).unwrap();
    b.set_nonblocking(true).unwrap();
    (a, b)
}

#[allow(deprecated)]
fn register(socket: Socket) -> AsyncFd<Socket> {
    AsyncFd::new(socket).unwrap()
}

/// Offers an operation to the runtime's own `try_io`.
fn offer<Op, T>(fd: &AsyncFd<Socket>, interest: Interest, op: Op) -> Attempt<Op, T>
where
    Op: FnOnce(&Socket) -> Result<T, Error>,
{
    let mut op = Some(op);
    let result = fd.try_io(interest, |socket| {
        op.take().expect("the operation runs at most once")(socket)
    });
    match op {
        Some(op) => Attempt::Skipped(op),
        None => Attempt::Ran(result),
    }
}

fn try_recv(fd: &AsyncFd<Socket>, buf: &mut [u8]) -> Result<usize, Error> {
    UdpSocket::try_recv(
        fd.get_ref(),
        |interest, op| offer(fd, interest, op),
        |mut socket: &Socket| socket.read(buf),
    )
}

fn is_cached(fd: &AsyncFd<Socket>, interest: Interest) -> bool {
    fd.try_io(interest, |_| -> Result<(), Error> { Ok(()) }).is_ok()
}

/// Stands for a runtime with a cached event.
fn run_readable<Op>(interest: Interest, op: Op) -> Attempt<Op, u8>
where
    Op: FnOnce(&u8) -> Result<u8, Error>,
{
    assert!(interest == Interest::READABLE);
    Attempt::Ran(op(&7))
}

#[test]
fn an_operation_that_the_runtime_ran_is_not_run_again() {
    let runs = Cell::new(0);
    let result = UdpSocket::nonblocking(Interest::READABLE, &7u8, run_readable, |socket: &u8| {
        runs.set(runs.get() + 1);
        Ok(*socket)
    });
    assert_eq!(result.unwrap(), 7);
    assert_eq!(runs.get(), 1);
}

#[test]
fn an_operation_that_the_runtime_skipped_still_runs() {
    let runs = Cell::new(0);
    let result = UdpSocket::nonblocking(
        Interest::WRITABLE,
        &7u8,
        |_, op| Attempt::<_, u8>::Skipped(op),
        |socket: &u8| {
            runs.set(runs.get() + 1);
            Ok(*socket)
        },
    );
    assert_eq!(result.unwrap(), 7);
    assert_eq!(runs.get(), 1);
}

#[test]
fn a_send_asks_for_writability_and_a_receive_for_readability() {
    let sent: Result<u8, Error> = UdpSocket::try_send(
        &1u8,
        |interest, op| {
            assert!(interest == Interest::WRITABLE);
            Attempt::Skipped(op)
        },
        |socket: &u8| Ok(*socket),
    );
    assert_eq!(sent.unwrap(), 1);
    let received: Result<u8, Error> = UdpSocket::try_recv(
        &2u8,
        |interest, op| {
            assert!(interest == Interest::READABLE);
            Attempt::Skipped(op)
        },
        |socket: &u8| Ok(*socket),
    );
    assert_eq!(received.unwrap(), 2);
}

#[test]
fn try_send_on_a_socket_the_driver_has_not_polled_yet_still_sends() {
    let runtime = Builder::new_current_thread().enable_all().build().unwrap();
    let (client, mut server) = pair();
    runtime.block_on(async {
        let client = register(client);
        let sent = UdpSocket::try_send(
            client.get_ref(),
            |interest, op| offer(&client, interest, op),
            |mut socket: &Socket| socket.write(b"probe"),
        );
        assert_eq!(sent.unwrap(), 5);
        let mut buf = [0u8; 8];
        let n = server.read(&mut buf).unwrap();
        assert_eq!(&buf[..n], b"probe");
    });
}

#[test]
fn a_would_block_try_recv_stops_claiming_the_socket_is_readable() {
    let (server, mut client) = pair();
    runtime().block_on(async {
        let server = register(server);
        client.write(b"x").unwrap();
        let _ = tokio::time::timeout(BUDGET, server.readable()).await.unwrap().unwrap();
        let mut buf = [0u8; 8];
        let mut got = 0;
        loop {
            match try_recv(&server, &mut buf) {
                Ok(n) => {
                    assert_eq!(&buf[..n], b"x");
                    got += 1;
                }
                Err(e) if e.kind() == ErrorKind::WouldBlock => break,
                Err(e) => panic!("{e}"),
            }
        }
        assert_eq!(got, 1);
        let again = tokio::time::timeout(Duration::from_millis(200), server.readable()).await;
        assert!(
            again.is_err(),
            "readable() returned with nothing left to read"
        );
    });
}

#[test]
fn a_failing_operation_drops_the_event_it_was_armed_with() {
    let (socket, _peer) = pair();
    runtime().block_on(async {
        let socket = register(socket);
        let _ = tokio::time::timeout(BUDGET, socket.writable())
            .await
            .expect("the driver never published WRITABLE")
            .unwrap();
        assert!(
            is_cached(&socket, Interest::WRITABLE),
            "WRITABLE must be cached before the operation runs"
        );
        let result: Result<usize, Error> = UdpSocket::nonblocking(
            Interest::WRITABLE,
            socket.get_ref(),
            |interest, op| offer(&socket, interest, op),
            |_: &Socket| Err(ErrorKind::WouldBlock.into()),
        );
        assert_eq!(
            result.unwrap_err().kind(),
            ErrorKind::WouldBlock,
            "the operation's error must reach the caller"
        );
        assert!(
            !is_cached(&socket, Interest::WRITABLE),
            "a failing operation must drop the readiness event it was armed with"
        );
    });
}

#[test]
fn a_would_block_clear_keeps_an_event_published_while_the_operation_ran() {
    let runtime = runtime();
    let (socket, mut peer) = pair();
    let main = runtime.spawn(async move {
        let socket = register(socket);
        let mut buf = [0u8; 16];

        peer.write(b"first").unwrap();
        let _ = tokio::time::timeout(BUDGET, socket.readable())
            .await
            .expect("the driver never published the first datagram")
            .unwrap();
        assert!(
            is_cached(&socket, Interest::READABLE),
            "READABLE must be cached before the operation runs"
        );

        let result: Result<usize, Error> = UdpSocket::nonblocking(
            Interest::READABLE,
            socket.get_ref(),
            |interest, op| offer(&socket, interest, op),
            |_: &Socket| {
                // The datagram that armed the event is consumed, and a second
                // receive fails on an empty queue and drops the event.
                assert_eq!(try_recv(&socket, &mut buf).unwrap(), 5);
                assert_eq!(
                    try_recv(&socket, &mut buf).unwrap_err().kind(),
                    ErrorKind::WouldBlock
                );
                // A second datagram is announced while the operation runs.
                peer.write(b"second").unwrap();
                tokio::task::block_in_place(|| {
                    Handle::current().block_on(async {
                        let _ = tokio::time::timeout(BUDGET, socket.readable())
                            .await
                            .expect("the driver never published the second datagram")
                            .unwrap();
                    })
                });
                Err(ErrorKind::WouldBlock.into())
            },
        );
        assert_eq!(
            result.unwrap_err().kind(),
            ErrorKind::WouldBlock,
            "the operation must report the failing syscall's error"
        );
        assert!(
            is_cached(&socket, Interest::READABLE),
            "the clear consumed a readiness event the driver published while the operation ran"
        );
        let n = try_recv(&socket, &mut buf).unwrap();
        assert_eq!(&buf[..n], b"second");
    });
    runtime.block_on(main).unwrap();
}
