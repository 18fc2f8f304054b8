//! Socket addresses, as plain values and as the system's records of them.
use vstd::prelude::*;

use socket2::SockAddr;

use crate::platform::UdpSocket;

verus! {

/// `socket2::SockAddr`, the system's record of an address of any family.
#[verifier::external_type_specification]
#[verifier::external_body]
pub struct ExSockAddr(SockAddr);

/// The two families of internet addresses.
#[derive(Clone, Copy, Debug, PartialEq, Eq, Structural)]
pub enum Family {
    V4,
    V6,
}

/// An internet address and a port.
#[derive(Clone, Copy, Debug, PartialEq, Eq)]
pub enum Endpoint {
    V4 { ip4: [u8; 4], port: u16 },
    V6 { ip6: [u8; 16], port: u16, flowinfo: u32, scope_id: u32 },
}

impl Endpoint {
    /// The family of the address.
    pub open spec fn family(self) -> Family {
        match self {
            Endpoint::V4 { .. } => Family::V4,
            Endpoint::V6 { .. } => Family::V6,
        }
    }
}

/// The address and port that `SockAddr::as_socket_ipv4` reads.
pub uninterp spec fn ipv4_of(addr: SockAddr) -> Option<([u8; 4], u16)>;

/// The address, port, flow information and scope that
/// `SockAddr::as_socket_ipv6` reads.
pub uninterp spec fn ipv6_of(addr: SockAddr) -> Option<([u8; 16], u16, u32, u32)>;

/// The endpoint, from what a record reads as in either family.
pub open spec fn either_family(
    ipv4: Option<([u8; 4], u16)>,
    ipv6: Option<([u8; 16], u16, u32, u32)>,
) -> Option<Endpoint> {
    match ipv4 {
        Some((ip4, port)) => Some(Endpoint::V4 { ip4, port }),
        None => match ipv6 {
            Some((ip6, port, flowinfo, scope_id)) => Some(
                Endpoint::V6 { ip6, port, flowinfo, scope_id },
            ),
            None => None,
        },
    }
}

/// The internet address that a record holds, if it holds one.
pub open spec fn endpoint_of(addr: SockAddr) -> Option<Endpoint> {
    either_family(ipv4_of(addr), ipv6_of(addr))
}

/// Calls `SockAddr::as_socket_ipv4`. Claimed: what it reads depends on the
/// record alone.
#[verifier::external_body]
fn as_ipv4(addr: &SockAddr) -> (found: Option<([u8; 4], u16)>)
    ensures
        found == ipv4_of(*addr),
{
    addr.as_socket_ipv4().map(|found| (found.ip().octets(), found.port()))
}

/// Calls `SockAddr::as_socket_ipv6`. Claimed: what it reads depends on the
/// record alone.
#[verifier::external_body]
fn as_ipv6(addr: &SockAddr) -> (found: Option<([u8; 16], u16, u32, u32)>)
    ensures
        found == ipv6_of(*addr),
{
    addr.as_socket_ipv6().map(
        |found| (found.ip().octets(), found.port(), found.flowinfo(), found.scope_id()),
    )
}

/// The endpoint, from what a record reads as in either family.
pub fn endpoint_from(
    ipv4: Option<([u8; 4], u16)>,
    ipv6: Option<([u8; 16], u16, u32, u32)>,
) -> (found: Option<Endpoint>)
    ensures
        found == either_family(ipv4, ipv6),
{
    match ipv4 {
        Some((ip4, port)) => Some(Endpoint::V4 { ip4, port }),
        None => match ipv6 {
            Some((ip6, port, flowinfo, scope_id)) => Some(
                Endpoint::V6 { ip6, port, flowinfo, scope_id },
            ),
            None => None,
        },
    }
}

/// The internet address that a record holds, or `None` if it is of another
/// family.
pub fn endpoint(addr: &SockAddr) -> (found: Option<Endpoint>)
    ensures
        found == endpoint_of(*addr),
{
    endpoint_from(as_ipv4(addr), as_ipv6(addr))
}

/// The address that could not be read as an internet address.
#[derive(Clone, Copy, Debug, PartialEq, Eq, Structural)]
pub enum AddressError {
    /// The socket's own.
    Local,
    /// That of the peer the socket is connected to.
    Peer,
    /// That of the sender of a datagram.
    Source,
}

impl AddressError {
    /// The text shown for the error.
    pub open spec fn text(self) -> Seq<char> {
        match self {
            AddressError::Local => "failed to convert socket address"@,
            AddressError::Peer => "failed to convert peer address"@,
            AddressError::Source => "failed to convert source address"@,
        }
    }

    /// The text shown for the error.
    pub fn message(self) -> (text: &'static str)
        ensures
            text@ == self.text(),
    {
        match self {
            AddressError::Local => "failed to convert socket address",
            AddressError::Peer => "failed to convert peer address",
            AddressError::Source => "failed to convert source address",
        }
    }
}

/// Why an operation of the socket has no result.
#[derive(Debug)]
pub enum SocketError {
    /// The system refused the operation.
    Io(std::io::Error),
    /// The system did it, and the address that it reported is no internet
    /// address.
    Address(AddressError),
}

/// The endpoint that was found, or the error that `whose` names.
pub open spec fn found_or(found: Option<Endpoint>, whose: AddressError) -> Result<
    Endpoint,
    SocketError,
> {
    match found {
        Some(endpoint) => Ok(endpoint),
        None => Err(SocketError::Address(whose)),
    }
}

/// The endpoint that was found, or the error that `whose` names.
pub fn require_endpoint(found: Option<Endpoint>, whose: AddressError) -> (result: Result<
    Endpoint,
    SocketError,
>)
    ensures
        result == found_or(found, whose),
{
    match found {
        Some(endpoint) => Ok(endpoint),
        None => Err(SocketError::Address(whose)),
    }
}

/// The result of a receive that names the sender, from the number of bytes and
/// the sender's endpoint, if it has one.
pub open spec fn received_from(n: usize, source: Option<Endpoint>) -> Result<
    (usize, Endpoint),
    SocketError,
> {
    match source {
        Some(source) => Ok((n, source)),
        None => Err(SocketError::Address(AddressError::Source)),
    }
}

impl UdpSocket {
    /// The address the socket is bound to, from the system's answer.
    pub fn local_addr(reply: Result<SockAddr, std::io::Error>) -> (result: Result<
        Endpoint,
        SocketError,
    >)
        ensures
            result == (match reply {
                Ok(addr) => found_or(endpoint_of(addr), AddressError::Local),
                Err(error) => Err(SocketError::Io(error)),
            }),
    {
        match reply {
            Ok(addr) => require_endpoint(endpoint(&addr), AddressError::Local),
            Err(error) => Err(SocketError::Io(error)),
        }
    }

    /// The address of the peer the socket is connected to, from the system's answer.
    pub fn peer_addr(reply: Result<SockAddr, std::io::Error>) -> (result: Result<
        Endpoint,
        SocketError,
    >)
        ensures
            result == (match reply {
                Ok(addr) => found_or(endpoint_of(addr), AddressError::Peer),
                Err(error) => Err(SocketError::Io(error)),
            }),
    {
        match reply {
            Ok(addr) => require_endpoint(endpoint(&addr), AddressError::Peer),
            Err(error) => Err(SocketError::Io(error)),
        }
    }

    /// The number of bytes received and their sender, from the system's answer.
    pub fn recv_from(reply: Result<(usize, SockAddr), std::io::Error>) -> (result: Result<
        (usize, Endpoint),
        SocketError,
    >)
        ensures
            result == (match reply {
                Ok((n, addr)) => received_from(n, endpoint_of(addr)),
                Err(error) => Err(SocketError::Io(error)),
            }),
    {
        match reply {
            Ok((n, addr)) => match require_endpoint(endpoint(&addr), AddressError::Source) {
                Ok(source) => Ok((n, source)),
                Err(error) => Err(error),
            },
            Err(error) => Err(SocketError::Io(error)),
        }
    }
}

} // verus!
