//! How a socket comes to be.
use vstd::prelude::*;

use socket2::{Domain, Protocol, Type};

use crate::address::{Endpoint, Family};
use crate::platform::UdpSocket;

verus! {

/// `socket2::Domain`, the address family that a socket is made for.
#[verifier::external_type_specification]
#[verifier::external_body]
pub struct ExDomain(Domain);

/// `socket2::Type`, the way in which a socket communicates.
#[verifier::external_type_specification]
#[verifier::external_body]
pub struct ExType(Type);

/// `socket2::Protocol`, the protocol that a socket speaks.
#[verifier::external_type_specification]
#[verifier::external_body]
pub struct ExProtocol(Protocol);

/// The family that a domain stands for, of the two that [`Family`] knows.
pub uninterp spec fn family_of(domain: Domain) -> Option<Family>;

/// Whether a type stands for datagrams.
pub uninterp spec fn is_datagram(kind: Type) -> bool;

/// Whether a protocol is UDP.
pub uninterp spec fn is_udp(protocol: Protocol) -> bool;

/// `Domain::IPV4`. Claimed: it stands for IPv4.
#[verifier::external_body]
fn ipv4() -> (domain: Domain)
    ensures
        family_of(domain) == Some(Family::V4),
{
    Domain::IPV4
}

/// `Domain::IPV6`. Claimed: it stands for IPv6.
#[verifier::external_body]
fn ipv6() -> (domain: Domain)
    ensures
        family_of(domain) == Some(Family::V6),
{
    Domain::IPV6
}

/// `Type::DGRAM`. Claimed: it stands for datagrams.
#[verifier::external_body]
fn datagram() -> (kind: Type)
    ensures
        is_datagram(kind),
{
    Type::DGRAM
}

/// `Protocol::UDP`. Claimed: it is UDP.
#[verifier::external_body]
fn udp() -> (protocol: Protocol)
    ensures
        is_udp(protocol),
{
    Protocol::UDP
}

/// The domain that a socket bound to `addr` is made for.
pub fn domain_for(addr: &Endpoint) -> (domain: Domain)
    ensures
        family_of(domain) == Some(addr.family()),
{
    match addr {
        Endpoint::V4 { .. } => ipv4(),
        Endpoint::V6 { .. } => ipv6(),
    }
}

/// These are what a UDP socket for the family of `addr` is made with.
pub open spec fn made_for(
    addr: Endpoint,
    domain: Domain,
    kind: Type,
    protocol: Option<Protocol>,
) -> bool {
    &&& family_of(domain) == Some(addr.family())
    &&& is_datagram(kind)
    &&& protocol matches Some(protocol)
    &&& is_udp(protocol)
}

/// `result` is what comes of opening a socket on `addr` in four steps, each of
/// which needs what the one before it made. The first that fails is the last to
/// be taken.
pub open spec fn opened<S, N, B, F, E, Create, SetNonblocking, Bind, Register>(
    addr: Endpoint,
    create: Create,
    set_nonblocking: SetNonblocking,
    bind: Bind,
    register: Register,
    result: Result<F, E>,
) -> bool where
    Create: FnOnce(Domain, Type, Option<Protocol>) -> Result<S, E>,
    SetNonblocking: FnOnce(S, bool) -> Result<N, E>,
    Bind: FnOnce(N, &Endpoint) -> Result<B, E>,
    Register: FnOnce(B) -> Result<F, E>,
 {
    exists|domain: Domain, kind: Type, protocol: Option<Protocol>, made: Result<S, E>|
        {
            &&& made_for(addr, domain, kind, protocol)
            &&& #[trigger] call_ensures(create, (domain, kind, protocol), made)
            &&& match made {
                Err(error) => result == Err::<F, E>(error),
                Ok(socket) => exists|set: Result<N, E>|
                    {
                        &&& #[trigger] call_ensures(set_nonblocking, (socket, true), set)
                        &&& match set {
                            Err(error) => result == Err::<F, E>(error),
                            Ok(socket) => exists|bound: Result<B, E>|
                                {
                                    &&& #[trigger] call_ensures(bind, (socket, &addr), bound)
                                    &&& match bound {
                                        Err(error) => result == Err::<F, E>(error),
                                        Ok(socket) => call_ensures(register, (socket,), result),
                                    }
                                },
                        }
                    },
            }
        }
}

impl UdpSocket {
    /// Opens a socket on an address: makes it for the address's family, sets it
    /// not to block, binds it to the address and registers it with the runtime.
    /// Each step takes the socket from the one before it and hands it on as a
    /// type of its own, so they can be taken in this order alone, and once one
    /// fails there is no socket left to take another on. The error of the step
    /// that fails is the result.
    pub fn bind<S, N, B, F, E, Create, SetNonblocking, Bind, Register>(
        addr: &Endpoint,
        create: Create,
        set_nonblocking: SetNonblocking,
        bind: Bind,
        register: Register,
    ) -> (result: Result<F, E>) where
        Create: FnOnce(Domain, Type, Option<Protocol>) -> Result<S, E>,
        SetNonblocking: FnOnce(S, bool) -> Result<N, E>,
        Bind: FnOnce(N, &Endpoint) -> Result<B, E>,
        Register: FnOnce(B) -> Result<F, E>,

        requires
            forall|domain: Domain, kind: Type, protocol: Option<Protocol>|
                made_for(*addr, domain, kind, protocol) ==> #[trigger] call_requires(
                    create,
                    (domain, kind, protocol),
                ),
            forall|socket: S| #[trigger] call_requires(set_nonblocking, (socket, true)),
            forall|socket: N| #[trigger] call_requires(bind, (socket, addr)),
            forall|socket: B| #[trigger] call_requires(register, (socket,)),
        ensures
            opened(*addr, create, set_nonblocking, bind, register, result),
    {
        match create(domain_for(addr), datagram(), Some(udp())) {
            Ok(socket) => match set_nonblocking(socket, true) {
                Ok(socket) => match bind(socket, addr) {
                    Ok(socket) => register(socket),
                    Err(error) => Err(error),
                },
                Err(error) => Err(error),
            },
            Err(error) => Err(error),
        }
    }
}

} // verus!
