//! What each operation does, said of its calls.
//!
//! `call_ensures(f, args, result)` reads: a call of `f` with `args` may return
//! `result`. Each law takes such calls, of one operation or of several in a row,
//! and says how their results follow from what went in.
use vstd::prelude::*;

use bytes::BytesMut;
use socket2::{Domain, MsgHdr, Protocol, SockAddr, Type};
use std::io::IoSlice;
use tokio::io::Interest;

use crate::address::{
    endpoint, endpoint_from, ipv4_of, ipv6_of, require_endpoint, AddressError, Endpoint, Family,
    SocketError,
};
use crate::backoff::{would_block_retry_micros, Backoff, Step, Verdict, BACKOFFS_US};
use crate::error::{class_of, ErrorClass};
use crate::gather::{
    buffers, bytes_of, concatenate, contents, datagram, join, joined_len, message_buffers,
    message_target, slices, EmptyList, Outgoing, Transmission,
};
use crate::interest::{conditions, recv_interest, send_interest, try_recv_interest, Condition};
use crate::nonblocking::Attempt;
use crate::open::{domain_for, family_of, is_datagram, is_udp};
use crate::platform::{
    is_vectored_supported, Backend, CloneMethod, CloneUnsupported, Platform, SendWait, UdpSocket,
};
use crate::receive::{held, ReceiveBuffer};
use crate::send::BoundedSend;

verus! {

/// A record that reads as an IPv4 address yields exactly its octets and port, one
/// that reads as IPv6 exactly its octets, port, flow information and scope, and
/// any other yields nothing.
pub proof fn law_a_record_yields_what_it_reads_as(addr: SockAddr, found: Option<Endpoint>)
    requires
        call_ensures(endpoint, (&addr,), found),
    ensures
        ipv4_of(addr) matches Some((octets, number)) ==> {
            &&& found matches Some(Endpoint::V4 { ip4, port })
            &&& ip4@ == octets@
            &&& port == number
        },
        ipv4_of(addr) is None ==> (ipv6_of(addr) matches Some((octets, number, flow, scope)) ==> {
            &&& found matches Some(Endpoint::V6 { ip6, port, flowinfo, scope_id })
            &&& ip6@ == octets@
            &&& port == number
            &&& flowinfo == flow
            &&& scope_id == scope
        }),
        found is None <==> ipv4_of(addr) is None && ipv6_of(addr) is None,
{
}

/// An endpoint that is taken apart and put together again is the same endpoint.
pub proof fn law_an_endpoint_taken_apart_comes_back(wanted: Endpoint, found: Option<Endpoint>)
    requires
        match wanted {
            Endpoint::V4 { ip4, port } => call_ensures(
                endpoint_from,
                (Some((ip4, port)), None),
                found,
            ),
            Endpoint::V6 { ip6, port, flowinfo, scope_id } => call_ensures(
                endpoint_from,
                (None, Some((ip6, port, flowinfo, scope_id))),
                found,
            ),
        },
    ensures
        found == Some(wanted),
{
}

/// An IPv4 reading counts before an IPv6 one, whatever that is, and without
/// either there is no endpoint.
pub proof fn law_a_reading_is_kept_octet_by_octet(
    ip4: [u8; 4],
    number: u16,
    ipv6: Option<([u8; 16], u16, u32, u32)>,
    found: Option<Endpoint>,
    neither: Option<Endpoint>,
)
    requires
        call_ensures(endpoint_from, (Some((ip4, number)), ipv6), found),
        call_ensures(endpoint_from, (None, None), neither),
    ensures
        found matches Some(Endpoint::V4 { ip4: octets, port }) && port == number && forall|i: int|
            0 <= i < 4 ==> octets[i] == ip4[i],
        neither is None,
{
}

/// Two readings that yield the same endpoint are the same reading: no octet and
/// no number is lost.
pub proof fn law_an_endpoint_tells_its_reading(
    one: (Option<([u8; 4], u16)>, Option<([u8; 16], u16, u32, u32)>),
    other: (Option<([u8; 4], u16)>, Option<([u8; 16], u16, u32, u32)>),
    found: Option<Endpoint>,
)
    requires
        call_ensures(endpoint_from, one, found),
        call_ensures(endpoint_from, other, found),
    ensures
        one.0 == other.0,
        one.0 is None ==> one.1 == other.1,
{
}

/// The address that the system reports comes back unaltered, whoever asks for it
/// and whatever its family, and a receive keeps the number of bytes beside it.
pub proof fn law_an_internet_address_is_reported_unaltered(
    addr: SockAddr,
    n: usize,
    wanted: Endpoint,
    local: Result<Endpoint, SocketError>,
    peer: Result<Endpoint, SocketError>,
    received: Result<(usize, Endpoint), SocketError>,
)
    requires
        call_ensures(UdpSocket::local_addr, (Ok(addr),), local),
        call_ensures(UdpSocket::peer_addr, (Ok(addr),), peer),
        call_ensures(UdpSocket::recv_from, (Ok((n, addr)),), received),
        match wanted {
            Endpoint::V4 { ip4, port } => ipv4_of(addr) == Some((ip4, port)),
            Endpoint::V6 { ip6, port, flowinfo, scope_id } => ipv4_of(addr) is None && ipv6_of(addr)
                == Some((ip6, port, flowinfo, scope_id)),
        },
    ensures
        local == Ok::<Endpoint, SocketError>(wanted),
        peer == Ok::<Endpoint, SocketError>(wanted),
        received == Ok::<(usize, Endpoint), SocketError>((n, wanted)),
{
}

/// The address error comes back exactly if the record reads as neither family,
/// and it names whose address it was.
pub proof fn law_an_address_error_means_no_internet_address(
    addr: SockAddr,
    n: usize,
    local: Result<Endpoint, SocketError>,
    peer: Result<Endpoint, SocketError>,
    received: Result<(usize, Endpoint), SocketError>,
)
    requires
        call_ensures(UdpSocket::local_addr, (Ok(addr),), local),
        call_ensures(UdpSocket::peer_addr, (Ok(addr),), peer),
        call_ensures(UdpSocket::recv_from, (Ok((n, addr)),), received),
    ensures
        local is Err <==> ipv4_of(addr) is None && ipv6_of(addr) is None,
        local is Err ==> local == Err::<Endpoint, SocketError>(
            SocketError::Address(AddressError::Local),
        ),
        peer is Err <==> ipv4_of(addr) is None && ipv6_of(addr) is None,
        peer is Err ==> peer == Err::<Endpoint, SocketError>(
            SocketError::Address(AddressError::Peer),
        ),
        received is Err <==> ipv4_of(addr) is None && ipv6_of(addr) is None,
        received is Err ==> received == Err::<(usize, Endpoint), SocketError>(
            SocketError::Address(AddressError::Source),
        ),
{
}

/// An error of the system comes back as it is.
pub proof fn law_an_error_of_the_system_comes_back(
    error: std::io::Error,
    local: Result<Endpoint, SocketError>,
    peer: Result<Endpoint, SocketError>,
    received: Result<(usize, Endpoint), SocketError>,
)
    requires
        call_ensures(UdpSocket::local_addr, (Err(error),), local),
        call_ensures(UdpSocket::peer_addr, (Err(error),), peer),
        call_ensures(UdpSocket::recv_from, (Err(error),), received),
    ensures
        local == Err::<Endpoint, SocketError>(SocketError::Io(error)),
        peer == Err::<Endpoint, SocketError>(SocketError::Io(error)),
        received == Err::<(usize, Endpoint), SocketError>(SocketError::Io(error)),
{
}

/// An endpoint that was found is handed on, and one that was not is the error of
/// whoever it belongs to.
pub proof fn law_a_found_endpoint_is_handed_on(
    found: Endpoint,
    whose: AddressError,
    present: Result<Endpoint, SocketError>,
    absent: Result<Endpoint, SocketError>,
)
    requires
        call_ensures(require_endpoint, (Some(found), whose), present),
        call_ensures(require_endpoint, (None, whose), absent),
    ensures
        present == Ok::<Endpoint, SocketError>(found),
        absent == Err::<Endpoint, SocketError>(SocketError::Address(whose)),
{
}

/// The texts of the errors.
pub proof fn law_each_error_has_its_text(
    local: &'static str,
    peer: &'static str,
    source: &'static str,
    clone: &'static str,
    empty: &'static str,
)
    requires
        call_ensures(AddressError::message, (AddressError::Local,), local),
        call_ensures(AddressError::message, (AddressError::Peer,), peer),
        call_ensures(AddressError::message, (AddressError::Source,), source),
        call_ensures(CloneUnsupported::message, (CloneUnsupported,), clone),
        call_ensures(EmptyList::message, (EmptyList,), empty),
    ensures
        local@ == "failed to convert socket address"@,
        peer@ == "failed to convert peer address"@,
        source@ == "failed to convert source address"@,
        clone@ == "socket clone unsupported on this platform"@,
        empty@ == "no buffers to send"@,
{
}

/// A Unix, and no other system, sends vectored.
pub proof fn law_a_unix_alone_sends_vectored(
    platform: Platform,
    backend: Backend,
    supported: bool,
)
    requires
        call_ensures(Platform::backend, (platform,), backend),
        call_ensures(is_vectored_supported, (platform,), supported),
    ensures
        backend == Backend::Vectored <==> platform == Platform::MacOs || platform
            == Platform::Unix,
        supported <==> backend == Backend::Vectored,
{
}

/// A socket waits with the backoff on macOS, for writability on any other Unix,
/// and leaves the wait to the runtime elsewhere and wherever it copies.
pub proof fn law_a_socket_waits_by_the_means_of_its_system(
    platform: Platform,
    socket: UdpSocket,
    wait: SendWait,
    copying: UdpSocket,
    copying_wait: SendWait,
)
    requires
        call_ensures(UdpSocket::new, (platform,), socket),
        call_ensures(UdpSocket::send_wait, (&socket,), wait),
        call_ensures(UdpSocket::fallback, (platform,), copying),
        call_ensures(UdpSocket::send_wait, (&copying,), copying_wait),
    ensures
        wait == SendWait::Backoff <==> platform == Platform::MacOs,
        wait == SendWait::Writable <==> platform == Platform::Unix,
        wait == SendWait::Runtime <==> platform == Platform::Windows || platform
            == Platform::Other,
        copying_wait == SendWait::Runtime,
{
}

/// A socket is cloned by itself on a Unix and by its handle on Windows, and not
/// at all elsewhere. One that copies has only a handle, and that on Windows.
pub proof fn law_a_socket_is_cloned_by_the_means_of_its_system(
    platform: Platform,
    socket: UdpSocket,
    method: Result<CloneMethod, CloneUnsupported>,
    copying: UdpSocket,
    copying_method: Result<CloneMethod, CloneUnsupported>,
)
    requires
        call_ensures(UdpSocket::new, (platform,), socket),
        call_ensures(UdpSocket::try_clone_std, (&socket,), method),
        call_ensures(UdpSocket::fallback, (platform,), copying),
        call_ensures(UdpSocket::try_clone_std, (&copying,), copying_method),
    ensures
        method == Ok::<CloneMethod, CloneUnsupported>(CloneMethod::Socket) <==> platform
            == Platform::MacOs || platform == Platform::Unix,
        method == Ok::<CloneMethod, CloneUnsupported>(CloneMethod::Handle) <==> platform
            == Platform::Windows,
        method is Err <==> platform == Platform::Other,
        copying_method == Ok::<CloneMethod, CloneUnsupported>(CloneMethod::Handle) <==> platform
            == Platform::Windows,
        copying_method is Err <==> platform != Platform::Windows,
{
}

/// The domain of a socket is that of the family of its address, whatever the
/// octets and the port are.
pub proof fn law_the_domain_is_that_of_the_family(
    ip4: [u8; 4],
    ip6: [u8; 16],
    port: u16,
    flowinfo: u32,
    scope_id: u32,
    for_v4: Domain,
    for_v6: Domain,
)
    requires
        call_ensures(domain_for, (&Endpoint::V4 { ip4, port },), for_v4),
        call_ensures(domain_for, (&Endpoint::V6 { ip6, port, flowinfo, scope_id },), for_v6),
    ensures
        family_of(for_v4) == Some(Family::V4),
        family_of(for_v6) == Some(Family::V6),
{
}

/// A socket is opened as a UDP socket of the family of its address, set not to
/// block, bound to that address and registered, in this order: whatever the four
/// steps answer to just that, the first error is the result, and without one the
/// answer of the last is.
pub proof fn law_a_socket_is_opened_for_its_address<
    S,
    N,
    B,
    F,
    E,
    Create,
    SetNonblocking,
    Bind,
    Register,
>(
    addr: Endpoint,
    create: Create,
    set_nonblocking: SetNonblocking,
    bind: Bind,
    register: Register,
    made: Result<S, E>,
    set: Result<N, E>,
    bound: Result<B, E>,
    result: Result<F, E>,
) where
    Create: FnOnce(Domain, Type, Option<Protocol>) -> Result<S, E>,
    SetNonblocking: FnOnce(S, bool) -> Result<N, E>,
    Bind: FnOnce(N, &Endpoint) -> Result<B, E>,
    Register: FnOnce(B) -> Result<F, E>,

    requires
        call_ensures(
            UdpSocket::bind::<S, N, B, F, E, Create, SetNonblocking, Bind, Register>,
            (&addr, create, set_nonblocking, bind, register),
            result,
        ),
        forall|domain: Domain, kind: Type, protocol: Option<Protocol>, answer: Result<S, E>|
            {
                &&& #[trigger] call_ensures(create, (domain, kind, protocol), answer)
                &&& addr is V4 <==> family_of(domain) == Some(Family::V4)
                &&& addr is V6 <==> family_of(domain) == Some(Family::V6)
                &&& is_datagram(kind)
                &&& protocol is Some && is_udp(protocol->Some_0)
            } ==> answer == made,
        forall|socket: S, answer: Result<N, E>|
            made == Ok::<S, E>(socket) && #[trigger] call_ensures(
                set_nonblocking,
                (socket, true),
                answer,
            ) ==> answer == set,
        forall|socket: N, answer: Result<B, E>|
            set == Ok::<N, E>(socket) && #[trigger] call_ensures(bind, (socket, &addr), answer)
                ==> answer == bound,
    ensures
        made matches Err(error) ==> result == Err::<F, E>(error),
        made is Ok ==> (set matches Err(error) ==> result == Err::<F, E>(error)),
        made is Ok && set is Ok ==> (bound matches Err(error) ==> result == Err::<F, E>(error)),
        made is Ok && set is Ok ==> (bound matches Ok(socket) ==> call_ensures(
            register,
            (socket,),
            result,
        )),
{
}

/// The slices of a list of buffers are their bytes, one for one.
pub proof fn law_the_slices_are_the_buffers<'a>(bufs: &'a [IoSlice<'a>], found: Vec<&'a [u8]>)
    requires
        call_ensures(slices, (bufs,), found),
    ensures
        found@.len() == bufs@.len(),
        forall|i: int| 0 <= i < bufs@.len() ==> (#[trigger] found@[i])@ == bytes_of(bufs@[i]),
{
    assert(contents(found@).len() == buffers(bufs@).len());
    assert forall|i: int| 0 <= i < bufs@.len() implies (#[trigger] found@[i])@ == bytes_of(
        bufs@[i],
    ) by {
        assert(contents(found@)[i] == buffers(bufs@)[i]);
    }
}

proof fn lemma_all_bytes(bufs: Seq<IoSlice<'_>>)
    ensures
        bufs.map_values(|buf: IoSlice<'_>| bytes_of(buf)).flatten() == datagram(buffers(bufs)),
{
    assert(bufs.map_values(|buf: IoSlice<'_>| bytes_of(buf)) == buffers(bufs));
}

proof fn lemma_all_of(bufs: Seq<&[u8]>)
    ensures
        bufs.map_values(|buf: &[u8]| buf@).flatten() == datagram(contents(bufs)),
{
    assert(bufs.map_values(|buf: &[u8]| buf@) == contents(bufs));
}

/// Slices that are joined are all there, in order, and their length is known
/// beforehand exactly if a buffer can hold them.
pub proof fn law_joined_slices_are_all_there(bufs: &[&[u8]], len: Option<usize>, joined: Vec<u8>)
    requires
        call_ensures(joined_len, (bufs,), len),
        call_ensures(join, (bufs,), joined),
    ensures
        joined@ == bufs@.map_values(|buf: &[u8]| buf@).flatten(),
        len is Some <==> joined@.len() <= isize::MAX,
        len matches Some(n) ==> n == joined@.len(),
{
    lemma_all_of(bufs@);
}

/// Joining one slice gives that slice, and joining a list gives what joining its
/// two parts gives, one after the other.
pub proof fn law_joining_goes_part_by_part(
    one: &[&[u8]],
    first: &[&[u8]],
    second: &[&[u8]],
    both: &[&[u8]],
    joined_one: Vec<u8>,
    joined_first: Vec<u8>,
    joined_second: Vec<u8>,
    joined_both: Vec<u8>,
)
    requires
        one@.len() == 1,
        both@ == first@ + second@,
        call_ensures(join, (one,), joined_one),
        call_ensures(join, (first,), joined_first),
        call_ensures(join, (second,), joined_second),
        call_ensures(join, (both,), joined_both),
    ensures
        joined_one@ == one@[0]@,
        joined_both@ == joined_first@ + joined_second@,
{
    contents(one@).lemma_flatten_one_element();
    assert(contents(both@) == contents(first@) + contents(second@));
    vstd::seq_lib::lemma_flatten_concat(contents(first@), contents(second@));
}

/// Where the system takes one buffer at a time, no list goes as nothing, a single
/// slice as itself, and any longer list as one copy of all its bytes.
pub proof fn law_slices_are_sent_as_one_buffer(bufs: &[&[u8]], found: Transmission<'_>)
    requires
        call_ensures(concatenate, (bufs,), found),
    ensures
        bufs@.len() == 0 <==> found is Nothing,
        bufs@.len() == 1 <==> found is Single,
        bufs@.len() > 1 <==> found is Joined,
        found matches Transmission::Single(slice) ==> slice@ == bufs@[0]@,
        found matches Transmission::Joined(copy) ==> copy@ == bufs@.map_values(
            |buf: &[u8]| buf@,
        ).flatten(),
{
    lemma_all_of(bufs@);
}

/// Nothing goes to the system exactly if the send is settled: with no bytes where
/// there was nothing to do, and with an error where the list was refused.
pub proof fn law_a_send_is_settled_if_nothing_goes_out(
    transmission: Transmission<'_>,
    settled: Option<Result<usize, EmptyList>>,
)
    requires
        call_ensures(Transmission::settled, (&transmission,), settled),
    ensures
        settled is None <==> transmission is Gather || transmission is Single
            || transmission is Joined,
        transmission is Nothing <==> settled == Some(Ok::<usize, EmptyList>(0)),
        transmission is Rejected <==> settled == Some(Err::<usize, EmptyList>(EmptyList)),
{
}

/// A refused list fails with the error of the system where it has one: `EMSGSIZE`
/// on macOS.
pub proof fn law_a_refusal_has_the_error_of_the_system(platform: Platform, code: Option<i32>)
    requires
        call_ensures(EmptyList::code, (EmptyList, platform), code),
    ensures
        code == Some(40i32) <==> platform == Platform::MacOs,
        code is None <==> platform != Platform::MacOs,
{
}

/// The message of a send to an address names exactly that address, of whatever
/// family, and that of a send without one names none. Either way it is made of the
/// buffers, each in its place.
pub proof fn law_a_message_names_its_target<'a>(
    bufs: &'a [IoSlice<'a>],
    addr: &'a SockAddr,
    addressed: MsgHdr<'a, 'a, 'a>,
    plain: MsgHdr<'a, 'a, 'a>,
)
    requires
        call_ensures(UdpSocket::try_send_vectored, (bufs, Some(addr)), addressed),
        call_ensures(UdpSocket::try_send_vectored, (bufs, None), plain),
    ensures
        message_target(addressed) == Some(*addr),
        message_target(plain) is None,
        bufs@.len() <= i32::MAX ==> message_buffers(addressed) == bufs@.map_values(
            |buf: IoSlice<'a>| bytes_of(buf),
        ),
        bufs@.len() <= i32::MAX ==> message_buffers(plain) == message_buffers(addressed),
{
    assert(bufs@.map_values(|buf: IoSlice<'a>| bytes_of(buf)) == buffers(bufs@));
}

/// The message of a send names the target of the send, and is made of its buffers.
pub proof fn law_the_message_of_a_send_is_its_own<'a>(
    outgoing: Outgoing<'a>,
    message: MsgHdr<'a, 'a, 'a>,
)
    requires
        call_ensures(Outgoing::message, (&outgoing,), message),
    ensures
        outgoing.target matches Some(addr) ==> message_target(message) == Some(*addr),
        outgoing.target is None ==> message_target(message) is None,
        outgoing.bufs@.len() <= i32::MAX ==> message_buffers(message)
            == outgoing.bufs@.map_values(|buf: IoSlice<'a>| bytes_of(buf)),
{
    assert(outgoing.bufs@.map_values(|buf: IoSlice<'a>| bytes_of(buf)) == buffers(
        outgoing.bufs@,
    ));
}

/// A send keeps the buffers and the target that it was given, and waits as its
/// socket does.
pub proof fn law_a_send_keeps_what_it_was_given<'a>(
    socket: UdpSocket,
    bufs: &'a [IoSlice<'a>],
    addr: &'a SockAddr,
    wait: SendWait,
    connected: Outgoing<'a>,
    addressed: Outgoing<'a>,
)
    requires
        call_ensures(UdpSocket::send_wait, (&socket,), wait),
        call_ensures(UdpSocket::send_vectored, (&socket, bufs), connected),
        call_ensures(UdpSocket::send_to_vectored, (&socket, bufs, addr), addressed),
    ensures
        connected.bufs@ == bufs@,
        connected.target is None,
        connected.wait == wait,
        addressed.bufs@ == bufs@,
        addressed.target matches Some(target) && *target == *addr,
        addressed.wait == wait,
{
}

/// A socket of a Unix sends its buffers where they are, all in one call, and
/// refuses an empty list.
pub proof fn law_a_unix_socket_gathers<'a>(
    platform: Platform,
    socket: UdpSocket,
    bufs: &'a [IoSlice<'a>],
    addr: &'a SockAddr,
    connected: Outgoing<'a>,
    addressed: Outgoing<'a>,
)
    requires
        platform == Platform::MacOs || platform == Platform::Unix,
        call_ensures(UdpSocket::new, (platform,), socket),
        call_ensures(UdpSocket::send_vectored, (&socket, bufs), connected),
        call_ensures(UdpSocket::send_to_vectored, (&socket, bufs, addr), addressed),
    ensures
        connected.transmission is Gather <==> bufs@.len() > 0,
        connected.transmission is Rejected <==> bufs@.len() == 0,
        addressed.transmission is Gather <==> bufs@.len() > 0,
        addressed.transmission is Rejected <==> bufs@.len() == 0,
{
}

/// A socket that copies, by choice or because its system has nothing better,
/// sends one buffer with all the bytes, and nothing for an empty list.
pub proof fn law_a_copying_socket_sends_all_bytes<'a>(
    platform: Platform,
    socket: UdpSocket,
    bufs: &'a [IoSlice<'a>],
    addr: &'a SockAddr,
    connected: Outgoing<'a>,
    addressed: Outgoing<'a>,
)
    requires
        call_ensures(UdpSocket::fallback, (platform,), socket) || (platform != Platform::MacOs
            && platform != Platform::Unix && call_ensures(UdpSocket::new, (platform,), socket)),
        call_ensures(UdpSocket::send_vectored, (&socket, bufs), connected),
        call_ensures(UdpSocket::send_to_vectored, (&socket, bufs, addr), addressed),
    ensures
        bufs@.len() == 0 <==> connected.transmission is Nothing,
        bufs@.len() == 1 <==> connected.transmission is Single,
        bufs@.len() > 1 <==> connected.transmission is Joined,
        connected.transmission matches Transmission::Single(slice) ==> slice@ == bytes_of(bufs@[0]),
        connected.transmission matches Transmission::Joined(copy) ==> copy@ == bufs@.map_values(
            |buf: IoSlice<'a>| bytes_of(buf),
        ).flatten(),
        bufs@.len() == 0 <==> addressed.transmission is Nothing,
        bufs@.len() == 1 <==> addressed.transmission is Single,
        bufs@.len() > 1 <==> addressed.transmission is Joined,
        addressed.transmission matches Transmission::Single(slice) ==> slice@ == bytes_of(bufs@[0]),
        addressed.transmission matches Transmission::Joined(copy) ==> copy@ == bufs@.map_values(
            |buf: IoSlice<'a>| bytes_of(buf),
        ).flatten(),
{
    lemma_all_bytes(bufs@);
}

/// A plain send carries its one buffer to the connected peer, whatever the socket
/// is, and waits as the socket does.
pub proof fn law_a_plain_send_carries_its_buffer<'a>(
    socket: UdpSocket,
    buf: &'a IoSlice<'a>,
    wait: SendWait,
    outgoing: Outgoing<'a>,
    message: MsgHdr<'a, 'a, 'a>,
)
    requires
        call_ensures(UdpSocket::send_wait, (&socket,), wait),
        call_ensures(UdpSocket::send, (&socket, buf), outgoing),
        call_ensures(Outgoing::message, (&outgoing,), message),
    ensures
        outgoing.bufs@ == seq![*buf],
        outgoing.target is None,
        outgoing.wait == wait,
        outgoing.transmission is Gather || (outgoing.transmission matches Transmission::Single(
            slice,
        ) && slice@ == bytes_of(*buf)),
        message_target(message) is None,
        message_buffers(message) == seq![bytes_of(*buf)],
{
    assert(buffers(seq![*buf]) == seq![bytes_of(*buf)]);
}

/// A plain send goes out in one call on a Unix, and as the buffer itself where
/// the socket copies.
pub proof fn law_a_plain_send_goes_out_as_its_socket_does<'a>(
    platform: Platform,
    socket: UdpSocket,
    copying: UdpSocket,
    buf: &'a IoSlice<'a>,
    outgoing: Outgoing<'a>,
    copied: Outgoing<'a>,
)
    requires
        call_ensures(UdpSocket::new, (platform,), socket),
        call_ensures(UdpSocket::send, (&socket, buf), outgoing),
        call_ensures(UdpSocket::fallback, (platform,), copying),
        call_ensures(UdpSocket::send, (&copying, buf), copied),
    ensures
        outgoing.transmission is Gather <==> platform == Platform::MacOs || platform
            == Platform::Unix,
        outgoing.transmission is Single <==> platform == Platform::Windows || platform
            == Platform::Other,
        copied.transmission matches Transmission::Single(slice) && slice@ == bytes_of(*buf),
{
    assert(buffers(seq![*buf]) == seq![bytes_of(*buf)]);
}

/// A planned send is the send itself, to the target if there is one and to the
/// connected peer if not. There is none exactly if the bytes of several buffers
/// would have to be copied and no buffer can hold them.
pub proof fn law_a_planned_send_is_the_send_itself<'a>(
    platform: Platform,
    socket: UdpSocket,
    copying: UdpSocket,
    bufs: &'a [IoSlice<'a>],
    target: Option<&'a SockAddr>,
    wait: SendWait,
    planned: Option<Outgoing<'a>>,
    copied: Option<Outgoing<'a>>,
)
    requires
        call_ensures(UdpSocket::new, (platform,), socket),
        call_ensures(UdpSocket::send_wait, (&socket,), wait),
        call_ensures(UdpSocket::plan_send, (&socket, bufs, target), planned),
        call_ensures(UdpSocket::fallback, (platform,), copying),
        call_ensures(UdpSocket::plan_send, (&copying, bufs, target), copied),
    ensures
        copied is None <==> bufs@.len() > 1 && bufs@.map_values(
            |buf: IoSlice<'a>| bytes_of(buf),
        ).flatten().len() > isize::MAX,
        platform == Platform::MacOs || platform == Platform::Unix ==> planned is Some,
        platform == Platform::Windows || platform == Platform::Other ==> (planned is None
            <==> copied is None),
        planned matches Some(outgoing) ==> {
            &&& outgoing.bufs@ == bufs@
            &&& outgoing.target == target
            &&& outgoing.wait == wait
            &&& platform == Platform::MacOs || platform == Platform::Unix ==> {
                &&& outgoing.transmission is Gather <==> bufs@.len() > 0
                &&& outgoing.transmission is Rejected <==> bufs@.len() == 0
            }
        },
        copied matches Some(outgoing) ==> {
            &&& outgoing.bufs@ == bufs@
            &&& outgoing.target == target
            &&& outgoing.wait == SendWait::Runtime
            &&& bufs@.len() == 0 <==> outgoing.transmission is Nothing
            &&& bufs@.len() == 1 <==> outgoing.transmission is Single
            &&& bufs@.len() > 1 <==> outgoing.transmission is Joined
            &&& outgoing.transmission matches Transmission::Single(slice) ==> slice@ == bytes_of(
                bufs@[0],
            )
            &&& outgoing.transmission matches Transmission::Joined(copy) ==> copy@
                == bufs@.map_values(|buf: IoSlice<'a>| bytes_of(buf)).flatten()
        },
{
    lemma_all_bytes(bufs@);
}

/// A receive that waits asks for datagrams and for errors, one that does not for
/// datagrams alone, and a send for its turn alone.
pub proof fn law_each_operation_asks_for_its_conditions(
    waiting: Interest,
    trying: Interest,
    sending: Interest,
    condition: Condition,
)
    requires
        call_ensures(recv_interest, (), waiting),
        call_ensures(try_recv_interest, (), trying),
        call_ensures(send_interest, (), sending),
    ensures
        conditions(waiting).contains(condition) <==> condition != Condition::Writable,
        conditions(trying).contains(condition) <==> condition == Condition::Readable,
        conditions(sending).contains(condition) <==> condition == Condition::Writable,
{
}

/// The first sleep is a millisecond, each further one is twice the one before,
/// and there are five. The table says the same.
pub proof fn law_the_sleeps_double(
    attempt: usize,
    first: Option<u64>,
    this: Option<u64>,
    next: Option<u64>,
)
    requires
        attempt < usize::MAX,
        call_ensures(would_block_retry_micros, (0,), first),
        call_ensures(would_block_retry_micros, (attempt,), this),
        call_ensures(would_block_retry_micros, ((attempt + 1) as usize,), next),
    ensures
        first == Some(1_000u64),
        this is Some <==> attempt < 5,
        next is Some ==> this is Some && next->Some_0 == 2 * this->Some_0,
        BACKOFFS_US@.len() == 5,
        attempt < 5 ==> this == Some(BACKOFFS_US[attempt as int]),
{
}

proof fn lemma_verdicts_count(
    calls: Seq<&mut Backoff>,
    classes: Seq<ErrorClass>,
    nexts: Seq<Verdict>,
    i: int,
)
    requires
        0 <= i < calls.len(),
        calls.len() == classes.len(),
        calls.len() == nexts.len(),
        calls[0]@ == 0,
        forall|j: int|
            0 <= j < calls.len() ==> call_ensures(
                Backoff::after_failure,
                (#[trigger] calls[j], classes[j]),
                nexts[j],
            ),
        forall|j: int|
            #![trigger calls[j]]
            0 <= j < calls.len() - 1 ==> *calls[j + 1] == *final(calls[j]),
    ensures
        ({
            let blocked = classes.take(i).filter(
                |class: ErrorClass| class == ErrorClass::WouldBlock,
            ).len();
            calls[i]@ == (if blocked < 5 {
                blocked
            } else {
                5
            })
        }),
    decreases i,
{
    reveal(Seq::filter);
    if i > 0 {
        lemma_verdicts_count(calls, classes, nexts, i - 1);
        assert(classes.take(i).drop_last() == classes.take(i - 1));
        assert(classes.take(i).last() == classes[i - 1]);
        assert(*calls[i] == *final(calls[i - 1]));
        assert(call_ensures(Backoff::after_failure, (calls[i - 1], classes[i - 1]), nexts[i - 1]));
    } else {
        assert(classes.take(0) == Seq::<ErrorClass>::empty());
    }
}

/// The failures of one send are judged in their order: an interruption is tried
/// again at once, the would-blocks sleep the schedule one after the other until it
/// is used up, and everything else is given up on. Only would-blocks count.
pub proof fn law_failures_are_judged_in_their_order(
    calls: Seq<&mut Backoff>,
    classes: Seq<ErrorClass>,
    nexts: Seq<Verdict>,
    i: int,
    slept: usize,
    micros: Option<u64>,
)
    requires
        0 <= i < calls.len(),
        calls.len() == classes.len(),
        calls.len() == nexts.len(),
        call_ensures(Backoff::start, (), *calls[0]),
        forall|j: int|
            0 <= j < calls.len() ==> call_ensures(
                Backoff::after_failure,
                (#[trigger] calls[j], classes[j]),
                nexts[j],
            ),
        forall|j: int|
            #![trigger calls[j]]
            0 <= j < calls.len() - 1 ==> *calls[j + 1] == *final(calls[j]),
        slept == classes.take(i).filter(|class: ErrorClass| class == ErrorClass::WouldBlock).len(),
        call_ensures(would_block_retry_micros, (slept,), micros),
    ensures
        classes[i] == ErrorClass::Interrupted ==> nexts[i] == Verdict::Again,
        classes[i] == ErrorClass::Other ==> nexts[i] == Verdict::GiveUp,
        classes[i] == ErrorClass::WouldBlock ==> match micros {
            Some(micros) => nexts[i] == Verdict::Sleep(micros),
            None => nexts[i] == Verdict::GiveUp,
        },
{
    lemma_verdicts_count(calls, classes, nexts, i);
    assert(call_ensures(Backoff::after_failure, (calls[i], classes[i]), nexts[i]));
}

proof fn lemma_steps_count(
    calls: Seq<&mut Backoff>,
    outcomes: Seq<Result<usize, std::io::Error>>,
    nexts: Seq<Step>,
    i: int,
)
    requires
        0 <= i < calls.len(),
        calls.len() == outcomes.len(),
        calls.len() == nexts.len(),
        calls[0]@ == 0,
        forall|j: int|
            0 <= j < calls.len() ==> call_ensures(
                Backoff::step,
                (#[trigger] calls[j], outcomes[j]),
                nexts[j],
            ),
        forall|j: int|
            #![trigger calls[j]]
            0 <= j < calls.len() - 1 ==> *calls[j + 1] == *final(calls[j]),
    ensures
        ({
            let blocked = outcomes.take(i).filter(
                |outcome: Result<usize, std::io::Error>|
                    outcome matches Err(error) && class_of(error) == ErrorClass::WouldBlock,
            ).len();
            calls[i]@ == (if blocked < 5 {
                blocked
            } else {
                5
            })
        }),
    decreases i,
{
    reveal(Seq::filter);
    if i > 0 {
        lemma_steps_count(calls, outcomes, nexts, i - 1);
        assert(outcomes.take(i).drop_last() == outcomes.take(i - 1));
        assert(outcomes.take(i).last() == outcomes[i - 1]);
        assert(*calls[i] == *final(calls[i - 1]));
        assert(call_ensures(Backoff::step, (calls[i - 1], outcomes[i - 1]), nexts[i - 1]));
    } else {
        assert(outcomes.take(0) == Seq::<Result<usize, std::io::Error>>::empty());
    }
}

/// The attempts of one send are followed up in their order: a success ends the
/// send, an interruption is tried again at once, the would-blocks sleep the schedule
/// one after the other until it is used up, and any other failure ends the send. It
/// ends with the outcome of the attempt, unchanged.
pub proof fn law_a_send_is_tried_again_by_the_schedule(
    calls: Seq<&mut Backoff>,
    outcomes: Seq<Result<usize, std::io::Error>>,
    nexts: Seq<Step>,
    i: int,
    slept: usize,
    micros: Option<u64>,
)
    requires
        0 <= i < calls.len(),
        calls.len() == outcomes.len(),
        calls.len() == nexts.len(),
        call_ensures(Backoff::start, (), *calls[0]),
        forall|j: int|
            0 <= j < calls.len() ==> call_ensures(
                Backoff::step,
                (#[trigger] calls[j], outcomes[j]),
                nexts[j],
            ),
        forall|j: int|
            #![trigger calls[j]]
            0 <= j < calls.len() - 1 ==> *calls[j + 1] == *final(calls[j]),
        slept == outcomes.take(i).filter(
            |outcome: Result<usize, std::io::Error>|
                outcome matches Err(error) && class_of(error) == ErrorClass::WouldBlock,
        ).len(),
        call_ensures(would_block_retry_micros, (slept,), micros),
    ensures
        outcomes[i] is Ok ==> nexts[i] == Step::Done(outcomes[i]),
        outcomes[i] matches Err(error) ==> match class_of(error) {
            ErrorClass::Interrupted => nexts[i] == Step::Again,
            ErrorClass::Other => nexts[i] == Step::Done(outcomes[i]),
            ErrorClass::WouldBlock => match micros {
                Some(micros) => nexts[i] == Step::Sleep(micros),
                None => nexts[i] == Step::Done(outcomes[i]),
            },
        },
{
    lemma_steps_count(calls, outcomes, nexts, i);
    assert(call_ensures(Backoff::step, (calls[i], outcomes[i]), nexts[i]));
}

proof fn lemma_sends_count<'a>(
    calls: Seq<&mut BoundedSend<'a>>,
    outcomes: Seq<Result<usize, std::io::Error>>,
    nexts: Seq<Step>,
    i: int,
)
    requires
        0 <= i < calls.len(),
        calls.len() == outcomes.len(),
        calls.len() == nexts.len(),
        calls[0].slept() == 0,
        forall|j: int|
            0 <= j < calls.len() ==> call_ensures(
                BoundedSend::step,
                (#[trigger] calls[j], outcomes[j]),
                nexts[j],
            ),
        forall|j: int|
            #![trigger calls[j]]
            0 <= j < calls.len() - 1 ==> *calls[j + 1] == *final(calls[j]),
    ensures
        ({
            let blocked = outcomes.take(i).filter(
                |outcome: Result<usize, std::io::Error>|
                    outcome matches Err(error) && class_of(error) == ErrorClass::WouldBlock,
            ).len();
            calls[i].slept() == (if blocked < 5 {
                blocked
            } else {
                5
            })
        }),
    decreases i,
{
    reveal(Seq::filter);
    if i > 0 {
        lemma_sends_count(calls, outcomes, nexts, i - 1);
        assert(outcomes.take(i).drop_last() == outcomes.take(i - 1));
        assert(outcomes.take(i).last() == outcomes[i - 1]);
        assert(*calls[i] == *final(calls[i - 1]));
        assert(call_ensures(BoundedSend::step, (calls[i - 1], outcomes[i - 1]), nexts[i - 1]));
    } else {
        assert(outcomes.take(0) == Seq::<Result<usize, std::io::Error>>::empty());
    }
}

proof fn lemma_the_send_stays<'a>(
    calls: Seq<&mut BoundedSend<'a>>,
    outcomes: Seq<Result<usize, std::io::Error>>,
    nexts: Seq<Step>,
    i: int,
)
    requires
        0 <= i < calls.len(),
        calls.len() == outcomes.len(),
        calls.len() == nexts.len(),
        forall|j: int|
            0 <= j < calls.len() ==> call_ensures(
                BoundedSend::step,
                (#[trigger] calls[j], outcomes[j]),
                nexts[j],
            ),
        forall|j: int|
            #![trigger calls[j]]
            0 <= j < calls.len() - 1 ==> *calls[j + 1] == *final(calls[j]),
    ensures
        calls[i].outgoing() == calls[0].outgoing(),
    decreases i,
{
    if i > 0 {
        lemma_the_send_stays(calls, outcomes, nexts, i - 1);
        assert(*calls[i] == *final(calls[i - 1]));
        assert(call_ensures(BoundedSend::step, (calls[i - 1], outcomes[i - 1]), nexts[i - 1]));
    }
}

/// The same of a send that holds its message: each attempt, however many came
/// before, names the target of the send and is made of its buffers.
pub proof fn law_a_bounded_send_repeats_its_message<'a>(
    calls: Seq<&mut BoundedSend<'a>>,
    outcomes: Seq<Result<usize, std::io::Error>>,
    nexts: Seq<Step>,
    i: int,
    slept: usize,
    micros: Option<u64>,
    outgoing: Outgoing<'a>,
    message: MsgHdr<'a, 'a, 'a>,
)
    requires
        0 <= i < calls.len(),
        calls.len() == outcomes.len(),
        calls.len() == nexts.len(),
        call_ensures(
            UdpSocket::send_vectored_with_bounded_backoff,
            (outgoing,),
            *calls[0],
        ),
        forall|j: int|
            0 <= j < calls.len() ==> call_ensures(
                BoundedSend::step,
                (#[trigger] calls[j], outcomes[j]),
                nexts[j],
            ),
        forall|j: int|
            #![trigger calls[j]]
            0 <= j < calls.len() - 1 ==> *calls[j + 1] == *final(calls[j]),
        slept == outcomes.take(i).filter(
            |outcome: Result<usize, std::io::Error>|
                outcome matches Err(error) && class_of(error) == ErrorClass::WouldBlock,
        ).len(),
        call_ensures(would_block_retry_micros, (slept,), micros),
        call_ensures(BoundedSend::message, (&*calls[i],), message),
    ensures
        outcomes[i] is Ok ==> nexts[i] == Step::Done(outcomes[i]),
        outcomes[i] matches Err(error) ==> match class_of(error) {
            ErrorClass::Interrupted => nexts[i] == Step::Again,
            ErrorClass::Other => nexts[i] == Step::Done(outcomes[i]),
            ErrorClass::WouldBlock => match micros {
                Some(micros) => nexts[i] == Step::Sleep(micros),
                None => nexts[i] == Step::Done(outcomes[i]),
            },
        },
        outgoing.target matches Some(addr) ==> message_target(message) == Some(*addr),
        outgoing.target is None ==> message_target(message) is None,
        outgoing.bufs@.len() <= i32::MAX ==> message_buffers(message)
            == outgoing.bufs@.map_values(|buf: IoSlice<'a>| bytes_of(buf)),
{
    lemma_sends_count(calls, outcomes, nexts, i);
    assert(call_ensures(BoundedSend::step, (calls[i], outcomes[i]), nexts[i]));
    lemma_the_send_stays(calls, outcomes, nexts, i);
    assert(outgoing.bufs@.map_values(|buf: IoSlice<'a>| bytes_of(buf)) == buffers(
        outgoing.bufs@,
    ));
}

/// An operation that does not block is offered to the runtime with the interest.
/// If the runtime ran it, the caller gets the runtime's account, and if the
/// runtime gave it back, it runs on the socket and the caller gets its answer.
pub proof fn law_an_operation_runs_by_the_runtime_or_on_the_socket<S, T, Op, TryIo>(
    interest: Interest,
    socket: &S,
    try_io: TryIo,
    op: Op,
    attempt: Attempt<Op, T>,
    result: Result<T, std::io::Error>,
) where
    Op: FnOnce(&S) -> Result<T, std::io::Error>,
    TryIo: FnOnce(Interest, Op) -> Attempt<Op, T>,

    requires
        call_ensures(
            UdpSocket::nonblocking::<S, T, Op, TryIo>,
            (interest, socket, try_io, op),
            result,
        ),
        forall|answer: Attempt<Op, T>| #[trigger]
            call_ensures(try_io, (interest, op), answer) ==> answer == attempt,
    ensures
        attempt matches Attempt::Ran(told) ==> result == told,
        attempt matches Attempt::Skipped(back) ==> call_ensures(back, (socket,), result),
{
}

/// A send that does not block does the same, and the runtime is asked for its
/// turn: what the runtime would answer to any other interest makes no difference.
pub proof fn law_a_send_that_does_not_block_asks_for_its_turn<S, T, Op, TryIo>(
    socket: &S,
    try_io: TryIo,
    op: Op,
    attempt: Attempt<Op, T>,
    result: Result<T, std::io::Error>,
) where
    Op: FnOnce(&S) -> Result<T, std::io::Error>,
    TryIo: FnOnce(Interest, Op) -> Attempt<Op, T>,

    requires
        call_ensures(UdpSocket::try_send::<S, T, Op, TryIo>, (socket, try_io, op), result),
        forall|interest: Interest, answer: Attempt<Op, T>|
            {
                &&& #[trigger] call_ensures(try_io, (interest, op), answer)
                &&& conditions(interest) == set![Condition::Writable]
            } ==> answer == attempt,
    ensures
        attempt matches Attempt::Ran(told) ==> result == told,
        attempt matches Attempt::Skipped(back) ==> call_ensures(back, (socket,), result),
{
}

/// A receive that does not block does the same, and the runtime is asked for a
/// datagram.
pub proof fn law_a_receive_that_does_not_block_asks_for_a_datagram<S, T, Op, TryIo>(
    socket: &S,
    try_io: TryIo,
    op: Op,
    attempt: Attempt<Op, T>,
    result: Result<T, std::io::Error>,
) where
    Op: FnOnce(&S) -> Result<T, std::io::Error>,
    TryIo: FnOnce(Interest, Op) -> Attempt<Op, T>,

    requires
        call_ensures(UdpSocket::try_recv::<S, T, Op, TryIo>, (socket, try_io, op), result),
        forall|interest: Interest, answer: Attempt<Op, T>|
            {
                &&& #[trigger] call_ensures(try_io, (interest, op), answer)
                &&& conditions(interest) == set![Condition::Readable]
            } ==> answer == attempt,
    ensures
        attempt matches Attempt::Ran(told) ==> result == told,
        attempt matches Attempt::Skipped(back) ==> call_ensures(back, (socket,), result),
{
}

/// Bytes that are committed come after those already there, in a buffer of either
/// kind.
pub proof fn law_committed_bytes_come_last(
    buf: &mut BytesMut,
    vec: &mut Vec<u8>,
    bytes: &[u8],
)
    requires
        call_ensures(<BytesMut as ReceiveBuffer>::commit, (buf, bytes), ()),
        call_ensures(<Vec<u8> as ReceiveBuffer>::commit, (vec, bytes), ()),
    ensures
        held(*final(buf)) == held(*old(buf)) + bytes@,
        final(vec)@ == old(vec)@ + bytes@,
{
}

/// What a receive buffer holds is what is in it.
pub proof fn law_a_buffer_holds_its_bytes(buf: BytesMut, vec: Vec<u8>)
    ensures
        buf.bytes() == held(buf),
        vec.bytes() == vec@,
{
}

/// A receive hands the system the room that it was given, adds all of what the
/// system hands over and returns its length. An error of the system is the result,
/// and nothing is added.
pub proof fn law_a_receive_adds_what_the_system_hands_over<B, Op>(
    buf: &mut B,
    room: usize,
    op: Op,
    reply: Result<Vec<u8>, std::io::Error>,
    result: Result<usize, std::io::Error>,
) where B: ReceiveBuffer, Op: FnOnce(usize) -> Result<Vec<u8>, std::io::Error>
    requires
        call_ensures(UdpSocket::receive_into::<B, Op>, (buf, room, op), result),
        forall|answer: Result<Vec<u8>, std::io::Error>| #[trigger]
            call_ensures(op, (room,), answer) ==> answer == reply,
    ensures
        reply matches Ok(datagram) ==> {
            &&& final(buf).bytes() == old(buf).bytes() + datagram@
            &&& result matches Ok(n) && n == datagram@.len()
        },
        reply matches Err(error) ==> {
            &&& final(buf).bytes() == old(buf).bytes()
            &&& result == Err::<usize, std::io::Error>(error)
        },
{
    if let Ok(datagram) = reply {
        assert(datagram.len() == datagram@.len());
    }
}

/// The same of a receive that names the sender. The sender is named by its
/// address, of either family, and the address error comes back exactly if it has
/// none; the datagram is added even so.
pub proof fn law_a_receive_names_the_sender_of_what_it_adds<B, Op>(
    buf: &mut B,
    room: usize,
    op: Op,
    reply: Result<(Vec<u8>, SockAddr), std::io::Error>,
    result: Result<(usize, Endpoint), SocketError>,
) where B: ReceiveBuffer, Op: FnOnce(usize) -> Result<(Vec<u8>, SockAddr), std::io::Error>
    requires
        call_ensures(UdpSocket::receive_from_into::<B, Op>, (buf, room, op), result),
        forall|answer: Result<(Vec<u8>, SockAddr), std::io::Error>| #[trigger]
            call_ensures(op, (room,), answer) ==> answer == reply,
    ensures
        reply matches Ok((datagram, sender)) ==> {
            &&& final(buf).bytes() == old(buf).bytes() + datagram@
            &&& result is Ok <==> ipv4_of(sender) is Some || ipv6_of(sender) is Some
            &&& result matches Ok((n, from)) ==> n == datagram@.len() && match from {
                Endpoint::V4 { ip4, port } => ipv4_of(sender) == Some((ip4, port)),
                Endpoint::V6 { ip6, port, flowinfo, scope_id } => ipv4_of(sender) is None
                    && ipv6_of(sender) == Some((ip6, port, flowinfo, scope_id)),
            }
            &&& result is Err ==> result == Err::<(usize, Endpoint), SocketError>(
                SocketError::Address(AddressError::Source),
            )
        },
        reply matches Err(error) ==> {
            &&& final(buf).bytes() == old(buf).bytes()
            &&& result == Err::<(usize, Endpoint), SocketError>(SocketError::Io(error))
        },
{
    if let Ok((datagram, _)) = reply {
        assert(datagram.len() == datagram@.len());
    }
}

/// A receive into a growable buffer is a receive into the room that the buffer
/// answers: the system is given that room and no other, all of what it hands over
/// is added, and an error adds nothing.
pub proof fn law_a_receive_is_given_the_room_of_its_buffer<B, Op>(
    buf: &mut B,
    op: Op,
    system: spec_fn(usize) -> Result<Vec<u8>, std::io::Error>,
    result: Result<usize, std::io::Error>,
) where B: ReceiveBuffer, Op: FnOnce(usize) -> Result<Vec<u8>, std::io::Error>
    requires
        call_ensures(UdpSocket::recv_buf::<B, Op>, (buf, op), result),
        forall|room: usize, answer: Result<Vec<u8>, std::io::Error>| #[trigger]
            call_ensures(op, (room,), answer) ==> answer == system(room),
        forall|room: usize| (#[trigger] system(room)) matches Ok(datagram) ==> datagram@.len()
            <= room,
    ensures
        exists|asked: &mut B, room: usize|
            {
                &&& *asked == *old(buf)
                &&& #[trigger] call_ensures(B::room, (asked,), room)
                &&& system(room) matches Ok(datagram) ==> {
                    &&& final(buf).bytes() == old(buf).bytes() + datagram@
                    &&& result matches Ok(n) && n == datagram@.len()
                }
                &&& system(room) matches Err(error) ==> {
                    &&& final(buf).bytes() == old(buf).bytes()
                    &&& result == Err::<usize, std::io::Error>(error)
                }
            },
{
}

/// The same of a receive that names the sender.
pub proof fn law_a_receive_with_a_sender_is_given_the_room_of_its_buffer<B, Op>(
    buf: &mut B,
    op: Op,
    system: spec_fn(usize) -> Result<(Vec<u8>, SockAddr), std::io::Error>,
    result: Result<(usize, Endpoint), SocketError>,
) where B: ReceiveBuffer, Op: FnOnce(usize) -> Result<(Vec<u8>, SockAddr), std::io::Error>
    requires
        call_ensures(UdpSocket::recv_buf_from::<B, Op>, (buf, op), result),
        forall|room: usize, answer: Result<(Vec<u8>, SockAddr), std::io::Error>| #[trigger]
            call_ensures(op, (room,), answer) ==> answer == system(room),
        forall|room: usize| (#[trigger] system(room)) matches Ok((datagram, _))
            ==> datagram@.len() <= room,
    ensures
        exists|asked: &mut B, room: usize|
            {
                &&& *asked == *old(buf)
                &&& #[trigger] call_ensures(B::room, (asked,), room)
                &&& system(room) matches Ok((datagram, sender)) ==> {
                    &&& final(buf).bytes() == old(buf).bytes() + datagram@
                    &&& result is Ok <==> ipv4_of(sender) is Some || ipv6_of(sender) is Some
                    &&& result matches Ok((n, from)) ==> n == datagram@.len() && match from {
                        Endpoint::V4 { ip4, port } => ipv4_of(sender) == Some((ip4, port)),
                        Endpoint::V6 { ip6, port, flowinfo, scope_id } => ipv4_of(sender) is None
                            && ipv6_of(sender) == Some((ip6, port, flowinfo, scope_id)),
                    }
                    &&& result is Err ==> result == Err::<(usize, Endpoint), SocketError>(
                        SocketError::Address(AddressError::Source),
                    )
                }
                &&& system(room) matches Err(error) ==> {
                    &&& final(buf).bytes() == old(buf).bytes()
                    &&& result == Err::<(usize, Endpoint), SocketError>(SocketError::Io(error))
                }
            },
{
}

} // verus!
