//! Sends that make one datagram of several buffers.
use vstd::prelude::*;

use socket2::{MsgHdr, SockAddr};
use std::io::IoSlice;

use crate::platform::{Backend, Platform, SendWait, UdpSocket};

verus! {

/// `std::io::IoSlice`, a buffer that a vectored send reads.
#[verifier::external_type_specification]
#[verifier::external_body]
pub struct ExIoSlice<'a>(IoSlice<'a>);

/// `socket2::MsgHdr`, the message that one `sendmsg(2)` call sends.
#[verifier::external_type_specification]
#[verifier::external_body]
pub struct ExMsgHdr<'addr, 'bufs, 'control>(MsgHdr<'addr, 'bufs, 'control>);

/// The bytes of a buffer.
pub uninterp spec fn bytes_of(slice: IoSlice<'_>) -> Seq<u8>;

/// The address that a message is sent to, if it names one.
pub uninterp spec fn message_target(message: MsgHdr<'_, '_, '_>) -> Option<SockAddr>;

/// The buffers that a message is made of.
pub uninterp spec fn message_buffers(message: MsgHdr<'_, '_, '_>) -> Seq<Seq<u8>>;

/// The most buffers that every system counts in a message without loss.
pub open spec fn countable() -> nat {
    i32::MAX as nat
}

/// The bytes of each buffer.
pub open spec fn buffers(bufs: Seq<IoSlice<'_>>) -> Seq<Seq<u8>> {
    Seq::new(bufs.len(), |i: int| bytes_of(bufs[i]))
}

/// The bytes of each slice.
pub open spec fn contents(bufs: Seq<&[u8]>) -> Seq<Seq<u8>> {
    Seq::new(bufs.len(), |i: int| bufs[i]@)
}

/// The datagram that a list of buffers makes: all their bytes, in order.
pub open spec fn datagram(bufs: Seq<Seq<u8>>) -> Seq<u8> {
    bufs.flatten()
}

/// Reads an `IoSlice` as the slice it dereferences to. Claimed: the bytes
/// depend on the `IoSlice` alone.
#[verifier::external_body]
fn as_bytes<'a>(slice: &'a IoSlice<'a>) -> (bytes: &'a [u8])
    ensures
        bytes@ == bytes_of(*slice),
{
    &**slice
}

/// Calls `MsgHdr::new`. Claimed: the message names no address and has no
/// buffers.
#[verifier::external_body]
fn empty_message<'a>() -> (message: MsgHdr<'a, 'a, 'a>)
    ensures
        message_target(message) is None,
        message_buffers(message) == Seq::<Seq<u8>>::empty(),
{
    MsgHdr::new()
}

/// Calls `MsgHdr::with_addr`. Claimed: the message names the address, and its
/// buffers stay.
#[verifier::external_body]
fn with_addr<'a>(message: MsgHdr<'a, 'a, 'a>, addr: &'a SockAddr) -> (addressed: MsgHdr<
    'a,
    'a,
    'a,
>)
    ensures
        message_target(addressed) == Some(*addr),
        message_buffers(addressed) == message_buffers(message),
{
    message.with_addr(addr)
}

/// Calls `MsgHdr::with_buffers`. Claimed: the message's address stays, and its
/// buffers are the given ones as long as every system can count them.
#[verifier::external_body]
fn with_buffers<'a>(message: MsgHdr<'a, 'a, 'a>, bufs: &'a [IoSlice<'a>]) -> (filled: MsgHdr<
    'a,
    'a,
    'a,
>)
    ensures
        message_target(filled) == message_target(message),
        bufs@.len() <= countable() ==> message_buffers(filled) == buffers(bufs@),
{
    message.with_buffers(bufs)
}

/// The slices that the buffers hold.
pub fn slices<'a>(bufs: &'a [IoSlice<'a>]) -> (slices: Vec<&'a [u8]>)
    ensures
        contents(slices@) == buffers(bufs@),
{
    let mut slices: Vec<&'a [u8]> = Vec::new();
    let mut i: usize = 0;
    while i < bufs.len()
        invariant
            i <= bufs@.len(),
            slices@.len() == i,
            forall|j: int| 0 <= j < i ==> (#[trigger] slices@[j])@ == bytes_of(bufs@[j]),
        decreases bufs@.len() - i,
    {
        slices.push(as_bytes(&bufs[i]));
        i = i + 1;
    }
    slices
}

/// The number of bytes in the datagram, or `None` if no buffer can hold them.
pub fn joined_len(bufs: &[&[u8]]) -> (total: Option<usize>)
    ensures
        total == (if datagram(contents(bufs@)).len() <= isize::MAX {
            Some(datagram(contents(bufs@)).len() as usize)
        } else {
            None
        }),
{
    let mut total: usize = 0;
    let mut i: usize = 0;
    while i < bufs.len()
        invariant
            i <= bufs@.len(),
            total == datagram(contents(bufs@.take(i as int))).len(),
            total <= isize::MAX,
        decreases bufs@.len() - i,
    {
        proof {
            lemma_one_more(bufs@, i as int);
        }
        if bufs[i].len() > isize::MAX as usize - total {
            proof {
                lemma_prefix_is_shorter(bufs@, i + 1);
            }
            return None;
        }
        total = total + bufs[i].len();
        i = i + 1;
    }
    assert(bufs@.take(i as int) == bufs@);
    Some(total)
}

/// All bytes of the slices in one buffer.
pub fn join(bufs: &[&[u8]]) -> (joined: Vec<u8>)
    requires
        datagram(contents(bufs@)).len() <= isize::MAX,
    ensures
        joined@ == datagram(contents(bufs@)),
{
    let total: usize = match joined_len(bufs) {
        Some(len) => len,
        None => 0,
    };
    let mut joined: Vec<u8> = Vec::with_capacity(total);
    let mut i: usize = 0;
    while i < bufs.len()
        invariant
            i <= bufs@.len(),
            joined@ == datagram(contents(bufs@.take(i as int))),
        decreases bufs@.len() - i,
    {
        proof {
            lemma_one_more(bufs@, i as int);
        }
        joined.extend_from_slice(bufs[i]);
        i = i + 1;
    }
    assert(bufs@.take(i as int) == bufs@);
    joined
}

proof fn lemma_one_more(bufs: Seq<&[u8]>, i: int)
    requires
        0 <= i < bufs.len(),
    ensures
        datagram(contents(bufs.take(i + 1))) == datagram(contents(bufs.take(i))) + bufs[i]@,
{
    assert(contents(bufs.take(i + 1)) == contents(bufs.take(i)).push(bufs[i]@));
    contents(bufs.take(i)).lemma_flatten_push(bufs[i]@);
}

proof fn lemma_prefix_is_shorter(bufs: Seq<&[u8]>, i: int)
    requires
        0 <= i <= bufs.len(),
    ensures
        datagram(contents(bufs.take(i))).len() <= datagram(contents(bufs)).len(),
    decreases bufs.len() - i,
{
    if i < bufs.len() {
        lemma_one_more(bufs, i);
        lemma_prefix_is_shorter(bufs, i + 1);
    } else {
        assert(bufs.take(i) == bufs);
    }
}

/// The number of the error `EMSGSIZE` on macOS.
pub const MACOS_EMSGSIZE: i32 = 40;

/// A vectored send was given no buffers, and refused them.
#[derive(Clone, Copy, Debug, PartialEq, Eq, Structural)]
pub struct EmptyList;

impl EmptyList {
    /// The text shown for the error.
    pub open spec fn text(self) -> Seq<char> {
        "no buffers to send"@
    }

    /// The text shown for the error.
    pub fn message(self) -> (text: &'static str)
        ensures
            text@ == self.text(),
    {
        "no buffers to send"
    }

    /// The number of the error that a `sendmsg(2)` call without buffers fails
    /// with, or `None` on a system where it does not fail.
    pub fn code(self, platform: Platform) -> (code: Option<i32>)
        ensures
            code == (if platform is MacOs {
                Some(MACOS_EMSGSIZE)
            } else {
                None
            }),
    {
        match platform {
            Platform::MacOs => Some(MACOS_EMSGSIZE),
            _ => None,
        }
    }
}

/// How a list of buffers goes to the system.
#[derive(Debug)]
pub enum Transmission<'a> {
    /// Not at all: nothing is sent, and the send reports no bytes.
    Nothing,
    /// Not at all: nothing is sent, and the send fails.
    Rejected,
    /// In one call that reads all buffers where they are.
    Gather,
    /// The only buffer, where it is.
    Single(&'a [u8]),
    /// A copy of all buffers.
    Joined(Vec<u8>),
}

impl<'a> Transmission<'a> {
    /// The datagram that leaves the socket, if one does, when `bufs` is sent
    /// this way.
    pub open spec fn payload(self, bufs: Seq<Seq<u8>>) -> Option<Seq<u8>> {
        match self {
            Transmission::Nothing => None,
            Transmission::Rejected => None,
            Transmission::Gather => Some(datagram(bufs)),
            Transmission::Single(slice) => Some(slice@),
            Transmission::Joined(copy) => Some(copy@),
        }
    }

    /// The way in which a socket with the given backend sends `bufs`. Neither
    /// backend sends an empty list: one refuses it, the other has nothing to do.
    pub open spec fn is_for(self, backend: Backend, bufs: Seq<Seq<u8>>) -> bool {
        match backend {
            Backend::Vectored => if bufs.len() == 0 {
                self is Rejected
            } else {
                self is Gather
            },
            Backend::Concatenating => if bufs.len() == 0 {
                self is Nothing
            } else if bufs.len() == 1 {
                self matches Transmission::Single(slice) && slice@ == bufs[0]
            } else {
                self matches Transmission::Joined(copy) && copy@ == datagram(bufs)
            },
        }
    }

    /// The result of the send where nothing goes to the system, or `None` where
    /// the system decides.
    pub fn settled(&self) -> (result: Option<Result<usize, EmptyList>>)
        ensures
            result == (match *self {
                Transmission::Nothing => Some(Ok::<usize, EmptyList>(0)),
                Transmission::Rejected => Some(Err::<usize, EmptyList>(EmptyList)),
                _ => None,
            }),
    {
        match self {
            Transmission::Nothing => Some(Ok(0)),
            Transmission::Rejected => Some(Err(EmptyList)),
            _ => None,
        }
    }
}

/// Whether the bytes fit in the one buffer that they may have to be copied to.
pub open spec fn fits(backend: Backend, bufs: Seq<Seq<u8>>) -> bool {
    backend is Concatenating && bufs.len() > 1 ==> datagram(bufs).len() <= isize::MAX
}

/// How slices are sent where the system takes one buffer at a time.
pub fn concatenate<'a>(bufs: &[&'a [u8]]) -> (transmission: Transmission<'a>)
    requires
        fits(Backend::Concatenating, contents(bufs@)),
    ensures
        transmission.is_for(Backend::Concatenating, contents(bufs@)),
{
    if bufs.len() == 0 {
        Transmission::Nothing
    } else if bufs.len() == 1 {
        Transmission::Single(bufs[0])
    } else {
        Transmission::Joined(join(bufs))
    }
}

/// One send, ready to be carried out.
#[derive(Debug)]
pub struct Outgoing<'a> {
    /// The buffers.
    pub bufs: &'a [IoSlice<'a>],
    /// The address to send to. A connected socket needs none.
    pub target: Option<&'a SockAddr>,
    /// How the buffers go to the system.
    pub transmission: Transmission<'a>,
    /// How the send waits if it would block.
    pub wait: SendWait,
}

/// The address itself, where there is one.
pub open spec fn target_of(target: Option<&SockAddr>) -> Option<SockAddr> {
    match target {
        Some(addr) => Some(*addr),
        None => None,
    }
}

impl<'a> Outgoing<'a> {
    /// This is the send of `bufs` to `target` from the given socket.
    pub open spec fn is_send(
        self,
        socket: UdpSocket,
        bufs: Seq<IoSlice<'a>>,
        target: Option<&'a SockAddr>,
    ) -> bool {
        &&& self.bufs@ == bufs
        &&& self.target == target
        &&& self.transmission.is_for(socket.backend(), buffers(bufs))
        &&& self.wait == socket.spec_send_wait()
    }

    /// The datagram that leaves the socket, if one does, and the address that it
    /// is sent to.
    pub open spec fn wire(self) -> Option<(Option<SockAddr>, Seq<u8>)> {
        match self.transmission.payload(buffers(self.bufs@)) {
            Some(datagram) => Some((target_of(self.target), datagram)),
            None => None,
        }
    }

    /// The message that each attempt of the send hands to the system, where it
    /// is sent in one call.
    pub fn message(&self) -> (message: MsgHdr<'a, 'a, 'a>)
        ensures
            message_target(message) == target_of(self.target),
            self.bufs@.len() <= countable() ==> message_buffers(message) == buffers(self.bufs@),
    {
        UdpSocket::try_send_vectored(self.bufs, self.target)
    }
}

/// `core::slice::from_ref`. Claimed: the slice has the value as its only
/// element.
pub assume_specification<T>[ core::slice::from_ref::<T> ](s: &T) -> (slice: &[T])
    ensures
        slice@ == seq![*s],
;

impl UdpSocket {
    /// The message that one attempt of a vectored send hands to the system: the
    /// buffers, and the address if there is one. A connected socket sends
    /// without.
    pub fn try_send_vectored<'a>(
        bufs: &'a [IoSlice<'a>],
        target: Option<&'a SockAddr>,
    ) -> (message: MsgHdr<'a, 'a, 'a>)
        ensures
            message_target(message) == target_of(target),
            bufs@.len() <= countable() ==> message_buffers(message) == buffers(bufs@),
    {
        match target {
            Some(addr) => with_buffers(with_addr(empty_message(), addr), bufs),
            None => with_buffers(empty_message(), bufs),
        }
    }

    fn transmission<'a>(&self, bufs: &'a [IoSlice<'a>]) -> (transmission: Transmission<'a>)
        requires
            fits(self.backend(), buffers(bufs@)),
        ensures
            transmission.is_for(self.backend(), buffers(bufs@)),
    {
        match self.get_backend() {
            Backend::Vectored => if bufs.len() == 0 {
                Transmission::Rejected
            } else {
                Transmission::Gather
            },
            Backend::Concatenating => {
                let slices = slices(bufs);
                concatenate(slices.as_slice())
            },
        }
    }

    /// Sends the buffers as one datagram to the peer the socket is connected to.
    pub fn send_vectored<'a>(&self, bufs: &'a [IoSlice<'a>]) -> (outgoing: Outgoing<'a>)
        requires
            fits(self.backend(), buffers(bufs@)),
        ensures
            outgoing.is_send(*self, bufs@, None),
    {
        Outgoing {
            bufs,
            target: None,
            transmission: self.transmission(bufs),
            wait: self.send_wait(),
        }
    }

    /// Sends the buffers as one datagram to the given address.
    pub fn send_to_vectored<'a>(
        &self,
        bufs: &'a [IoSlice<'a>],
        target: &'a SockAddr,
    ) -> (outgoing: Outgoing<'a>)
        requires
            fits(self.backend(), buffers(bufs@)),
        ensures
            outgoing.is_send(*self, bufs@, Some(target)),
    {
        Outgoing {
            bufs,
            target: Some(target),
            transmission: self.transmission(bufs),
            wait: self.send_wait(),
        }
    }

    /// Sends one buffer as a datagram to the peer the socket is connected to.
    pub fn send<'a>(&self, buf: &'a IoSlice<'a>) -> (outgoing: Outgoing<'a>)
        ensures
            outgoing.is_send(*self, seq![*buf], None),
            outgoing.wire() == Some((None::<SockAddr>, bytes_of(*buf))),
    {
        let outgoing = self.send_vectored(core::slice::from_ref(buf));
        proof {
            assert(buffers(seq![*buf]) == seq![bytes_of(*buf)]);
            law_single_buffer_is_a_plain_send(
                self.backend(),
                bytes_of(*buf),
                outgoing.transmission,
            );
        }
        outgoing
    }

    /// Sends the buffers as one datagram, unless they have to be copied and no
    /// buffer can hold them.
    pub fn plan_send<'a>(
        &self,
        bufs: &'a [IoSlice<'a>],
        target: Option<&'a SockAddr>,
    ) -> (planned: Option<Outgoing<'a>>)
        ensures
            planned is Some <==> fits(self.backend(), buffers(bufs@)),
            planned matches Some(outgoing) ==> outgoing.is_send(*self, bufs@, target),
    {
        let fitting: bool = match self.get_backend() {
            Backend::Vectored => true,
            Backend::Concatenating => bufs.len() <= 1 || joined_len(
                slices(bufs).as_slice(),
            ).is_some(),
        };
        if !fitting {
            return None;
        }
        match target {
            Some(addr) => Some(self.send_to_vectored(bufs, addr)),
            None => Some(self.send_vectored(bufs)),
        }
    }
}

/// Whatever the backend is, buffers that are sent leave as the one datagram of
/// all their bytes in order.
pub proof fn law_backends_agree(
    backend: Backend,
    bufs: Seq<Seq<u8>>,
    transmission: Transmission<'_>,
)
    requires
        transmission.is_for(backend, bufs),
        bufs.len() > 0,
    ensures
        transmission.payload(bufs) == Some(datagram(bufs)),
{
    bufs.lemma_flatten_one_element();
}

/// A socket that copies puts no datagram on the wire for an empty list, and
/// for an empty list alone.
pub proof fn law_copying_sends_nothing_for_nothing(
    bufs: Seq<Seq<u8>>,
    transmission: Transmission<'_>,
)
    requires
        transmission.is_for(Backend::Concatenating, bufs),
    ensures
        transmission.payload(bufs) is None <==> bufs.len() == 0,
{
}

/// No backend puts a datagram on the wire for an empty list. The vectored one
/// refuses it, and the copying one reports no bytes.
pub proof fn law_an_empty_list_leaves_no_datagram(
    backend: Backend,
    bufs: Seq<Seq<u8>>,
    transmission: Transmission<'_>,
)
    requires
        transmission.is_for(backend, bufs),
        bufs.len() == 0,
    ensures
        transmission.payload(bufs) is None,
        backend is Vectored ==> transmission is Rejected,
        backend is Concatenating ==> transmission is Nothing,
{
}

/// How the bytes are split makes no difference: two sends of the same bytes to
/// the same address, from sockets of any kind, put the same datagram on the
/// wire.
pub proof fn law_any_split_sends_the_same<'a>(
    first_socket: UdpSocket,
    second_socket: UdpSocket,
    target: Option<&'a SockAddr>,
    first_bufs: Seq<IoSlice<'a>>,
    second_bufs: Seq<IoSlice<'a>>,
    first: Outgoing<'a>,
    second: Outgoing<'a>,
)
    requires
        first.is_send(first_socket, first_bufs, target),
        second.is_send(second_socket, second_bufs, target),
        first_bufs.len() > 0,
        second_bufs.len() > 0,
        datagram(buffers(first_bufs)) == datagram(buffers(second_bufs)),
    ensures
        first.wire() == second.wire(),
        first.wire() == Some((target_of(target), datagram(buffers(first_bufs)))),
{
    law_backends_agree(first_socket.backend(), buffers(first_bufs), first.transmission);
    law_backends_agree(second_socket.backend(), buffers(second_bufs), second.transmission);
}

/// A plain send is a vectored send of the one buffer: they put the same datagram
/// on the wire and wait in the same way.
pub proof fn law_send_is_a_vectored_send_of_one<'a>(
    socket: UdpSocket,
    buf: IoSlice<'a>,
    plain: Outgoing<'a>,
    vectored: Outgoing<'a>,
)
    requires
        plain.is_send(socket, seq![buf], None),
        vectored.is_send(socket, seq![buf], None),
    ensures
        plain.wire() == vectored.wire(),
        plain.wire() == Some((None::<SockAddr>, bytes_of(buf))),
        plain.wait == vectored.wait,
{
    assert(buffers(seq![buf]) == seq![bytes_of(buf)]);
    law_single_buffer_is_a_plain_send(socket.backend(), bytes_of(buf), plain.transmission);
    law_single_buffer_is_a_plain_send(socket.backend(), bytes_of(buf), vectored.transmission);
}

/// A vectored send of one buffer sends that buffer, as a plain send does.
pub proof fn law_single_buffer_is_a_plain_send(
    backend: Backend,
    buf: Seq<u8>,
    transmission: Transmission<'_>,
)
    requires
        transmission.is_for(backend, seq![buf]),
    ensures
        transmission.payload(seq![buf]) == Some(buf),
{
    seq![buf].lemma_flatten_one_element();
}

/// No byte is lost, added or moved between buffers: the datagram of two lists
/// is that of the first followed by that of the second.
pub proof fn law_datagram_of_two_lists(first: Seq<Seq<u8>>, second: Seq<Seq<u8>>)
    ensures
        datagram(first + second) == datagram(first) + datagram(second),
{
    vstd::seq_lib::lemma_flatten_concat(first, second);
}

} // verus!
