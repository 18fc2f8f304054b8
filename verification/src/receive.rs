//! Receives into a buffer that grows.
//!
//! Taking a datagram from the system and adding it to the buffer is one step
//! here, with nothing between the two. A receive that waits hands this step to
//! the runtime as the operation to run when the socket is ready: as long as it
//! has not run, dropping the receive takes nothing from the system, and once
//! it has taken a datagram the datagram is in the buffer.
use vstd::prelude::*;

use bytes::{BufMut, BytesMut};
use socket2::SockAddr;

use crate::address::{
    endpoint, endpoint_of, ipv4_of, ipv6_of, received_from, require_endpoint, AddressError,
    Endpoint, SocketError,
};
use crate::nonblocking::would_block;
use crate::platform::UdpSocket;

verus! {

/// `bytes::BytesMut`, a buffer of bytes that grows.
#[verifier::external_type_specification]
#[verifier::external_body]
pub struct ExBytesMut(BytesMut);

/// The bytes that a buffer holds.
pub uninterp spec fn held(buf: BytesMut) -> Seq<u8>;

/// The most bytes by which a full buffer grows to offer room.
pub open spec fn growth() -> int {
    64
}

/// The most bytes that a `BytesMut` may come to hold by growing. It is a quarter
/// of what one allocation can be: a buffer may keep as much again in front of its
/// bytes, and it doubles when it grows.
pub open spec fn bytes_mut_limit() -> int {
    isize::MAX / 4
}

/// The most bytes that a `Vec` may come to hold by growing. It is half of what one
/// allocation can be, for it doubles when it grows.
pub open spec fn vec_limit() -> int {
    isize::MAX / 2
}

/// Asked for its free space, a `BytesMut` may answer this.
pub closed spec fn bytes_mut_answers(buf: BytesMut, free: usize) -> bool {
    exists|asked: &mut BytesMut|
        *asked == buf && #[trigger] call_ensures(bytes_mut_chunk, (asked,), free)
}

/// A `BytesMut` has allocated space for this many more bytes.
pub closed spec fn bytes_mut_spares(buf: BytesMut, room: nat) -> bool {
    exists|capacity: usize| #[trigger]
        call_ensures(bytes_mut_capacity, (&buf,), capacity) && held(buf).len() + room <= capacity
}

/// The capacity of a `BytesMut` is what it holds and this much free space.
pub closed spec fn bytes_mut_frees(buf: BytesMut, free: usize) -> bool {
    forall|capacity: usize| #[trigger]
        call_ensures(bytes_mut_capacity, (&buf,), capacity) ==> capacity == held(buf).len() + free
}

/// Asked for its free space, a `Vec` may answer this.
pub closed spec fn vec_answers(buf: Vec<u8>, free: usize) -> bool {
    exists|asked: &mut Vec<u8>|
        *asked == buf && #[trigger] call_ensures(vec_chunk, (asked,), free)
}

/// A `Vec` has allocated space for this many more bytes.
pub closed spec fn vec_spares(buf: Vec<u8>, room: nat) -> bool {
    exists|capacity: usize| #[trigger]
        call_ensures(vec_capacity, (&buf,), capacity) && buf@.len() + room <= capacity
}

/// The capacity of a `Vec` is what it holds and this much free space.
pub closed spec fn vec_frees(buf: Vec<u8>, free: usize) -> bool {
    forall|capacity: usize| #[trigger]
        call_ensures(vec_capacity, (&buf,), capacity) ==> capacity == buf@.len() + free
}

/// Calls `BytesMut::capacity`. Claimed: the bytes held fit in it. How much it is
/// depends on the allocation and is not said.
#[verifier::external_body]
fn bytes_mut_capacity(buf: &BytesMut) -> (capacity: usize)
    ensures
        capacity >= held(*buf).len(),
{
    buf.capacity()
}

/// Calls `BufMut::chunk_mut` on a `BytesMut` for the length of the free space
/// at its end, which is made if there is none. Claimed: there is some, the bytes
/// held stay, and the free space is what the capacity has beyond them, which is no
/// less than before. How much there is depends on the allocation and is not said.
#[verifier::external_body]
fn bytes_mut_chunk(buf: &mut BytesMut) -> (free: usize)
    requires
        held(*old(buf)).len() + growth() <= bytes_mut_limit(),
    ensures
        free > 0,
        held(*final(buf)) == held(*old(buf)),
        forall|capacity: usize| #[trigger]
            call_ensures(bytes_mut_capacity, (&*final(buf),), capacity) ==> capacity
                == held(*final(buf)).len() + free,
        forall|capacity: usize| #[trigger]
            call_ensures(bytes_mut_capacity, (&*old(buf),), capacity) ==> capacity
                <= held(*old(buf)).len() + free,
{
    buf.chunk_mut().len()
}

/// Calls `BufMut::put_slice` on a `BytesMut`. Claimed: the bytes are added at
/// the end. There must be space for them, or the buffer must be small enough to
/// grow.
#[verifier::external_body]
fn bytes_mut_put(buf: &mut BytesMut, bytes: &[u8])
    requires
        bytes_mut_spares(*old(buf), bytes@.len()) || held(*old(buf)).len() + bytes@.len()
            <= bytes_mut_limit(),
    ensures
        held(*final(buf)) == held(*old(buf)) + bytes@,
{
    buf.put_slice(bytes);
}

/// Calls `Vec::capacity`. Claimed: the bytes held fit in it. How much it is
/// depends on the allocation and is not said.
#[verifier::external_body]
fn vec_capacity(buf: &Vec<u8>) -> (capacity: usize)
    ensures
        capacity >= buf@.len(),
{
    buf.capacity()
}

/// Calls `BufMut::chunk_mut` on a `Vec<u8>` for the length of the free space
/// at its end, which is made if there is none. Claimed: there is some, the bytes
/// held stay, and the free space is what the capacity has beyond them, which is no
/// less than before. How much there is depends on the allocation and is not said.
#[verifier::external_body]
fn vec_chunk(buf: &mut Vec<u8>) -> (free: usize)
    requires
        old(buf)@.len() + growth() <= vec_limit(),
    ensures
        free > 0,
        final(buf)@ == old(buf)@,
        forall|capacity: usize| #[trigger]
            call_ensures(vec_capacity, (&*final(buf),), capacity) ==> capacity
                == final(buf)@.len() + free,
        forall|capacity: usize| #[trigger]
            call_ensures(vec_capacity, (&*old(buf),), capacity) ==> capacity
                <= old(buf)@.len() + free,
{
    buf.chunk_mut().len()
}

/// A buffer that datagrams are added to.
pub trait ReceiveBuffer: Sized {
    /// The bytes that the buffer holds.
    spec fn bytes(&self) -> Seq<u8>;

    /// The most bytes that a buffer may come to hold by growing.
    spec fn limit() -> int;

    /// The buffer can take this many more bytes: it has the space, or it may grow
    /// to hold them.
    spec fn takes(&self, room: nat) -> bool;

    /// The number of bytes that the next datagram may have: all the free space
    /// at the end. A full buffer makes room first, so there is some; how much
    /// depends on the allocation.
    fn room(&mut self) -> (room: usize)
        requires
            old(self).bytes().len() + growth() <= Self::limit(),
        ensures
            room > 0,
            final(self).bytes() == old(self).bytes(),
            final(self).takes(room as nat),
    ;

    /// Adds bytes at the end.
    fn commit(&mut self, bytes: &[u8])
        requires
            exists|room: nat| bytes@.len() <= room && #[trigger] old(self).takes(room),
        ensures
            final(self).bytes() == old(self).bytes() + bytes@,
    ;
}

/// Asked for its room, the buffer may answer this.
pub open spec fn answers<B: ReceiveBuffer>(buf: B, room: usize) -> bool {
    exists|asked: &mut B| *asked == buf && #[trigger] call_ensures(B::room, (asked,), room)
}

impl ReceiveBuffer for BytesMut {
    open spec fn bytes(&self) -> Seq<u8> {
        held(*self)
    }

    open spec fn limit() -> int {
        bytes_mut_limit()
    }

    open spec fn takes(&self, room: nat) -> bool {
        bytes_mut_spares(*self, room) || held(*self).len() + room <= bytes_mut_limit()
    }

    fn room(&mut self) -> (room: usize)
        ensures
            bytes_mut_answers(*old(self), room),
            bytes_mut_frees(*final(self), room),
            bytes_mut_spares(*final(self), room as nat),
            forall|space: nat| #[trigger] bytes_mut_spares(*old(self), space) ==> space <= room,
    {
        let free: usize = bytes_mut_chunk(self);
        // The capacity shows that the free space is there to be filled.
        let _capacity: usize = bytes_mut_capacity(self);
        free
    }

    fn commit(&mut self, bytes: &[u8]) {
        bytes_mut_put(self, bytes)
    }
}

impl ReceiveBuffer for Vec<u8> {
    open spec fn bytes(&self) -> Seq<u8> {
        self@
    }

    open spec fn limit() -> int {
        vec_limit()
    }

    open spec fn takes(&self, room: nat) -> bool {
        vec_spares(*self, room) || self@.len() + room <= vec_limit()
    }

    fn room(&mut self) -> (room: usize)
        ensures
            vec_answers(*old(self), room),
            vec_frees(*final(self), room),
            vec_spares(*final(self), room as nat),
            forall|space: nat| #[trigger] vec_spares(*old(self), space) ==> space <= room,
    {
        let free: usize = vec_chunk(self);
        // The capacity shows that the free space is there to be filled.
        let _capacity: usize = vec_capacity(self);
        free
    }

    fn commit(&mut self, bytes: &[u8]) {
        self.extend_from_slice(bytes);
        assert(self@ == old(self)@ + bytes@);
    }
}

/// The room that a `BytesMut` answers is the free space at its end, all of it.
pub proof fn law_the_room_of_a_bytes_mut_is_its_free_space(buf: BytesMut, room: usize)
    requires
        answers(buf, room),
    ensures
        bytes_mut_answers(buf, room),
        room > 0,
{
}

/// The room that a `Vec` answers is the free space at its end, all of it.
pub proof fn law_the_room_of_a_vec_is_its_free_space(buf: Vec<u8>, room: usize)
    requires
        answers(buf, room),
    ensures
        vec_answers(buf, room),
        room > 0,
{
}

/// What a `BytesMut` answers and what it holds are its capacity afterwards, which is
/// no less than before.
proof fn lemma_bytes_mut_capacity(
    buf: &mut BytesMut,
    room: usize,
    before: Option<usize>,
    after: usize,
)
    requires
        call_ensures(<BytesMut as ReceiveBuffer>::room, (buf,), room),
        before matches Some(capacity) ==> call_ensures(bytes_mut_capacity, (&*buf,), capacity),
        call_ensures(bytes_mut_capacity, (&*final(buf),), after),
    ensures
        held(*final(buf)) == held(*old(buf)),
        held(*final(buf)).len() + room == after,
        before matches Some(capacity) ==> capacity <= after,
{
    if let Some(capacity) = before {
        assert(bytes_mut_spares(*buf, (capacity - held(*buf).len()) as nat));
    }
}

/// A `BytesMut` that is asked for its room holds nothing back, whatever it holds: it
/// has space for as many bytes as it answers and for no more, and for no fewer
/// than before.
pub proof fn law_a_bytes_mut_holds_no_room_back(buf: &mut BytesMut, room: usize, space: nat)
    requires
        call_ensures(<BytesMut as ReceiveBuffer>::room, (buf,), room),
    ensures
        held(*final(buf)) == held(*old(buf)),
        room > 0,
        bytes_mut_spares(*final(buf), space) <==> space <= room,
        bytes_mut_spares(*old(buf), space) ==> space <= room,
{
    let after = choose|after: usize| #[trigger]
        call_ensures(bytes_mut_capacity, (&*final(buf),), after)
            && held(*final(buf)).len() + room <= after;
    lemma_bytes_mut_capacity(buf, room, None, after);
    if bytes_mut_spares(*final(buf), space) {
        let capacity = choose|capacity: usize| #[trigger]
            call_ensures(bytes_mut_capacity, (&*final(buf),), capacity)
                && held(*final(buf)).len() + space <= capacity;
        lemma_bytes_mut_capacity(buf, room, None, capacity);
    }
    if bytes_mut_spares(*buf, space) {
        let capacity = choose|capacity: usize| #[trigger]
            call_ensures(bytes_mut_capacity, (&*buf,), capacity)
                && held(*buf).len() + space <= capacity;
        lemma_bytes_mut_capacity(buf, room, Some(capacity), after);
    }
}

/// What a `Vec` answers and what it holds are its capacity afterwards, which is
/// no less than before.
proof fn lemma_vec_capacity(buf: &mut Vec<u8>, room: usize, before: Option<usize>, after: usize)
    requires
        call_ensures(<Vec<u8> as ReceiveBuffer>::room, (buf,), room),
        before matches Some(capacity) ==> call_ensures(vec_capacity, (&*buf,), capacity),
        call_ensures(vec_capacity, (&*final(buf),), after),
    ensures
        final(buf)@ == old(buf)@,
        final(buf)@.len() + room == after,
        before matches Some(capacity) ==> capacity <= after,
{
    if let Some(capacity) = before {
        assert(vec_spares(*buf, (capacity - buf@.len()) as nat));
    }
}

/// A `Vec` that is asked for its room holds nothing back, whatever it holds: it
/// has space for as many bytes as it answers and for no more, and for no fewer
/// than before.
pub proof fn law_a_vec_holds_no_room_back(buf: &mut Vec<u8>, room: usize, space: nat)
    requires
        call_ensures(<Vec<u8> as ReceiveBuffer>::room, (buf,), room),
    ensures
        final(buf)@ == old(buf)@,
        room > 0,
        vec_spares(*final(buf), space) <==> space <= room,
        vec_spares(*old(buf), space) ==> space <= room,
{
    let after = choose|after: usize| #[trigger]
        call_ensures(vec_capacity, (&*final(buf),), after)
            && final(buf)@.len() + room <= after;
    lemma_vec_capacity(buf, room, None, after);
    if vec_spares(*final(buf), space) {
        let capacity = choose|capacity: usize| #[trigger]
            call_ensures(vec_capacity, (&*final(buf),), capacity)
                && final(buf)@.len() + space <= capacity;
        lemma_vec_capacity(buf, room, None, capacity);
    }
    if vec_spares(*buf, space) {
        let capacity = choose|capacity: usize| #[trigger]
            call_ensures(vec_capacity, (&*buf,), capacity) && buf@.len() + space <= capacity;
        lemma_vec_capacity(buf, room, Some(capacity), after);
    }
}

/// What a buffer holds after a receive that took the given datagram, or none.
pub open spec fn committed(before: Seq<u8>, taken: Option<Seq<u8>>) -> Seq<u8> {
    match taken {
        Some(datagram) => before + datagram,
        None => before,
    }
}

/// The datagram that the system handed over in a reply, if it did.
pub open spec fn taken(reply: Result<Vec<u8>, std::io::Error>) -> Option<Seq<u8>> {
    match reply {
        Ok(datagram) => Some(datagram@),
        Err(_) => None,
    }
}

/// The datagram that the system handed over in a reply that names the sender,
/// if it did.
pub open spec fn taken_from(reply: Result<(Vec<u8>, SockAddr), std::io::Error>) -> Option<
    Seq<u8>,
> {
    match reply {
        Ok((datagram, _)) => Some(datagram@),
        Err(_) => None,
    }
}

/// The result of a receive, from the system's reply.
pub open spec fn counted(reply: Result<Vec<u8>, std::io::Error>) -> Result<
    usize,
    std::io::Error,
> {
    match reply {
        Ok(datagram) => Ok(datagram@.len() as usize),
        Err(error) => Err(error),
    }
}

/// The result of a receive that names the sender, from the system's reply: the
/// length of the datagram and the endpoint of whoever sent that datagram.
pub open spec fn reported(reply: Result<(Vec<u8>, SockAddr), std::io::Error>) -> Result<
    (usize, Endpoint),
    SocketError,
> {
    match reply {
        Ok((datagram, source)) => received_from(datagram@.len() as usize, endpoint_of(source)),
        Err(error) => Err(SocketError::Io(error)),
    }
}

/// `op` was given the room that the buffer `before` answered. What it took, if
/// anything, was added, so that the buffer holds `after`, and `result` is the
/// number of bytes.
pub open spec fn received_into<B, Op>(
    before: B,
    op: Op,
    after: Seq<u8>,
    result: Result<usize, std::io::Error>,
) -> bool where B: ReceiveBuffer, Op: FnOnce(usize) -> Result<Vec<u8>, std::io::Error> {
    exists|room: usize, reply: Result<Vec<u8>, std::io::Error>|
        {
            &&& answers(before, room)
            &&& #[trigger] call_ensures(op, (room,), reply)
            &&& after == committed(before.bytes(), taken(reply))
            &&& result == counted(reply)
        }
}

/// The same of a receive that names the sender.
pub open spec fn received_from_into<B, Op>(
    before: B,
    op: Op,
    after: Seq<u8>,
    result: Result<(usize, Endpoint), SocketError>,
) -> bool where B: ReceiveBuffer, Op: FnOnce(usize) -> Result<(Vec<u8>, SockAddr), std::io::Error> {
    exists|room: usize, reply: Result<(Vec<u8>, SockAddr), std::io::Error>|
        {
            &&& answers(before, room)
            &&& #[trigger] call_ensures(op, (room,), reply)
            &&& after == committed(before.bytes(), taken_from(reply))
            &&& result == reported(reply)
        }
}

impl UdpSocket {
    /// Takes one datagram of at most `room` bytes from the system and adds it to
    /// the buffer, or does neither. `op` is the system's receive: it is given the
    /// room and returns what it wrote.
    pub fn receive_into<B, Op>(buf: &mut B, room: usize, op: Op) -> (result: Result<
        usize,
        std::io::Error,
    >) where B: ReceiveBuffer, Op: FnOnce(usize) -> Result<Vec<u8>, std::io::Error>
        requires
            old(buf).takes(room as nat),
            call_requires(op, (room,)),
            forall|datagram: Vec<u8>| #[trigger]
                call_ensures(op, (room,), Ok(datagram)) ==> datagram@.len() <= room,
        ensures
            exists|reply: Result<Vec<u8>, std::io::Error>|
                {
                    &&& #[trigger] call_ensures(op, (room,), reply)
                    &&& final(buf).bytes() == committed(old(buf).bytes(), taken(reply))
                    &&& result == counted(reply)
                },
    {
        let reply = op(room);
        let ghost received = reply;
        assert(call_ensures(op, (room,), received));
        match reply {
            Ok(datagram) => {
                buf.commit(datagram.as_slice());
                Ok(datagram.len())
            },
            Err(error) => Err(error),
        }
    }

    /// The same, and says who sent the datagram. A datagram whose sender has no
    /// internet address is added all the same, though the result is an error.
    pub fn receive_from_into<B, Op>(buf: &mut B, room: usize, op: Op) -> (result: Result<
        (usize, Endpoint),
        SocketError,
    >) where B: ReceiveBuffer, Op: FnOnce(usize) -> Result<(Vec<u8>, SockAddr), std::io::Error>
        requires
            old(buf).takes(room as nat),
            call_requires(op, (room,)),
            forall|datagram: Vec<u8>, source: SockAddr| #[trigger]
                call_ensures(op, (room,), Ok((datagram, source))) ==> datagram@.len() <= room,
        ensures
            exists|reply: Result<(Vec<u8>, SockAddr), std::io::Error>|
                {
                    &&& #[trigger] call_ensures(op, (room,), reply)
                    &&& final(buf).bytes() == committed(old(buf).bytes(), taken_from(reply))
                    &&& result == reported(reply)
                },
    {
        let reply = op(room);
        let ghost received = reply;
        assert(call_ensures(op, (room,), received));
        match reply {
            Ok((datagram, source)) => {
                buf.commit(datagram.as_slice());
                match require_endpoint(endpoint(&source), AddressError::Source) {
                    Ok(source) => Ok((datagram.len(), source)),
                    Err(error) => Err(error),
                }
            },
            Err(error) => Err(SocketError::Io(error)),
        }
    }

    /// Takes one datagram from the system and adds it to the buffer, or does
    /// neither. `op` is given the room that the buffer itself answers.
    pub fn recv_buf<B, Op>(buf: &mut B, op: Op) -> (result: Result<usize, std::io::Error>) where
        B: ReceiveBuffer,
        Op: FnOnce(usize) -> Result<Vec<u8>, std::io::Error>,

        requires
            old(buf).bytes().len() + growth() <= B::limit(),
            forall|room: usize|
                answers(*old(buf), room) ==> #[trigger] call_requires(op, (room,)),
            forall|room: usize, datagram: Vec<u8>|
                answers(*old(buf), room) && #[trigger] call_ensures(
                    op,
                    (room,),
                    Ok(datagram),
                ) ==> datagram@.len() <= room,
        ensures
            received_into(*old(buf), op, final(buf).bytes(), result),
    {
        let room: usize = buf.room();
        Self::receive_into(buf, room, op)
    }

    /// The same, and says who sent the datagram.
    pub fn recv_buf_from<B, Op>(buf: &mut B, op: Op) -> (result: Result<
        (usize, Endpoint),
        SocketError,
    >) where B: ReceiveBuffer, Op: FnOnce(usize) -> Result<(Vec<u8>, SockAddr), std::io::Error>
        requires
            old(buf).bytes().len() + growth() <= B::limit(),
            forall|room: usize|
                answers(*old(buf), room) ==> #[trigger] call_requires(op, (room,)),
            forall|room: usize, datagram: Vec<u8>, source: SockAddr|
                answers(*old(buf), room) && #[trigger] call_ensures(
                    op,
                    (room,),
                    Ok((datagram, source)),
                ) ==> datagram@.len() <= room,
        ensures
            received_from_into(*old(buf), op, final(buf).bytes(), result),
    {
        let room: usize = buf.room();
        Self::receive_from_into(buf, room, op)
    }
}

/// What the system hands over of a datagram when it is given this much room.
pub open spec fn cut(datagram: Seq<u8>, room: usize) -> Seq<u8> {
    if datagram.len() <= room {
        datagram
    } else {
        datagram.take(room as int)
    }
}

/// A receive adds the datagram to what the buffer holds, cut only at the room
/// that the buffer itself answers, and returns the shorter of the two lengths.
/// If it fails, the buffer is left alone. So a datagram comes out whole if the
/// buffer has room for it.
pub proof fn law_a_datagram_is_cut_only_at_the_room<B, Op>(
    before: B,
    op: Op,
    after: Seq<u8>,
    result: Result<usize, std::io::Error>,
    datagram: Seq<u8>,
) where B: ReceiveBuffer, Op: FnOnce(usize) -> Result<Vec<u8>, std::io::Error>
    requires
        received_into(before, op, after, result),
        forall|room: usize, reply: Vec<u8>| #[trigger]
            call_ensures(op, (room,), Ok(reply)) ==> reply@ == cut(datagram, room),
    ensures
        result is Err ==> after == before.bytes(),
        result matches Ok(n) ==> {
            &&& after == before.bytes() + datagram.take(n as int)
            &&& exists|room: usize| #[trigger]
                answers(before, room) && n == (if datagram.len() <= room {
                    datagram.len() as int
                } else {
                    room as int
                })
        },
        (result matches Ok(n) && forall|room: usize| #[trigger]
            answers(before, room) ==> datagram.len() <= room) ==> after == before.bytes()
            + datagram && result == Ok::<usize, std::io::Error>(datagram.len() as usize),
{
    let (room, reply) = choose|room: usize, reply: Result<Vec<u8>, std::io::Error>|
        {
            &&& answers(before, room)
            &&& #[trigger] call_ensures(op, (room,), reply)
            &&& after == committed(before.bytes(), taken(reply))
            &&& result == counted(reply)
        };
    if let Ok(bytes) = reply {
        assert(bytes@ == cut(datagram, room));
        assert(bytes@ == datagram.take(bytes@.len() as int));
    }
}

/// The same of a receive that names the sender. A datagram whose sender has no
/// internet address is added too.
pub proof fn law_a_datagram_with_a_sender_is_cut_only_at_the_room<B, Op>(
    before: B,
    op: Op,
    after: Seq<u8>,
    result: Result<(usize, Endpoint), SocketError>,
    datagram: Seq<u8>,
    sender: SockAddr,
) where B: ReceiveBuffer, Op: FnOnce(usize) -> Result<(Vec<u8>, SockAddr), std::io::Error>
    requires
        received_from_into(before, op, after, result),
        forall|room: usize, reply: Vec<u8>, source: SockAddr| #[trigger]
            call_ensures(op, (room,), Ok((reply, source))) ==> reply@ == cut(datagram, room)
                && source == sender,
    ensures
        match result {
            Err(SocketError::Io(_)) => after == before.bytes(),
            _ => exists|room: usize| #[trigger]
                answers(before, room) && after == before.bytes() + cut(datagram, room) && result
                    == received_from(cut(datagram, room).len() as usize, endpoint_of(sender)),
        },
{
    let (room, reply) = choose|
        room: usize,
        reply: Result<(Vec<u8>, SockAddr), std::io::Error>,
    |
        {
            &&& answers(before, room)
            &&& #[trigger] call_ensures(op, (room,), reply)
            &&& after == committed(before.bytes(), taken_from(reply))
            &&& result == reported(reply)
        };
    if let Ok((bytes, source)) = reply {
        assert(call_ensures(op, (room,), Ok((bytes, source))));
    }
}

/// A datagram that fits in the space of a `BytesMut` comes out whole, whatever the
/// buffer holds already: its bytes come after those, and its length is the result.
/// If the receive fails, it is with the system's error, and the buffer is left
/// alone.
pub proof fn law_a_datagram_that_fits_a_bytes_mut_comes_out_whole<Op>(
    buf: &mut BytesMut,
    op: Op,
    datagram: Seq<u8>,
    result: Result<usize, std::io::Error>,
) where Op: FnOnce(usize) -> Result<Vec<u8>, std::io::Error>
    requires
        call_ensures(UdpSocket::recv_buf::<BytesMut, Op>, (buf, op), result),
        forall|room: usize, reply: Vec<u8>| #[trigger]
            call_ensures(op, (room,), Ok(reply)) ==> reply@ == datagram.take(
                if datagram.len() <= room {
                    datagram.len() as int
                } else {
                    room as int
                },
            ),
    ensures
        result matches Ok(n) ==> held(*final(buf)) == held(*old(buf)) + datagram.take(n as int) && n
            <= datagram.len() && (bytes_mut_spares(*old(buf), datagram.len()) ==> n
            == datagram.len()),
        result matches Err(error) ==> held(*final(buf)) == held(*old(buf)) && exists|
            room: usize,
        | #[trigger]
            call_ensures(op, (room,), Err::<Vec<u8>, std::io::Error>(error)),
{
    let (room, reply) = choose|room: usize, reply: Result<Vec<u8>, std::io::Error>|
        {
            &&& answers(*buf, room)
            &&& #[trigger] call_ensures(op, (room,), reply)
            &&& held(*final(buf)) == committed(held(*buf), taken(reply))
            &&& result == counted(reply)
        };
    let asked = choose|asked: &mut BytesMut|
        *asked == *buf && #[trigger] call_ensures(
            <BytesMut as ReceiveBuffer>::room,
            (asked,),
            room,
        );
    law_a_bytes_mut_holds_no_room_back(asked, room, datagram.len());
    if let Ok(bytes) = reply {
        assert(call_ensures(op, (room,), Ok(bytes)));
    }
    if let Err(error) = result {
        assert(reply == Err::<Vec<u8>, std::io::Error>(error));
    }
}

/// The same of a receive that names the sender: a datagram that fits comes out
/// whole, and with the address of whoever sent it, of either family. One whose
/// sender has no internet address comes out too, though the result is an error.
pub proof fn law_a_datagram_with_a_sender_that_fits_a_bytes_mut_comes_out_whole<Op>(
    buf: &mut BytesMut,
    op: Op,
    datagram: Seq<u8>,
    sender: SockAddr,
    result: Result<(usize, Endpoint), SocketError>,
) where Op: FnOnce(usize) -> Result<(Vec<u8>, SockAddr), std::io::Error>
    requires
        call_ensures(UdpSocket::recv_buf_from::<BytesMut, Op>, (buf, op), result),
        forall|room: usize, reply: Vec<u8>, source: SockAddr| #[trigger]
            call_ensures(op, (room,), Ok((reply, source))) ==> source == sender && reply@
                == datagram.take(
                if datagram.len() <= room {
                    datagram.len() as int
                } else {
                    room as int
                },
            ),
    ensures
        result matches Ok((n, from)) ==> {
            &&& held(*final(buf)) == held(*old(buf)) + datagram.take(n as int)
            &&& n <= datagram.len()
            &&& bytes_mut_spares(*old(buf), datagram.len()) ==> n == datagram.len()
            &&& match from {
                Endpoint::V4 { ip4, port } => ipv4_of(sender) == Some((ip4, port)),
                Endpoint::V6 { ip6, port, flowinfo, scope_id } => ipv4_of(sender) is None
                    && ipv6_of(sender) == Some((ip6, port, flowinfo, scope_id)),
            }
        },
        result matches Err(SocketError::Io(error)) ==> held(*final(buf)) == held(*old(buf))
            && exists|room: usize| #[trigger]
            call_ensures(op, (room,), Err::<(Vec<u8>, SockAddr), std::io::Error>(error)),
        result matches Err(SocketError::Address(whose)) ==> {
            &&& whose == AddressError::Source
            &&& ipv4_of(sender) is None && ipv6_of(sender) is None
            &&& bytes_mut_spares(*old(buf), datagram.len()) ==> held(*final(buf))
                == held(*old(buf)) + datagram
        },
{
    let (room, reply) = choose|
        room: usize,
        reply: Result<(Vec<u8>, SockAddr), std::io::Error>,
    |
        {
            &&& answers(*buf, room)
            &&& #[trigger] call_ensures(op, (room,), reply)
            &&& held(*final(buf)) == committed(held(*buf), taken_from(reply))
            &&& result == reported(reply)
        };
    let asked = choose|asked: &mut BytesMut|
        *asked == *buf && #[trigger] call_ensures(
            <BytesMut as ReceiveBuffer>::room,
            (asked,),
            room,
        );
    law_a_bytes_mut_holds_no_room_back(asked, room, datagram.len());
    assert(datagram.take(datagram.len() as int) == datagram);
    if let Ok((bytes, source)) = reply {
        assert(call_ensures(op, (room,), Ok((bytes, source))));
    }
    if let Err(SocketError::Io(error)) = result {
        assert(reply == Err::<(Vec<u8>, SockAddr), std::io::Error>(error));
    }
}

/// A datagram that fits in the space of a `Vec` comes out whole, whatever the
/// buffer holds already: its bytes come after those, and its length is the result.
/// If the receive fails, it is with the system's error, and the buffer is left
/// alone.
pub proof fn law_a_datagram_that_fits_a_vec_comes_out_whole<Op>(
    buf: &mut Vec<u8>,
    op: Op,
    datagram: Seq<u8>,
    result: Result<usize, std::io::Error>,
) where Op: FnOnce(usize) -> Result<Vec<u8>, std::io::Error>
    requires
        call_ensures(UdpSocket::recv_buf::<Vec<u8>, Op>, (buf, op), result),
        forall|room: usize, reply: Vec<u8>| #[trigger]
            call_ensures(op, (room,), Ok(reply)) ==> reply@ == datagram.take(
                if datagram.len() <= room {
                    datagram.len() as int
                } else {
                    room as int
                },
            ),
    ensures
        result matches Ok(n) ==> final(buf)@ == old(buf)@ + datagram.take(n as int) && n
            <= datagram.len() && (vec_spares(*old(buf), datagram.len()) ==> n
            == datagram.len()),
        result matches Err(error) ==> final(buf)@ == old(buf)@ && exists|
            room: usize,
        | #[trigger]
            call_ensures(op, (room,), Err::<Vec<u8>, std::io::Error>(error)),
{
    let (room, reply) = choose|room: usize, reply: Result<Vec<u8>, std::io::Error>|
        {
            &&& answers(*buf, room)
            &&& #[trigger] call_ensures(op, (room,), reply)
            &&& final(buf)@ == committed(buf@, taken(reply))
            &&& result == counted(reply)
        };
    let asked = choose|asked: &mut Vec<u8>|
        *asked == *buf && #[trigger] call_ensures(<Vec<u8> as ReceiveBuffer>::room, (asked,), room);
    law_a_vec_holds_no_room_back(asked, room, datagram.len());
    if let Ok(bytes) = reply {
        assert(call_ensures(op, (room,), Ok(bytes)));
    }
    if let Err(error) = result {
        assert(reply == Err::<Vec<u8>, std::io::Error>(error));
    }
}

/// The same of a receive that names the sender: a datagram that fits comes out
/// whole, and with the address of whoever sent it, of either family. One whose
/// sender has no internet address comes out too, though the result is an error.
pub proof fn law_a_datagram_with_a_sender_that_fits_a_vec_comes_out_whole<Op>(
    buf: &mut Vec<u8>,
    op: Op,
    datagram: Seq<u8>,
    sender: SockAddr,
    result: Result<(usize, Endpoint), SocketError>,
) where Op: FnOnce(usize) -> Result<(Vec<u8>, SockAddr), std::io::Error>
    requires
        call_ensures(UdpSocket::recv_buf_from::<Vec<u8>, Op>, (buf, op), result),
        forall|room: usize, reply: Vec<u8>, source: SockAddr| #[trigger]
            call_ensures(op, (room,), Ok((reply, source))) ==> source == sender && reply@
                == datagram.take(
                if datagram.len() <= room {
                    datagram.len() as int
                } else {
                    room as int
                },
            ),
    ensures
        result matches Ok((n, from)) ==> {
            &&& final(buf)@ == old(buf)@ + datagram.take(n as int)
            &&& n <= datagram.len()
            &&& vec_spares(*old(buf), datagram.len()) ==> n == datagram.len()
            &&& match from {
                Endpoint::V4 { ip4, port } => ipv4_of(sender) == Some((ip4, port)),
                Endpoint::V6 { ip6, port, flowinfo, scope_id } => ipv4_of(sender) is None
                    && ipv6_of(sender) == Some((ip6, port, flowinfo, scope_id)),
            }
        },
        result matches Err(SocketError::Io(error)) ==> final(buf)@ == old(buf)@ && exists|
            room: usize,
        | #[trigger]
            call_ensures(op, (room,), Err::<(Vec<u8>, SockAddr), std::io::Error>(error)),
        result matches Err(SocketError::Address(whose)) ==> {
            &&& whose == AddressError::Source
            &&& ipv4_of(sender) is None && ipv6_of(sender) is None
            &&& vec_spares(*old(buf), datagram.len()) ==> final(buf)@ == old(buf)@ + datagram
        },
{
    let (room, reply) = choose|
        room: usize,
        reply: Result<(Vec<u8>, SockAddr), std::io::Error>,
    |
        {
            &&& answers(*buf, room)
            &&& #[trigger] call_ensures(op, (room,), reply)
            &&& final(buf)@ == committed(buf@, taken_from(reply))
            &&& result == reported(reply)
        };
    let asked = choose|asked: &mut Vec<u8>|
        *asked == *buf && #[trigger] call_ensures(<Vec<u8> as ReceiveBuffer>::room, (asked,), room);
    law_a_vec_holds_no_room_back(asked, room, datagram.len());
    assert(datagram.take(datagram.len() as int) == datagram);
    if let Ok((bytes, source)) = reply {
        assert(call_ensures(op, (room,), Ok((bytes, source))));
    }
    if let Err(SocketError::Io(error)) = result {
        assert(reply == Err::<(Vec<u8>, SockAddr), std::io::Error>(error));
    }
}

/// What a buffer holds after several receives, one after the other.
pub open spec fn committed_all(before: Seq<u8>, replies: Seq<Option<Seq<u8>>>) -> Seq<u8>
    decreases replies.len(),
{
    if replies.len() == 0 {
        before
    } else {
        committed(committed_all(before, replies.drop_last()), replies.last())
    }
}

/// The datagrams that the system handed over in several receives, in order.
pub open spec fn datagrams(replies: Seq<Option<Seq<u8>>>) -> Seq<Seq<u8>>
    decreases replies.len(),
{
    if replies.len() == 0 {
        Seq::empty()
    } else {
        match replies.last() {
            Some(datagram) => datagrams(replies.drop_last()).push(datagram),
            None => datagrams(replies.drop_last()),
        }
    }
}

/// Every datagram that the system hands over is added to the buffer once,
/// whole and in order, and a receive that gets none leaves no trace: nothing
/// is lost or repeated, however many receives fail in between.
pub proof fn law_every_datagram_is_committed_once(
    before: Seq<u8>,
    replies: Seq<Option<Seq<u8>>>,
)
    ensures
        committed_all(before, replies) == before + datagrams(replies).flatten(),
    decreases replies.len(),
{
    if replies.len() > 0 {
        law_every_datagram_is_committed_once(before, replies.drop_last());
        if let Some(datagram) = replies.last() {
            datagrams(replies.drop_last()).lemma_flatten_push(datagram);
        }
    }
}

/// The datagrams taken in several replies, or `None` for each that has none.
pub open spec fn all_taken(replies: Seq<Result<Vec<u8>, std::io::Error>>) -> Seq<
    Option<Seq<u8>>,
> {
    Seq::new(replies.len(), |i: int| taken(replies[i]))
}

/// The datagrams taken in several replies that name the sender, or `None` for
/// each that has none.
pub open spec fn all_taken_from(
    replies: Seq<Result<(Vec<u8>, SockAddr), std::io::Error>>,
) -> Seq<Option<Seq<u8>>> {
    Seq::new(replies.len(), |i: int| taken_from(replies[i]))
}

/// These receives took `last` from the system, or nothing, and the buffer holds
/// what they took.
pub open spec fn took_only(
    before: Seq<u8>,
    replies: Seq<Option<Seq<u8>>>,
    last: Option<Seq<u8>>,
) -> bool {
    &&& datagrams(replies) == (match last {
        Some(datagram) => seq![datagram],
        None => Seq::empty(),
    })
    &&& committed_all(before, replies) == committed(before, last)
}

proof fn lemma_nothing_taken(before: Seq<u8>, replies: Seq<Option<Seq<u8>>>)
    requires
        forall|i: int| 0 <= i < replies.len() ==> #[trigger] replies[i] is None,
    ensures
        took_only(before, replies, None),
    decreases replies.len(),
{
    if replies.len() > 0 {
        lemma_nothing_taken(before, replies.drop_last());
        assert(replies[replies.len() - 1] is None);
    }
}

proof fn lemma_taken_last(before: Seq<u8>, replies: Seq<Option<Seq<u8>>>)
    requires
        replies.len() > 0,
        forall|i: int| 0 <= i < replies.len() - 1 ==> #[trigger] replies[i] is None,
    ensures
        took_only(before, replies, replies.last()),
{
    lemma_nothing_taken(before, replies.drop_last());
}

/// A receive that is dropped while it waits has taken nothing from the system
/// and added nothing to the buffer, however often it was woken: all it got was
/// told that it would block.
pub proof fn law_a_dropped_receive_took_nothing(
    before: Seq<u8>,
    replies: Seq<Result<Vec<u8>, std::io::Error>>,
)
    requires
        forall|i: int| 0 <= i < replies.len() ==> would_block(#[trigger] replies[i]),
    ensures
        took_only(before, all_taken(replies), None),
{
    assert forall|i: int| 0 <= i < replies.len() implies #[trigger] all_taken(
        replies,
    )[i] is None by {
        assert(would_block(replies[i]));
    }
    lemma_nothing_taken(before, all_taken(replies));
}

/// The same of a receive that names the sender.
pub proof fn law_a_dropped_receive_from_took_nothing(
    before: Seq<u8>,
    replies: Seq<Result<(Vec<u8>, SockAddr), std::io::Error>>,
)
    requires
        forall|i: int| 0 <= i < replies.len() ==> would_block(#[trigger] replies[i]),
    ensures
        took_only(before, all_taken_from(replies), None),
{
    assert forall|i: int| 0 <= i < replies.len() implies #[trigger] all_taken_from(
        replies,
    )[i] is None by {
        assert(would_block(replies[i]));
    }
    lemma_nothing_taken(before, all_taken_from(replies));
}

/// A receive that returns has taken at most one datagram, in its last reply,
/// and that datagram is in the buffer.
pub proof fn law_a_finished_receive_commits_what_it_took(
    before: Seq<u8>,
    replies: Seq<Result<Vec<u8>, std::io::Error>>,
)
    requires
        replies.len() > 0,
        forall|i: int| 0 <= i < replies.len() - 1 ==> would_block(#[trigger] replies[i]),
    ensures
        took_only(before, all_taken(replies), taken(replies.last())),
{
    assert forall|i: int| 0 <= i < replies.len() - 1 implies #[trigger] all_taken(
        replies,
    )[i] is None by {
        assert(would_block(replies[i]));
    }
    lemma_taken_last(before, all_taken(replies));
}

/// The same of a receive that names the sender: what it names is the sender of
/// the datagram that it took.
pub proof fn law_a_finished_receive_from_commits_what_it_took(
    before: Seq<u8>,
    replies: Seq<Result<(Vec<u8>, SockAddr), std::io::Error>>,
)
    requires
        replies.len() > 0,
        forall|i: int| 0 <= i < replies.len() - 1 ==> would_block(#[trigger] replies[i]),
    ensures
        took_only(before, all_taken_from(replies), taken_from(replies.last())),
        replies.last() matches Ok((datagram, source)) ==> reported(replies.last())
            == received_from(datagram@.len() as usize, endpoint_of(source)),
{
    assert forall|i: int| 0 <= i < replies.len() - 1 implies #[trigger] all_taken_from(
        replies,
    )[i] is None by {
        assert(would_block(replies[i]));
    }
    lemma_taken_last(before, all_taken_from(replies));
}

} // verus!
