//! What becomes of datagrams over time, whoever asks for them.
//!
//! A history is the order in which datagrams arrive at a socket and the system
//! answers those who receive on it. A receive that waits asks each time it is
//! woken, and one that is dropped asks no more: dropping it is no event.
//!
//! The laws speak of any history of a system that hands out what arrived, first
//! come first served, to receivers that offer room for it, and of a runtime that
//! announces each arrival and takes an announcement back when a receive finds
//! nothing. An arrival that is announced while a receive finds nothing comes
//! after it in the history.
use vstd::multiset::Multiset;
use vstd::prelude::*;

use socket2::SockAddr;

use crate::address::{endpoint_of, received_from};
use crate::nonblocking::would_block;
use crate::receive::{reported, taken_from};

verus! {

/// A datagram and its sender.
pub struct Datagram {
    pub bytes: Seq<u8>,
    pub source: SockAddr,
}

/// What the system answers to a receive.
pub enum Reply {
    /// This datagram, whole, which leaves the queue.
    Took(Datagram),
    /// There is none.
    Nothing,
    /// An error that has nothing to do with the queue.
    Failed,
}

/// The answer that a receive with the given result got.
pub open spec fn reply_of(result: Result<(Vec<u8>, SockAddr), std::io::Error>) -> Reply {
    match result {
        Ok((bytes, source)) => Reply::Took(Datagram { bytes: bytes@, source }),
        Err(_) => if would_block(result) {
            Reply::Nothing
        } else {
            Reply::Failed
        },
    }
}

/// Something that happens on a socket.
pub enum Event {
    /// A datagram arrives and is announced.
    Arrives(Datagram),
    /// A receiver asks, and the system answers.
    Asked { receiver: nat, reply: Reply },
}

/// A receiver asks, and its receive has the given result.
pub open spec fn asked(
    receiver: nat,
    result: Result<(Vec<u8>, SockAddr), std::io::Error>,
) -> Event {
    Event::Asked { receiver, reply: reply_of(result) }
}

/// A receiver asks again and again.
pub open spec fn asked_all(
    receiver: nat,
    results: Seq<Result<(Vec<u8>, SockAddr), std::io::Error>>,
) -> Seq<Event> {
    Seq::new(results.len(), |i: int| asked(receiver, results[i]))
}

/// The datagrams that arrived, in order.
pub open spec fn arrived(history: Seq<Event>) -> Seq<Datagram>
    decreases history.len(),
{
    if history.len() == 0 {
        Seq::empty()
    } else {
        let before = arrived(history.drop_last());
        match history.last() {
            Event::Arrives(datagram) => before.push(datagram),
            Event::Asked { .. } => before,
        }
    }
}

/// The datagrams that the system handed out, in order.
pub open spec fn handed_out(history: Seq<Event>) -> Seq<Datagram>
    decreases history.len(),
{
    if history.len() == 0 {
        Seq::empty()
    } else {
        let before = handed_out(history.drop_last());
        match history.last() {
            Event::Asked { reply: Reply::Took(datagram), .. } => before.push(datagram),
            _ => before,
        }
    }
}

/// The datagrams that the system handed to one receiver, in order.
pub open spec fn handed_to(history: Seq<Event>, receiver: nat) -> Seq<Datagram>
    decreases history.len(),
{
    if history.len() == 0 {
        Seq::empty()
    } else {
        let before = handed_to(history.drop_last(), receiver);
        match history.last() {
            Event::Asked { receiver: by, reply: Reply::Took(datagram) } => if by == receiver {
                before.push(datagram)
            } else {
                before
            },
            _ => before,
        }
    }
}

/// The datagrams that wait to be received, the next one first.
pub open spec fn waiting(history: Seq<Event>) -> Seq<Datagram>
    decreases history.len(),
{
    if history.len() == 0 {
        Seq::empty()
    } else {
        let before = waiting(history.drop_last());
        match history.last() {
            Event::Arrives(datagram) => before.push(datagram),
            Event::Asked { reply: Reply::Took(_), .. } => before.drop_first(),
            Event::Asked { .. } => before,
        }
    }
}

/// Whether the runtime says that the socket is readable.
pub open spec fn announced(history: Seq<Event>) -> bool
    decreases history.len(),
{
    history.len() > 0 && match history.last() {
        Event::Arrives(_) => true,
        Event::Asked { reply: Reply::Nothing, .. } => false,
        Event::Asked { .. } => announced(history.drop_last()),
    }
}

/// Each answer is true: the datagram is the one that waited longest, and there
/// is nothing only if none waits.
pub open spec fn truthful(history: Seq<Event>) -> bool
    decreases history.len(),
{
    history.len() == 0 || {
        let queue = waiting(history.drop_last());
        &&& truthful(history.drop_last())
        &&& match history.last() {
            Event::Asked { reply: Reply::Took(datagram), .. } => queue.len() > 0 && datagram
                == queue.first(),
            Event::Asked { reply: Reply::Nothing, .. } => queue.len() == 0,
            _ => true,
        }
    }
}

/// Nothing is lost, repeated or overtaken: what was handed out, followed by what
/// waits, is what arrived.
pub proof fn law_nothing_is_lost_or_repeated(history: Seq<Event>)
    requires
        truthful(history),
    ensures
        handed_out(history) + waiting(history) == arrived(history),
    decreases history.len(),
{
    if history.len() > 0 {
        law_nothing_is_lost_or_repeated(history.drop_last());
    }
}

/// Whenever a datagram waits, the socket is announced readable, whatever was
/// received, failed or was dropped before.
pub proof fn law_an_available_datagram_is_announced(history: Seq<Event>)
    requires
        truthful(history),
    ensures
        waiting(history).len() > 0 ==> announced(history),
    decreases history.len(),
{
    if history.len() > 0 {
        law_an_available_datagram_is_announced(history.drop_last());
    }
}

/// Once a receive has found nothing, the socket is no longer announced readable:
/// a wait parks until the next arrival.
pub proof fn law_a_drained_socket_is_not_announced(
    history: Seq<Event>,
    receiver: nat,
    result: Result<(Vec<u8>, SockAddr), std::io::Error>,
)
    requires
        truthful(history.push(asked(receiver, result))),
        would_block(result),
    ensures
        waiting(history.push(asked(receiver, result))).len() == 0,
        !announced(history.push(asked(receiver, result))),
{
    assert(history.push(asked(receiver, result)).drop_last() == history);
}

/// A receive makes progress if a datagram waits: it is not told that there is
/// nothing, and if it succeeds it gets the next datagram, whole, and names that
/// datagram's own sender.
pub proof fn law_a_receive_gets_the_next_datagram_and_its_sender(
    history: Seq<Event>,
    receiver: nat,
    result: Result<(Vec<u8>, SockAddr), std::io::Error>,
)
    requires
        truthful(history.push(asked(receiver, result))),
        waiting(history).len() > 0,
    ensures
        !would_block(result),
        result is Ok ==> {
            let next = waiting(history).first();
            &&& reply_of(result) == Reply::Took(next)
            &&& taken_from(result) == Some(next.bytes)
            &&& reported(result) == received_from(next.bytes.len() as usize, endpoint_of(
                next.source,
            ))
            &&& waiting(history.push(asked(receiver, result))) == waiting(history).drop_first()
        },
{
    assert(history.push(asked(receiver, result)).drop_last() == history);
}

/// A receive that finds no datagram waiting does not succeed.
pub proof fn law_an_empty_socket_hands_out_nothing(
    history: Seq<Event>,
    receiver: nat,
    result: Result<(Vec<u8>, SockAddr), std::io::Error>,
)
    requires
        truthful(history.push(asked(receiver, result))),
        waiting(history).len() == 0,
    ensures
        result is Err,
{
    assert(history.push(asked(receiver, result)).drop_last() == history);
}

proof fn lemma_asked_in_vain(
    history: Seq<Event>,
    receiver: nat,
    results: Seq<Result<(Vec<u8>, SockAddr), std::io::Error>>,
)
    requires
        truthful(history),
        waiting(history).len() == 0,
        forall|i: int| 0 <= i < results.len() ==> would_block(#[trigger] results[i]),
    ensures
        truthful(history + asked_all(receiver, results)),
        waiting(history + asked_all(receiver, results)) == Seq::<Datagram>::empty(),
        handed_out(history + asked_all(receiver, results)) == handed_out(history),
    decreases results.len(),
{
    let longer = history + asked_all(receiver, results);
    if results.len() > 0 {
        lemma_asked_in_vain(history, receiver, results.drop_last());
        assert(longer.drop_last() == history + asked_all(receiver, results.drop_last()));
        assert(would_block(results[results.len() - 1]));
        assert(longer.last() == asked(receiver, results[results.len() - 1]));
    } else {
        assert(longer == history);
    }
}

/// A receive waits on an empty socket and finds nothing each time it is woken.
/// Then a datagram arrives, and the receive is dropped. The drop took neither
/// the datagram nor its announcement: the datagram waits, the socket is announced
/// readable, the next receive that succeeds gets that datagram and names its
/// sender, and a receive after that gets none.
pub proof fn law_a_dropped_receive_leaves_the_late_datagram(
    history: Seq<Event>,
    dropped: nat,
    woken: Seq<Result<(Vec<u8>, SockAddr), std::io::Error>>,
    late: Datagram,
    receiver: nat,
    result: Result<(Vec<u8>, SockAddr), std::io::Error>,
    after: Result<(Vec<u8>, SockAddr), std::io::Error>,
)
    requires
        truthful(history),
        waiting(history).len() == 0,
        forall|i: int| 0 <= i < woken.len() ==> would_block(#[trigger] woken[i]),
    ensures
        ({
            let now = (history + asked_all(dropped, woken)).push(Event::Arrives(late));
            let next = now.push(asked(receiver, result));
            &&& truthful(now)
            &&& handed_out(now) == handed_out(history)
            &&& waiting(now) == seq![late]
            &&& announced(now)
            &&& truthful(next) && result is Ok ==> {
                &&& reply_of(result) == Reply::Took(late)
                &&& taken_from(result) == Some(late.bytes)
                &&& reported(result) == received_from(
                    late.bytes.len() as usize,
                    endpoint_of(late.source),
                )
                &&& truthful(next.push(asked(receiver, after))) ==> after is Err
            }
            &&& truthful(next) ==> !would_block(result)
        }),
{
    let parked = history + asked_all(dropped, woken);
    let now = parked.push(Event::Arrives(late));
    let next = now.push(asked(receiver, result));
    lemma_asked_in_vain(history, dropped, woken);
    assert(now.drop_last() == parked);
    assert(waiting(now) == seq![late]);
    assert(next.drop_last() == now);
    if truthful(next) {
        law_a_receive_gets_the_next_datagram_and_its_sender(now, receiver, result);
        if result is Ok && truthful(next.push(asked(receiver, after))) {
            law_an_empty_socket_hands_out_nothing(next, receiver, after);
        }
    }
}

/// What the first `n` receivers have received together.
pub open spec fn received_by(history: Seq<Event>, n: nat) -> Multiset<Datagram>
    decreases n,
{
    if n == 0 {
        Multiset::empty()
    } else {
        received_by(history, (n - 1) as nat).add(
            handed_to(history, (n - 1) as nat).to_multiset(),
        )
    }
}

/// All who ask are among the first `n` receivers.
pub open spec fn among(history: Seq<Event>, n: nat) -> bool {
    forall|i: int|
        0 <= i < history.len() ==> match #[trigger] history[i] {
            Event::Asked { receiver, .. } => receiver < n,
            Event::Arrives(_) => true,
        }
}

/// Any number of receivers may share a socket, in any order and however many of
/// their receives come to nothing: each datagram that is handed out goes to
/// exactly one of them, with its sender.
pub proof fn law_receivers_conserve_datagrams(history: Seq<Event>, n: nat)
    requires
        among(history, n),
    ensures
        received_by(history, n) == handed_out(history).to_multiset(),
    decreases history.len(),
{
    broadcast use vstd::seq_lib::group_to_multiset_ensures;

    if history.len() == 0 {
        lemma_nothing_received(history, n);
        assert(handed_out(history).to_multiset() =~= Multiset::<Datagram>::empty());
    } else {
        let before = history.drop_last();
        assert forall|i: int| 0 <= i < before.len() implies match #[trigger] before[i] {
            Event::Asked { receiver, .. } => receiver < n,
            Event::Arrives(_) => true,
        } by {
            assert(before[i] == history[i]);
        }
        law_receivers_conserve_datagrams(before, n);
        assert(history.last() == history[history.len() - 1]);
        lemma_one_more_event(history, n);
    }
}

/// Once the receivers have received as many datagrams as arrived, they have
/// received those that arrived, each of them once, and none waits: whoever asks
/// next gets nothing.
pub proof fn law_when_all_is_received_nothing_waits(
    history: Seq<Event>,
    n: nat,
    receiver: nat,
    result: Result<(Vec<u8>, SockAddr), std::io::Error>,
)
    requires
        truthful(history),
        among(history, n),
        received_by(history, n).len() == arrived(history).len(),
    ensures
        received_by(history, n) == arrived(history).to_multiset(),
        waiting(history).len() == 0,
        truthful(history.push(asked(receiver, result))) ==> result is Err,
{
    broadcast use vstd::seq_lib::group_to_multiset_ensures;

    law_receivers_conserve_datagrams(history, n);
    law_nothing_is_lost_or_repeated(history);
    assert(handed_out(history).to_multiset().len() == handed_out(history).len());
    assert(handed_out(history) == arrived(history));
    if truthful(history.push(asked(receiver, result))) {
        law_an_empty_socket_hands_out_nothing(history, receiver, result);
    }
}

proof fn lemma_nothing_received(history: Seq<Event>, n: nat)
    requires
        history.len() == 0,
    ensures
        received_by(history, n) == Multiset::<Datagram>::empty(),
    decreases n,
{
    broadcast use vstd::seq_lib::group_to_multiset_ensures;

    if n > 0 {
        lemma_nothing_received(history, (n - 1) as nat);
        assert(handed_to(history, (n - 1) as nat) == Seq::<Datagram>::empty());
        assert(received_by(history, n) =~= Multiset::<Datagram>::empty());
    }
}

proof fn lemma_one_more_event(history: Seq<Event>, n: nat)
    requires
        history.len() > 0,
    ensures
        received_by(history, n) == (match history.last() {
            Event::Asked { receiver, reply: Reply::Took(datagram) } if receiver < n => received_by(
                history.drop_last(),
                n,
            ).insert(datagram),
            _ => received_by(history.drop_last(), n),
        }),
    decreases n,
{
    broadcast use vstd::seq_lib::group_to_multiset_ensures;

    if n > 0 {
        lemma_one_more_event(history, (n - 1) as nat);
        assert(received_by(history, n) =~= (match history.last() {
            Event::Asked { receiver, reply: Reply::Took(datagram) } if receiver < n => received_by(
                history.drop_last(),
                n,
            ).insert(datagram),
            _ => received_by(history.drop_last(), n),
        }));
    }
}

} // verus!
