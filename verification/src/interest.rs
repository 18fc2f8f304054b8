//! Which readiness conditions each operation of a socket asks the runtime for.
use vstd::prelude::*;

use tokio::io::Interest;

verus! {

/// `tokio::io::Interest`, a set of readiness conditions.
#[verifier::external_type_specification]
#[verifier::external_body]
pub struct ExInterest(Interest);

/// A readiness condition of a socket.
#[derive(Clone, Copy, Debug, PartialEq, Eq, Structural)]
pub enum Condition {
    /// A datagram can be received.
    Readable,
    /// A datagram can be sent.
    Writable,
    /// An error is pending on the socket.
    Error,
}

/// The conditions that an interest asks for.
pub uninterp spec fn conditions(interest: Interest) -> Set<Condition>;

/// `Interest::READABLE`. Claimed: it asks for readability and for nothing else
/// that [`Condition`] knows.
#[verifier::external_body]
fn readable() -> (interest: Interest)
    ensures
        conditions(interest) == set![Condition::Readable],
{
    Interest::READABLE
}

/// `Interest::WRITABLE`. Claimed: it asks for writability and for nothing else
/// that [`Condition`] knows.
#[verifier::external_body]
fn writable() -> (interest: Interest)
    ensures
        conditions(interest) == set![Condition::Writable],
{
    Interest::WRITABLE
}

/// `Interest::ERROR`. Claimed: it asks for errors and for nothing else that
/// [`Condition`] knows.
#[verifier::external_body]
fn error() -> (interest: Interest)
    ensures
        conditions(interest) == set![Condition::Error],
{
    Interest::ERROR
}

/// Calls `Interest::add`. Claimed: the sum asks for what either side asks for.
#[verifier::external_body]
fn both(left: Interest, right: Interest) -> (interest: Interest)
    ensures
        conditions(interest) == conditions(left).union(conditions(right)),
{
    left.add(right)
}

/// What a receive that waits asks for. An error counts as well as a datagram:
/// where the system reports a pending socket error as an event of its own, a
/// receive that asked for readability alone would never wake up to return it.
pub fn recv_interest() -> (interest: Interest)
    ensures
        conditions(interest) == set![Condition::Readable, Condition::Error],
{
    let interest = both(readable(), error());
    assert(conditions(interest) =~= set![Condition::Readable, Condition::Error]);
    interest
}

/// What a send asks for, whether it waits or not.
pub fn send_interest() -> (interest: Interest)
    ensures
        conditions(interest) == set![Condition::Writable],
{
    writable()
}

/// What a receive that does not wait asks for. It runs one kind of operation,
/// so it names one condition.
pub fn try_recv_interest() -> (interest: Interest)
    ensures
        conditions(interest) == set![Condition::Readable],
{
    readable()
}

} // verus!
