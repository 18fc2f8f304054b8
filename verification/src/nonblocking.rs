//! Operations that are tried once and never wait.
use vstd::prelude::*;

use tokio::io::Interest;

use crate::error::class_of;
use crate::interest::{conditions, send_interest, try_recv_interest, Condition};
use crate::platform::UdpSocket;

verus! {

/// What came of offering an operation to the runtime, which runs it only when
/// it has a readiness event cached for the socket.
pub enum Attempt<Op, T> {
    /// The operation ran, and this is the runtime's account of its result.
    Ran(Result<T, std::io::Error>),
    /// Nothing was cached, and the operation comes back unused.
    Skipped(Op),
}

/// `result` is what comes of offering an operation to the runtime and, if it
/// comes back unused, running it on the socket.
pub open spec fn offered<S, T, Op, TryIo>(
    interest: Interest,
    socket: &S,
    try_io: TryIo,
    op: Op,
    result: Result<T, std::io::Error>,
) -> bool where
    Op: FnOnce(&S) -> Result<T, std::io::Error>,
    TryIo: FnOnce(Interest, Op) -> Attempt<Op, T>,
 {
    exists|attempt: Attempt<Op, T>| #[trigger]
        call_ensures(try_io, (interest, op), attempt) && concluded(socket, attempt, result)
}

/// `result` is the runtime's account of an operation that it ran, or the
/// socket's own answer to one that it did not run.
pub open spec fn concluded<S, T, Op: FnOnce(&S) -> Result<T, std::io::Error>>(
    socket: &S,
    attempt: Attempt<Op, T>,
    result: Result<T, std::io::Error>,
) -> bool {
    match attempt {
        Attempt::Ran(told) => result == told,
        Attempt::Skipped(op) => call_ensures(op, (socket,), result),
    }
}

impl UdpSocket {
    /// Runs one operation that does not block.
    ///
    /// The operation is offered to the runtime first, so that a would-block
    /// drops the very readiness event that the operation started from. Where
    /// nothing is cached the runtime does not run it, and it runs here instead:
    /// an operation on a socket whose readiness was never observed still
    /// reaches the system, and there is no event to drop. Either way it runs
    /// once, and its result is the caller's.
    pub fn nonblocking<S, T, Op, TryIo>(
        interest: Interest,
        socket: &S,
        try_io: TryIo,
        op: Op,
    ) -> (result: Result<T, std::io::Error>) where
        Op: FnOnce(&S) -> Result<T, std::io::Error>,
        TryIo: FnOnce(Interest, Op) -> Attempt<Op, T>,

        requires
            call_requires(try_io, (interest, op)),
            forall|back: Op| #[trigger]
                call_ensures(try_io, (interest, op), Attempt::Skipped(back)) ==> call_requires(
                    back,
                    (socket,),
                ),
        ensures
            offered(interest, socket, try_io, op, result),
    {
        let attempt = try_io(interest, op);
        assert(call_ensures(try_io, (interest, op), attempt));
        match attempt {
            Attempt::Ran(told) => told,
            Attempt::Skipped(op) => op(socket),
        }
    }

    /// Runs one send that does not block. The runtime is asked for writability.
    pub fn try_send<S, T, Op, TryIo>(socket: &S, try_io: TryIo, op: Op) -> (result: Result<
        T,
        std::io::Error,
    >) where
        Op: FnOnce(&S) -> Result<T, std::io::Error>,
        TryIo: FnOnce(Interest, Op) -> Attempt<Op, T>,

        requires
            forall|interest: Interest| #[trigger]
                conditions(interest) == set![Condition::Writable] ==> call_requires(
                    try_io,
                    (interest, op),
                ),
            forall|interest: Interest, back: Op| #[trigger]
                call_ensures(try_io, (interest, op), Attempt::Skipped(back)) ==> call_requires(
                    back,
                    (socket,),
                ),
        ensures
            exists|interest: Interest|
                conditions(interest) == set![Condition::Writable] && #[trigger] offered(
                    interest,
                    socket,
                    try_io,
                    op,
                    result,
                ),
    {
        Self::nonblocking(send_interest(), socket, try_io, op)
    }

    /// Runs one receive that does not block. The runtime is asked for readability.
    pub fn try_recv<S, T, Op, TryIo>(socket: &S, try_io: TryIo, op: Op) -> (result: Result<
        T,
        std::io::Error,
    >) where
        Op: FnOnce(&S) -> Result<T, std::io::Error>,
        TryIo: FnOnce(Interest, Op) -> Attempt<Op, T>,

        requires
            forall|interest: Interest| #[trigger]
                conditions(interest) == set![Condition::Readable] ==> call_requires(
                    try_io,
                    (interest, op),
                ),
            forall|interest: Interest, back: Op| #[trigger]
                call_ensures(try_io, (interest, op), Attempt::Skipped(back)) ==> call_requires(
                    back,
                    (socket,),
                ),
        ensures
            exists|interest: Interest|
                conditions(interest) == set![Condition::Readable] && #[trigger] offered(
                    interest,
                    socket,
                    try_io,
                    op,
                    result,
                ),
    {
        Self::nonblocking(try_recv_interest(), socket, try_io, op)
    }
}

/// `told` is a faithful account of `own`, the result of an operation: it is
/// the same, or both are would-block errors.
pub open spec fn account_of<T>(
    own: Result<T, std::io::Error>,
    told: Result<T, std::io::Error>,
) -> bool {
    told == own || would_block(own) && would_block(told)
}

/// The operation could not make progress without blocking.
pub open spec fn would_block<T>(result: Result<T, std::io::Error>) -> bool {
    result matches Err(error) && class_of(error) is WouldBlock
}

/// The operation ran on the socket, and `told` is what it came to.
pub open spec fn reached<S, T, Op: FnOnce(&S) -> Result<T, std::io::Error>>(
    socket: &S,
    op: Op,
    told: Result<T, std::io::Error>,
) -> bool {
    exists|own: Result<T, std::io::Error>| #[trigger]
        call_ensures(op, (socket,), own) && account_of(own, told)
}

/// How a runtime treats an operation that it is offered: it runs it on the
/// socket and accounts for its result, or it gives it back.
pub open spec fn honest<S, T, Op: FnOnce(&S) -> Result<T, std::io::Error>>(
    socket: &S,
    op: Op,
    attempt: Attempt<Op, T>,
) -> bool {
    match attempt {
        Attempt::Ran(told) => reached(socket, op, told),
        Attempt::Skipped(back) => back == op,
    }
}

/// With a runtime that treats operations honestly, an operation that does not
/// block reaches the system whatever the runtime has cached, and its caller
/// gets its result.
pub proof fn law_the_operation_reaches_the_system<S, T, Op, TryIo>(
    interest: Interest,
    socket: &S,
    try_io: TryIo,
    op: Op,
    result: Result<T, std::io::Error>,
) where
    Op: FnOnce(&S) -> Result<T, std::io::Error>,
    TryIo: FnOnce(Interest, Op) -> Attempt<Op, T>,

    requires
        offered(interest, socket, try_io, op, result),
        forall|attempt: Attempt<Op, T>| #[trigger]
            call_ensures(try_io, (interest, op), attempt) ==> honest(socket, op, attempt),
    ensures
        reached(socket, op, result),
{
}

/// The readiness that a runtime has cached for a socket: the conditions that it
/// believes to hold, and the number of the newest event that told it so. Each
/// event that it publishes has a number of its own.
pub struct Cache {
    pub newest: nat,
    pub ready: Set<Condition>,
}

/// How a runtime keeps its cache while it is offered an operation. `armed` is
/// the cache when the operation was offered, `current` what it would be at the
/// end if nothing were dropped, and `left` what it is.
///
/// The operation runs only if a condition that the interest asks for is cached.
/// If it would block, the conditions that it started from are dropped, unless an
/// event was published in the meantime. The interest is in one condition, as that
/// of each operation here is: tokio runs no operation for an interest in several.
///
/// Left out are the closed states of a socket. Tokio caches them beside these
/// conditions, lets an operation run on them and never drops them, so this holds
/// of a socket of which neither direction was shut down.
pub open spec fn keeps_cache<Op, T>(
    interest: Interest,
    armed: Cache,
    current: Cache,
    attempt: Attempt<Op, T>,
    left: Cache,
) -> bool {
    let started_from = armed.ready.intersect(conditions(interest));
    match attempt {
        Attempt::Skipped(_) => started_from == Set::<Condition>::empty() && left == current,
        Attempt::Ran(told) => {
            &&& started_from != Set::<Condition>::empty()
            &&& left == (if would_block(told) && current.newest == armed.newest {
                Cache { newest: current.newest, ready: current.ready.difference(started_from) }
            } else {
                current
            })
        },
    }
}

/// An operation that is offered to a runtime leaves the cache in step with the
/// system.
/// - If nothing is published while it runs and its caller is told that it would
///   block, every condition that its interest asks for is gone, so that a later
///   wait parks, and every other condition is as before.
/// - An event published while it ran stays, whatever the caller is told, so that
///   whoever it woke still finds it.
/// - If it did not block, nothing is dropped.
pub proof fn law_the_cache_stays_in_step<S, T, Op>(
    socket: &S,
    interest: Interest,
    armed: Cache,
    current: Cache,
    attempt: Attempt<Op, T>,
    left: Cache,
    result: Result<T, std::io::Error>,
) where Op: FnOnce(&S) -> Result<T, std::io::Error>
    requires
        concluded(socket, attempt, result),
        keeps_cache(interest, armed, current, attempt, left),
    ensures
        would_block(result) && current == armed ==> left.ready == armed.ready.difference(
            conditions(interest),
        ),
        current.newest != armed.newest ==> left == current,
        !would_block(result) ==> left == current,
        armed.ready.disjoint(conditions(interest)) ==> left == current,
{
    let started_from = armed.ready.intersect(conditions(interest));
    assert(armed.ready.difference(started_from) == armed.ready.difference(conditions(interest)));
    if armed.ready.disjoint(conditions(interest)) {
        assert(started_from == Set::<Condition>::empty());
    }
    if started_from == Set::<Condition>::empty() {
        assert(armed.ready.difference(started_from) == armed.ready);
    }
}

/// A send that would block leaves a cached readability alone, and a receive a
/// cached writability.
pub proof fn law_other_conditions_stay_cached<Op, T>(
    interest: Interest,
    armed: Cache,
    current: Cache,
    attempt: Attempt<Op, T>,
    left: Cache,
    condition: Condition,
)
    requires
        keeps_cache(interest, armed, current, attempt, left),
        !conditions(interest).contains(condition),
    ensures
        left.ready.contains(condition) == current.ready.contains(condition),
{
}

} // verus!
