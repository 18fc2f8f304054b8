//! A send that is tried again on a schedule until it is over.
use vstd::prelude::*;

use socket2::MsgHdr;

use crate::backoff::{conclusion, step_for, Backoff, Step};
use crate::gather::{buffers, countable, message_buffers, message_target, target_of, Outgoing};
use crate::platform::UdpSocket;

verus! {

/// One send and how far its retries have come. The caller hands
/// [`message`](BoundedSend::message) to the system, reports the outcome to
/// [`step`](BoundedSend::step) and does what it says.
#[derive(Debug)]
pub struct BoundedSend<'a> {
    outgoing: Outgoing<'a>,
    backoff: Backoff,
}

impl<'a> BoundedSend<'a> {
    /// The send.
    pub closed spec fn outgoing(self) -> Outgoing<'a> {
        self.outgoing
    }

    /// The number of sleeps taken so far.
    pub closed spec fn slept(self) -> nat {
        self.backoff@
    }

    /// The retries are within the schedule.
    pub closed spec fn wf(self) -> bool {
        self.backoff.wf()
    }

    /// An attempt with the given outcome leads from this state to `next`: a sleep
    /// is counted, and what is sent, and where to, stays the same.
    pub open spec fn leads_to(
        self,
        outcome: Result<usize, std::io::Error>,
        next: BoundedSend<'a>,
    ) -> bool {
        &&& next.outgoing() == self.outgoing()
        &&& next.slept() == self.slept() + (if step_for(self.slept(), outcome) is Sleep {
            1nat
        } else {
            0nat
        })
    }

    /// The message of the next attempt.
    pub fn message(&self) -> (message: MsgHdr<'a, 'a, 'a>)
        ensures
            message_target(message) == target_of(self.outgoing().target),
            self.outgoing().bufs@.len() <= countable() ==> message_buffers(message) == buffers(
                self.outgoing().bufs@,
            ),
    {
        self.outgoing.message()
    }

    /// Takes the outcome of one attempt and says what comes next. What is sent,
    /// and where to, stays the same.
    pub fn step(&mut self, outcome: Result<usize, std::io::Error>) -> (next: Step)
        requires
            old(self).wf(),
        ensures
            final(self).wf(),
            next == step_for(old(self).slept(), outcome),
            old(self).leads_to(outcome, *final(self)),
    {
        self.backoff.step(outcome)
    }
}

impl UdpSocket {
    /// Starts a send that is tried again on a schedule.
    pub fn send_vectored_with_bounded_backoff<'a>(outgoing: Outgoing<'a>) -> (send: BoundedSend<
        'a,
    >)
        ensures
            send.wf(),
            send.outgoing() == outgoing,
            send.slept() == 0,
    {
        BoundedSend { outgoing, backoff: Backoff::start() }
    }
}

/// The states of a send before each of its attempts and after the last, when
/// they come to `outcomes`.
pub open spec fn runs_through<'a>(
    states: Seq<BoundedSend<'a>>,
    outcomes: Seq<Result<usize, std::io::Error>>,
) -> bool {
    &&& states.len() == outcomes.len() + 1
    &&& forall|i: int|
        0 <= i < outcomes.len() ==> (#[trigger] states[i]).leads_to(outcomes[i], states[i + 1])
}

/// However often a send is tried again, each attempt sends the same buffers in
/// the same order to the same address as the first.
pub proof fn law_every_attempt_sends_the_same<'a>(
    states: Seq<BoundedSend<'a>>,
    outcomes: Seq<Result<usize, std::io::Error>>,
    i: int,
)
    requires
        runs_through(states, outcomes),
        0 <= i < states.len(),
    ensures
        states[i].outgoing() == states[0].outgoing(),
    decreases i,
{
    if i > 0 {
        law_every_attempt_sends_the_same(states, outcomes, i - 1);
        assert(states[i - 1].leads_to(outcomes[i - 1], states[i]));
    }
}

/// A caller that takes the steps of a send until one says that it is over makes
/// the attempts, and returns the result, that the schedule leads to.
pub proof fn law_the_steps_of_a_send_lead_to_its_conclusion<'a>(
    states: Seq<BoundedSend<'a>>,
    outcomes: Seq<Result<usize, std::io::Error>>,
    result: Result<usize, std::io::Error>,
)
    requires
        runs_through(states, outcomes),
        outcomes.len() > 0,
        forall|i: int|
            0 <= i < outcomes.len() - 1 ==> !(step_for(
                (#[trigger] states[i]).slept(),
                outcomes[i],
            ) is Done),
        step_for(states[outcomes.len() - 1].slept(), outcomes.last()) == Step::Done(result),
    ensures
        conclusion(states[0].slept(), outcomes) == Some((outcomes.len(), result)),
    decreases outcomes.len(),
{
    if outcomes.len() > 1 {
        let later = states.drop_first();
        let rest = outcomes.drop_first();
        assert forall|i: int| 0 <= i < rest.len() implies (#[trigger] later[i]).leads_to(
            rest[i],
            later[i + 1],
        ) by {
            assert(states[i + 1].leads_to(outcomes[i + 1], states[i + 2]));
        }
        assert forall|i: int| 0 <= i < rest.len() - 1 implies !(step_for(
            (#[trigger] later[i]).slept(),
            rest[i],
        ) is Done) by {
            assert(later[i] == states[i + 1]);
        }
        law_the_steps_of_a_send_lead_to_its_conclusion(later, rest, result);
        assert(states[0].leads_to(outcomes[0], states[1]));
    }
}

} // verus!
