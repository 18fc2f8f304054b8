//! The bounded retry loop of a send that cannot wait for writability.
//!
//! A sender that is told `WouldBlock` sleeps and tries again, a little longer
//! each time, until the schedule is used up. [`Backoff`] takes the outcome of
//! each attempt and says what comes next; the caller sends and sleeps.
use vstd::prelude::*;

use crate::error::{class_of, classify, ErrorClass};

verus! {

/// The sleep in microseconds before each retry.
pub const BACKOFFS_US: [u64; 5] = [1_000, 2_000, 4_000, 8_000, 16_000];

/// The sleep in microseconds before each retry, as a sequence.
pub open spec fn schedule() -> Seq<u64> {
    seq![1_000u64, 2_000u64, 4_000u64, 8_000u64, 16_000u64]
}

/// The sleep before retry number `attempt + 1`, or `None` once the schedule is
/// used up and the error must go to the caller.
pub fn would_block_retry_micros(attempt: usize) -> (micros: Option<u64>)
    ensures
        micros == (if attempt < schedule().len() {
            Some(schedule()[attempt as int])
        } else {
            None
        }),
{
    if attempt < BACKOFFS_US.len() {
        Some(BACKOFFS_US[attempt])
    } else {
        None
    }
}

/// What follows a failed attempt.
#[derive(Clone, Copy, Debug, PartialEq, Eq, Structural)]
pub enum Verdict {
    /// Hand the error to the caller.
    GiveUp,
    /// Try again at once.
    Again,
    /// Sleep this many microseconds, then try again.
    Sleep(u64),
}

/// What follows a failure of the given class when `attempt` sleeps have been
/// taken.
pub open spec fn verdict(attempt: nat, class: ErrorClass) -> Verdict {
    match class {
        ErrorClass::Interrupted => Verdict::Again,
        ErrorClass::WouldBlock => if attempt < schedule().len() {
            Verdict::Sleep(schedule()[attempt as int])
        } else {
            Verdict::GiveUp
        },
        ErrorClass::Other => Verdict::GiveUp,
    }
}

/// What follows one attempt to send.
#[derive(Debug)]
pub enum Step {
    /// The send is over with this result.
    Done(Result<usize, std::io::Error>),
    /// Try again at once.
    Again,
    /// Sleep this many microseconds, then try again.
    Sleep(u64),
}

/// What follows an attempt with the given outcome when `attempt` sleeps have
/// been taken.
pub open spec fn step_for(attempt: nat, outcome: Result<usize, std::io::Error>) -> Step {
    match outcome {
        Ok(_) => Step::Done(outcome),
        Err(error) => match verdict(attempt, class_of(error)) {
            Verdict::GiveUp => Step::Done(outcome),
            Verdict::Again => Step::Again,
            Verdict::Sleep(micros) => Step::Sleep(micros),
        },
    }
}

/// The retry state of one send.
#[derive(Debug)]
pub struct Backoff {
    attempt: usize,
}

impl View for Backoff {
    type V = nat;

    /// The number of sleeps taken so far.
    closed spec fn view(&self) -> nat {
        self.attempt as nat
    }
}

impl Backoff {
    /// No more sleeps are taken than the schedule has.
    pub open spec fn wf(&self) -> bool {
        self@ <= schedule().len()
    }

    /// The state before the first attempt.
    pub fn start() -> (backoff: Backoff)
        ensures
            backoff.wf(),
            backoff@ == 0,
    {
        Backoff { attempt: 0 }
    }

    /// Decides what follows a failure of the given class. A sleep is counted,
    /// nothing else changes the state.
    pub fn after_failure(&mut self, class: ErrorClass) -> (next: Verdict)
        requires
            old(self).wf(),
        ensures
            final(self).wf(),
            next == verdict(old(self)@, class),
            final(self)@ == old(self)@ + (if next is Sleep {
                1nat
            } else {
                0nat
            }),
    {
        match class {
            ErrorClass::Interrupted => Verdict::Again,
            ErrorClass::WouldBlock => match would_block_retry_micros(self.attempt) {
                Some(micros) => {
                    self.attempt = self.attempt + 1;
                    Verdict::Sleep(micros)
                },
                None => Verdict::GiveUp,
            },
            ErrorClass::Other => Verdict::GiveUp,
        }
    }

    /// Takes the outcome of one attempt and says what comes next: a success
    /// and an error that is given up on end the send, unchanged.
    pub fn step(&mut self, outcome: Result<usize, std::io::Error>) -> (next: Step)
        requires
            old(self).wf(),
        ensures
            final(self).wf(),
            next == step_for(old(self)@, outcome),
            final(self)@ == old(self)@ + (if next is Sleep {
                1nat
            } else {
                0nat
            }),
    {
        match outcome {
            Ok(sent) => Step::Done(Ok(sent)),
            Err(error) => match self.after_failure(classify(&error)) {
                Verdict::GiveUp => Step::Done(Err(error)),
                Verdict::Again => Step::Again,
                Verdict::Sleep(micros) => Step::Sleep(micros),
            },
        }
    }
}

/// The sleeps that a send takes when its attempts fail with `failures`, one
/// after the other, and `attempt` sleeps were taken before.
pub open spec fn sleeps(attempt: nat, failures: Seq<ErrorClass>) -> Seq<u64>
    decreases failures.len(),
{
    if failures.len() == 0 {
        Seq::empty()
    } else {
        match verdict(attempt, failures.first()) {
            Verdict::GiveUp => Seq::empty(),
            Verdict::Again => sleeps(attempt, failures.drop_first()),
            Verdict::Sleep(micros) => seq![micros] + sleeps(attempt + 1, failures.drop_first()),
        }
    }
}

/// Whether a send whose attempts fail with `failures`, one after the other,
/// hands an error to its caller within them.
pub open spec fn gives_up(attempt: nat, failures: Seq<ErrorClass>) -> bool
    decreases failures.len(),
{
    failures.len() > 0 && match verdict(attempt, failures.first()) {
        Verdict::GiveUp => true,
        Verdict::Again => gives_up(attempt, failures.drop_first()),
        Verdict::Sleep(_) => gives_up(attempt + 1, failures.drop_first()),
    }
}

/// The number of failures of the given class.
pub open spec fn count(failures: Seq<ErrorClass>, class: ErrorClass) -> nat
    decreases failures.len(),
{
    if failures.len() == 0 {
        0
    } else {
        count(failures.drop_first(), class) + (if failures.first() == class {
            1nat
        } else {
            0nat
        })
    }
}

/// The failures that are not interruptions, in their order.
pub open spec fn without_interruptions(failures: Seq<ErrorClass>) -> Seq<ErrorClass>
    decreases failures.len(),
{
    if failures.len() == 0 {
        Seq::empty()
    } else if failures.first() is Interrupted {
        without_interruptions(failures.drop_first())
    } else {
        seq![failures.first()] + without_interruptions(failures.drop_first())
    }
}

/// The sum of the given sleeps.
pub open spec fn total(micros: Seq<u64>) -> nat
    decreases micros.len(),
{
    if micros.len() == 0 {
        0
    } else {
        micros.first() as nat + total(micros.drop_first())
    }
}

/// Each sleep is twice as long as the one before it.
pub proof fn law_schedule_doubles(i: int)
    requires
        0 <= i < schedule().len() - 1,
    ensures
        schedule()[i + 1] == 2 * schedule()[i],
{
}

/// Whatever the failures are, the sleeps taken are the schedule's, in its order
/// and without a gap, starting where the earlier sleeps left off.
pub proof fn law_sleeps_follow_the_schedule(attempt: nat, failures: Seq<ErrorClass>)
    requires
        attempt <= schedule().len(),
    ensures
        attempt + sleeps(attempt, failures).len() <= schedule().len(),
        sleeps(attempt, failures) == schedule().subrange(
            attempt as int,
            (attempt + sleeps(attempt, failures).len()) as int,
        ),
    decreases failures.len(),
{
    if failures.len() > 0 {
        match verdict(attempt, failures.first()) {
            Verdict::GiveUp => {},
            Verdict::Again => {
                law_sleeps_follow_the_schedule(attempt, failures.drop_first());
            },
            Verdict::Sleep(_) => {
                law_sleeps_follow_the_schedule(attempt + 1, failures.drop_first());
            },
        }
    }
}

proof fn lemma_total_of_prefix(micros: Seq<u64>, n: int)
    requires
        0 <= n <= micros.len(),
    ensures
        total(micros.subrange(0, n)) <= total(micros),
    decreases n,
{
    if n > 0 {
        assert(micros.subrange(0, n).drop_first() == micros.drop_first().subrange(0, n - 1));
        lemma_total_of_prefix(micros.drop_first(), n - 1);
    }
}

/// A send never sleeps longer than 31 milliseconds in all.
pub proof fn law_sleep_is_bounded(failures: Seq<ErrorClass>)
    ensures
        total(sleeps(0, failures)) <= 31_000,
{
    law_sleeps_follow_the_schedule(0, failures);
    lemma_total_of_prefix(schedule(), sleeps(0, failures).len() as int);
    reveal_with_fuel(total, 6);
    assert(schedule().drop_first() == seq![2_000u64, 4_000u64, 8_000u64, 16_000u64]);
    assert(schedule().drop_first().drop_first() == seq![4_000u64, 8_000u64, 16_000u64]);
    assert(total(schedule()) == 31_000);
}

/// The retries are bounded: a send gives up on the first failure that is
/// neither an interruption nor a would-block, and otherwise on the would-block
/// that follows the last sleep of the schedule, and on nothing else.
pub proof fn law_gives_up_exactly(attempt: nat, failures: Seq<ErrorClass>)
    requires
        attempt <= schedule().len(),
    ensures
        gives_up(attempt, failures) <==> count(failures, ErrorClass::Other) > 0 || attempt + count(
            failures,
            ErrorClass::WouldBlock,
        ) > schedule().len(),
    decreases failures.len(),
{
    if failures.len() > 0 {
        let rest = failures.drop_first();
        match failures.first() {
            ErrorClass::Interrupted => law_gives_up_exactly(attempt, rest),
            ErrorClass::WouldBlock => if attempt < schedule().len() {
                law_gives_up_exactly(attempt + 1, rest);
            },
            ErrorClass::Other => {},
        }
    }
}

/// Interruptions are free: leaving them out changes neither the sleeps nor
/// whether the send gives up.
pub proof fn law_interruptions_are_free(attempt: nat, failures: Seq<ErrorClass>)
    requires
        attempt <= schedule().len(),
    ensures
        sleeps(attempt, without_interruptions(failures)) == sleeps(attempt, failures),
        gives_up(attempt, without_interruptions(failures)) == gives_up(attempt, failures),
    decreases failures.len(),
{
    if failures.len() > 0 {
        let rest = failures.drop_first();
        let kept = without_interruptions(rest);
        assert((seq![failures.first()] + kept).drop_first() == kept);
        match failures.first() {
            ErrorClass::Interrupted => law_interruptions_are_free(attempt, rest),
            ErrorClass::WouldBlock => if attempt < schedule().len() {
                law_interruptions_are_free(attempt + 1, rest);
            },
            ErrorClass::Other => {},
        }
    }
}

/// The outcome of one attempt to send.
pub type Outcome = Result<usize, std::io::Error>;

/// How a send ends whose attempts come to `outcomes`, one after the other: the
/// number of attempts that it makes and the result that it returns. `None` if it
/// is not over by then.
pub open spec fn conclusion(attempt: nat, outcomes: Seq<Outcome>) -> Option<(nat, Outcome)>
    decreases outcomes.len(),
{
    if outcomes.len() == 0 {
        None
    } else {
        match step_for(attempt, outcomes.first()) {
            Step::Done(result) => Some((1nat, result)),
            Step::Again => one_more(conclusion(attempt, outcomes.drop_first())),
            Step::Sleep(_) => one_more(conclusion(attempt + 1, outcomes.drop_first())),
        }
    }
}

/// The same end after one more attempt.
pub open spec fn one_more(end: Option<(nat, Outcome)>) -> Option<(nat, Outcome)> {
    match end {
        Some((attempts, result)) => Some((attempts + 1, result)),
        None => None,
    }
}

/// The attempts of a send that are made if they come to `outcomes`.
pub open spec fn attempts_made(outcomes: Seq<Outcome>) -> Seq<Outcome> {
    match conclusion(0, outcomes) {
        Some((attempts, _)) => outcomes.take(attempts as int),
        None => outcomes,
    }
}

/// The classes of the failures before the first success.
pub open spec fn failures(outcomes: Seq<Outcome>) -> Seq<ErrorClass>
    decreases outcomes.len(),
{
    if outcomes.len() == 0 {
        Seq::empty()
    } else {
        match outcomes.first() {
            Ok(_) => Seq::empty(),
            Err(error) => seq![class_of(error)] + failures(outcomes.drop_first()),
        }
    }
}

/// The number of successes.
pub open spec fn successes(outcomes: Seq<Outcome>) -> nat
    decreases outcomes.len(),
{
    if outcomes.len() == 0 {
        0
    } else {
        successes(outcomes.drop_first()) + (if outcomes.first() is Ok {
            1nat
        } else {
            0nat
        })
    }
}

proof fn lemma_conclusion(attempt: nat, outcomes: Seq<Outcome>)
    requires
        attempt <= schedule().len(),
    ensures
        match conclusion(attempt, outcomes) {
            Some((attempts, result)) => {
                &&& 0 < attempts <= outcomes.len()
                &&& result == outcomes[attempts - 1]
                &&& successes(outcomes.take(attempts as int)) == (if result is Ok {
                    1nat
                } else {
                    0nat
                })
                &&& attempts <= schedule().len() - attempt + 1 + count(
                    failures(outcomes.take(attempts as int)),
                    ErrorClass::Interrupted,
                )
            },
            None => {
                &&& successes(outcomes) == 0
                &&& outcomes.len() <= schedule().len() - attempt + count(
                    failures(outcomes),
                    ErrorClass::Interrupted,
                )
            },
        },
    decreases outcomes.len(),
{
    if outcomes.len() > 0 {
        let rest = outcomes.drop_first();
        let slept = match step_for(attempt, outcomes.first()) {
            Step::Sleep(_) => attempt + 1,
            _ => attempt,
        };
        if step_for(attempt, outcomes.first()) is Done {
            assert(outcomes.take(1).first() == outcomes.first());
            assert(outcomes.take(1).drop_first() == Seq::<Outcome>::empty());
            assert(successes(Seq::<Outcome>::empty()) == 0);
        } else {
            lemma_conclusion(slept, rest);
            let class = class_of(outcomes.first()->Err_0);
            assert((seq![class] + failures(rest)).drop_first() == failures(rest));
            if let Some((attempts, _)) = conclusion(slept, rest) {
                let made = outcomes.take(attempts as int + 1);
                assert(made.first() == outcomes.first());
                assert(made.drop_first() == rest.take(attempts as int));
                assert((seq![class] + failures(made.drop_first())).drop_first() == failures(
                    made.drop_first(),
                ));
            }
        }
    }
}

/// A send makes at most one attempt that succeeds, and it makes one exactly if
/// it returns `Ok`: its result is that of its last attempt, and each earlier one
/// failed. So it puts at most one datagram on the wire.
pub proof fn law_a_send_succeeds_at_most_once(outcomes: Seq<Outcome>)
    ensures
        successes(attempts_made(outcomes)) <= 1,
        match conclusion(0, outcomes) {
            Some((attempts, result)) => {
                &&& 0 < attempts <= outcomes.len()
                &&& result == outcomes[attempts - 1]
                &&& successes(attempts_made(outcomes)) == 1 <==> result is Ok
            },
            None => successes(attempts_made(outcomes)) == 0,
        },
{
    lemma_conclusion(0, outcomes);
}

/// A send makes at most six attempts, not counting those that were interrupted,
/// and takes at most five sleeps, which are 31 milliseconds in all at most.
pub proof fn law_a_send_is_bounded(outcomes: Seq<Outcome>)
    ensures
        attempts_made(outcomes).len() <= 6 + count(
            failures(attempts_made(outcomes)),
            ErrorClass::Interrupted,
        ),
        sleeps(0, failures(outcomes)).len() <= 5,
        total(sleeps(0, failures(outcomes))) <= 31_000,
{
    lemma_conclusion(0, outcomes);
    law_sleeps_follow_the_schedule(0, failures(outcomes));
    law_sleep_is_bounded(failures(outcomes));
}

} // verus!
