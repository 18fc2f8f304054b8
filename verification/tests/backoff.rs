use std::io::{Error, ErrorKind};

use tokio_udp::backoff::{Verdict, BACKOFFS_US};
use tokio_udp::error::ErrorClass;
use tokio_udp::{would_block_retry_micros, Backoff, Step};

#[test]
fn would_block_retry_micros_covers_the_schedule_and_exhausts() {
    let expected = [1_000u64, 2_000, 4_000, 8_000, 16_000];
    for (attempt, want) in expected.iter().enumerate() {
        assert_eq!(
            would_block_retry_micros(attempt),
            Some(*want),
            "attempt {attempt} must sleep the documented backoff"
        );
    }
    assert_eq!(
        would_block_retry_micros(expected.len()),
        None,
        "the bounded retry budget must be exhausted after {} would-blocks",
        expected.len()
    );
}

#[test]
fn no_attempt_beyond_the_schedule_is_granted() {
    assert_eq!(would_block_retry_micros(6), None);
    assert_eq!(would_block_retry_micros(usize::MAX), None);
}

#[test]
fn the_schedule_doubles_and_sums_to_31_milliseconds() {
    for pair in BACKOFFS_US.windows(2) {
        assert_eq!(pair[1], 2 * pair[0]);
    }
    assert_eq!(BACKOFFS_US.iter().sum::<u64>(), 31_000);
}

#[test]
fn would_blocks_sleep_the_schedule_and_then_surface_the_error() {
    let mut backoff = Backoff::start();
    for want in [1_000u64, 2_000, 4_000, 8_000, 16_000] {
        match backoff.step(Err(Error::from(ErrorKind::WouldBlock))) {
            Step::Sleep(micros) => assert_eq!(micros, want),
            other => panic!("{other:?}"),
        }
    }
    match backoff.step(Err(Error::from(ErrorKind::WouldBlock))) {
        Step::Done(Err(error)) => assert_eq!(error.kind(), ErrorKind::WouldBlock),
        other => panic!("{other:?}"),
    }
}

#[test]
fn interruptions_retry_at_once_and_cost_no_sleep() {
    let mut backoff = Backoff::start();
    for _ in 0..100 {
        assert!(matches!(
            backoff.step(Err(Error::from(ErrorKind::Interrupted))),
            Step::Again
        ));
    }
    assert!(matches!(
        backoff.step(Err(Error::from(ErrorKind::WouldBlock))),
        Step::Sleep(1_000)
    ));
    assert!(matches!(
        backoff.step(Err(Error::from(ErrorKind::Interrupted))),
        Step::Again
    ));
    assert!(matches!(
        backoff.step(Err(Error::from(ErrorKind::WouldBlock))),
        Step::Sleep(2_000)
    ));
}

#[test]
fn any_other_error_surfaces_at_once_and_unchanged() {
    let mut backoff = Backoff::start();
    match backoff.step(Err(Error::new(ErrorKind::InvalidInput, "message too long"))) {
        Step::Done(Err(error)) => {
            assert_eq!(error.kind(), ErrorKind::InvalidInput);
            assert_eq!(error.to_string(), "message too long");
        }
        other => panic!("{other:?}"),
    }
    assert!(matches!(
        backoff.step(Err(Error::from(ErrorKind::WouldBlock))),
        Step::Sleep(1_000)
    ));
}

#[test]
fn a_success_ends_the_send_even_after_sleeps() {
    let mut backoff = Backoff::start();
    assert!(matches!(
        backoff.step(Err(Error::from(ErrorKind::WouldBlock))),
        Step::Sleep(1_000)
    ));
    assert!(matches!(backoff.step(Ok(17)), Step::Done(Ok(17))));
}

#[test]
fn failures_are_judged_by_class() {
    let mut backoff = Backoff::start();
    assert_eq!(backoff.after_failure(ErrorClass::Interrupted), Verdict::Again);
    assert_eq!(backoff.after_failure(ErrorClass::WouldBlock), Verdict::Sleep(1_000));
    assert_eq!(backoff.after_failure(ErrorClass::WouldBlock), Verdict::Sleep(2_000));
    assert_eq!(backoff.after_failure(ErrorClass::Other), Verdict::GiveUp);
    assert_eq!(backoff.after_failure(ErrorClass::WouldBlock), Verdict::Sleep(4_000));
    assert_eq!(backoff.after_failure(ErrorClass::WouldBlock), Verdict::Sleep(8_000));
    assert_eq!(backoff.after_failure(ErrorClass::WouldBlock), Verdict::Sleep(16_000));
    assert_eq!(backoff.after_failure(ErrorClass::WouldBlock), Verdict::GiveUp);
}
