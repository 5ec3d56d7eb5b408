use frame_parse::accept::{retry_after, BACKOFF_CEILING, BACKOFF_START};
use frame_parse::{Backoff, Retry};

/// What a series of accept attempts came to.
#[derive(Debug, PartialEq, Eq)]
struct Run {
    /// The attempt that gave a connection, or the attempt whose error was
    /// reported; attempts count from 1.
    outcome: Result<u32, u32>,
    waits: Vec<u64>,
}

/// Runs the retry policy against a listener that fails `failures` times and
/// then accepts; with `None` it fails for ever.
fn run(failures: Option<u32>) -> Run {
    let mut backoff = Backoff::new();
    let mut waits = Vec::new();
    let mut attempt: u32 = 0;
    loop {
        attempt += 1;
        assert!(attempt < 1000, "the policy does not end");
        let accepted = match failures {
            Some(n) => attempt > n,
            None => false,
        };
        if accepted {
            return Run { outcome: Ok(attempt), waits };
        }
        match backoff.on_failure() {
            Retry::Wait(secs) => waits.push(secs),
            Retry::GiveUp => return Run { outcome: Err(attempt), waits },
        }
    }
}

#[test]
fn first_attempt_succeeds() {
    let got = run(Some(0));
    assert_eq!(got.outcome, Ok(1));
    assert!(got.waits.is_empty());
}

#[test]
fn six_failures_then_success() {
    let got = run(Some(6));
    assert_eq!(got.outcome, Ok(7));
    assert_eq!(got.waits, vec![1, 2, 4, 8, 16, 32]);
    assert_eq!(got.waits.iter().sum::<u64>(), 63);
}

#[test]
fn seven_failures_then_success() {
    let got = run(Some(7));
    assert_eq!(got.outcome, Ok(8));
    assert_eq!(got.waits, vec![1, 2, 4, 8, 16, 32, 64]);
    assert_eq!(got.waits.iter().sum::<u64>(), 127);
    assert!(got.waits.iter().all(|secs| *secs <= BACKOFF_CEILING));
}

#[test]
fn eight_failures_are_final() {
    let got = run(Some(8));
    assert_eq!(got.outcome, Err(8));
    assert_eq!(got.waits.iter().sum::<u64>(), 127);
}

#[test]
fn endless_failures_end() {
    let got = run(None);
    assert_eq!(got.outcome, Err(8));
    assert_eq!(got.waits, vec![1, 2, 4, 8, 16, 32, 64]);
    assert_eq!(got.waits.iter().sum::<u64>(), 127);
}

#[test]
fn backoff_doubles_to_128() {
    let mut backoff = Backoff::new();
    assert_eq!(backoff.secs(), BACKOFF_START);
    assert_eq!(backoff.secs(), 1);
    let mut seen = Vec::new();
    for _ in 0..7 {
        assert!(matches!(backoff.on_failure(), Retry::Wait(_)));
        seen.push(backoff.secs());
    }
    assert_eq!(seen, vec![2, 4, 8, 16, 32, 64, 128]);
}

#[test]
fn giving_up_leaves_the_state() {
    let mut backoff = Backoff::new();
    for _ in 0..7 {
        backoff.on_failure();
    }
    assert_eq!(backoff.secs(), 128);
    assert_eq!(backoff.on_failure(), Retry::GiveUp);
    assert_eq!(backoff.secs(), 128);
    assert_eq!(backoff.on_failure(), Retry::GiveUp);
    assert_eq!(backoff.secs(), 128);
}

#[test]
fn wait_at_the_ceiling_is_granted() {
    let mut backoff = Backoff::new();
    for _ in 0..6 {
        backoff.on_failure();
    }
    assert_eq!(backoff.secs(), BACKOFF_CEILING);
    assert_eq!(backoff.on_failure(), Retry::Wait(64));
}

#[test]
fn schedule_by_count() {
    assert_eq!(retry_after(0), Retry::Wait(1));
    assert_eq!(retry_after(1), Retry::Wait(2));
    assert_eq!(retry_after(2), Retry::Wait(4));
    assert_eq!(retry_after(3), Retry::Wait(8));
    assert_eq!(retry_after(4), Retry::Wait(16));
    assert_eq!(retry_after(5), Retry::Wait(32));
    assert_eq!(retry_after(6), Retry::Wait(64));
    assert_eq!(retry_after(7), Retry::GiveUp);
    assert_eq!(retry_after(8), Retry::GiveUp);
    assert_eq!(retry_after(u64::MAX), Retry::GiveUp);
}

#[test]
fn schedule_agrees_with_the_state_machine() {
    let mut backoff = Backoff::new();
    for earlier in 0..20 {
        assert_eq!(backoff.on_failure(), retry_after(earlier));
    }
}
