//! The retry policy of a listener whose `accept` may fail for a while.
//!
//! A failed accept is answered by a wait that doubles from one failure to the
//! next, starting at one second. The wait is compared with the ceiling before
//! it is granted: waits of 1, 2, 4, 8, 16, 32 and 64 seconds are, and the
//! failure that finds the wait at 128 is final. So the eighth failure in a row
//! ends the series, and the error to report is the one of that eighth attempt.
//! A success ends the series at once, whatever the wait has grown to.
//!
//! The policy is a small state machine: the caller owns the socket and the
//! clock, reports each failure, and does what the answer says.

use vstd::prelude::*;

verus! {

/// The wait after the first failure, in seconds.
pub const BACKOFF_START: u64 = 1;

/// The longest wait that is still granted, in seconds.
pub const BACKOFF_CEILING: u64 = 64;

/// What to do about a failed accept.
#[derive(Clone, Copy, Debug, PartialEq, Eq, Structural)]
pub enum Retry {
    /// Wait this many seconds, then try again.
    Wait(u64),
    /// Stop, and report the error of the attempt that just failed.
    GiveUp,
}

/// The answer to a failure while the wait stands at `secs`, and the wait
/// after it.
pub open spec fn failure_step(secs: u64) -> (Retry, u64) {
    if secs > BACKOFF_CEILING {
        (Retry::GiveUp, secs)
    } else {
        (Retry::Wait(secs), (2 * secs) as u64)
    }
}

/// The wait after `failures` failures in a row.
pub open spec fn wait_after(failures: nat) -> u64
    decreases failures,
{
    if failures == 0 {
        BACKOFF_START
    } else {
        failure_step(wait_after((failures - 1) as nat)).1
    }
}

/// The answer to a failure that follows `earlier` failures in a row.
pub open spec fn answer_after(earlier: nat) -> Retry {
    failure_step(wait_after(earlier)).0
}

/// The seconds that an answer asks to wait.
pub open spec fn seconds_of(answer: Retry) -> nat {
    match answer {
        Retry::Wait(secs) => secs as nat,
        Retry::GiveUp => 0,
    }
}

/// The seconds waited in all over `failures` failures in a row.
pub open spec fn waited_over(failures: nat) -> nat
    decreases failures,
{
    if failures == 0 {
        0
    } else {
        waited_over((failures - 1) as nat) + seconds_of(answer_after((failures - 1) as nat))
    }
}

/// Two to the power of `n`.
pub open spec fn two_to(n: nat) -> nat
    decreases n,
{
    if n == 0 {
        1
    } else {
        2 * two_to((n - 1) as nat)
    }
}

/// The wait of one series of accept attempts.
#[derive(Debug)]
pub struct Backoff {
    secs: u64,
}

impl View for Backoff {
    type V = u64;

    /// The wait that the next failure will be answered with, in seconds.
    closed spec fn view(&self) -> u64 {
        self.secs
    }
}

impl Backoff {
    /// The state before the first attempt.
    pub fn new() -> (backoff: Backoff)
        ensures
            backoff@ == BACKOFF_START,
    {
        Backoff { secs: BACKOFF_START }
    }

    /// The wait that the next failure will be answered with, in seconds.
    pub fn secs(&self) -> (secs: u64)
        ensures
            secs == self@,
    {
        self.secs
    }

    /// Records a failed accept and says what to do about it.
    ///
    /// While the wait is within the ceiling, the answer is to wait that long,
    /// and the wait doubles. Beyond the ceiling the answer is to give up, and
    /// the state stays as it is.
    pub fn on_failure(&mut self) -> (answer: Retry)
        ensures
            answer == failure_step(old(self)@).0,
            final(self)@ == failure_step(old(self)@).1,
    {
        if self.secs > BACKOFF_CEILING {
            Retry::GiveUp
        } else {
            let secs = self.secs;
            self.secs = 2 * secs;
            Retry::Wait(secs)
        }
    }
}

/// The answer to a failure that follows `earlier` failures in a row, as a
/// function of that count alone.
pub fn retry_after(earlier: u64) -> (answer: Retry)
    ensures
        answer == answer_after(earlier as nat),
{
    proof {
        lemma_backoff_schedule(earlier as nat);
        reveal_with_fuel(two_to, 8);
    }
    if earlier == 0 {
        Retry::Wait(1)
    } else if earlier == 1 {
        Retry::Wait(2)
    } else if earlier == 2 {
        Retry::Wait(4)
    } else if earlier == 3 {
        Retry::Wait(8)
    } else if earlier == 4 {
        Retry::Wait(16)
    } else if earlier == 5 {
        Retry::Wait(32)
    } else if earlier == 6 {
        Retry::Wait(64)
    } else {
        Retry::GiveUp
    }
}

/// The schedule of a series of failures: the wait doubles seven times, from 1
/// to 128, and stays there; the first seven failures are answered by waits of
/// 1, 2, 4, 8, 16, 32 and 64 seconds, and every later one by giving up.
pub proof fn lemma_backoff_schedule(failures: nat)
    ensures
        failures <= 7 ==> wait_after(failures) == two_to(failures),
        failures >= 7 ==> wait_after(failures) == 128,
        failures < 7 ==> answer_after(failures) == Retry::Wait(two_to(failures) as u64),
        failures >= 7 ==> answer_after(failures) == Retry::GiveUp,
    decreases failures,
{
    reveal_with_fuel(two_to, 8);
    if failures > 0 {
        lemma_backoff_schedule((failures - 1) as nat);
    }
}

/// A series of failures costs one second less than the wait it has reached,
/// and so never more than 127 seconds, however long it goes on.
pub proof fn lemma_total_wait(failures: nat)
    ensures
        waited_over(failures) == wait_after(failures) - 1,
        waited_over(failures) <= 127,
        failures >= 7 ==> waited_over(failures) == 127,
    decreases failures,
{
    reveal_with_fuel(two_to, 8);
    lemma_backoff_schedule(failures);
    if failures > 0 {
        lemma_backoff_schedule((failures - 1) as nat);
        lemma_total_wait((failures - 1) as nat);
    }
}

} // verus!
