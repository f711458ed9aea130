//! The pace of requests to the live API: a second between any two, and a
//! bounded number of tries for each.

use vstd::prelude::*;
use crate::time::{Duration, NANOS_PER_SEC};

verus! {

/// How long to pause before a request, given how long ago the request
/// before it was made: what is missing to a full second, if anything.
pub open spec fn pause_owed(since_last: Option<Duration>) -> Option<nat> {
    match since_last {
        Some(elapsed) => if elapsed.as_nanos() < NANOS_PER_SEC {
            Some((NANOS_PER_SEC - elapsed.as_nanos()) as nat)
        } else {
            None
        },
        None => None,
    }
}

/// Tells how long to pause before a request so that a second lies between
/// it and the request before it, made `since_last` ago. The first request
/// waits for nothing.
pub fn pause_before_request(since_last: Option<Duration>) -> (r: Option<Duration>)
    ensures
        r is Some <==> pause_owed(since_last) is Some,
        r matches Some(pause) ==> pause.well_formed() && pause_owed(since_last) == Some(
            pause.as_nanos(),
        ),
{
    match since_last {
        Some(elapsed) => {
            let second = Duration::from_secs(1);
            if elapsed.shorter_than(&second) {
                second.checked_sub(&elapsed)
            } else {
                None
            }
        },
        None => None,
    }
}

/// The seconds to wait before the first of the further tries.
pub const FIRST_WAIT_SECS: u64 = 5;

/// By how much the wait grows from one try to the next.
pub const WAIT_GROWTH: u64 = 3;

/// Where a request stands among its tries.
#[derive(Clone, Copy, Debug, PartialEq, Eq, Structural)]
pub struct Retry {
    /// How many further tries are still allowed.
    pub tries_left: u8,
    /// The seconds to wait before the next try.
    pub wait_secs: u64,
}

/// What to do with the answer to a try.
#[derive(Clone, Copy, Debug, PartialEq, Eq, Structural)]
pub enum RetryStep {
    /// Take the answer as it is.
    Settle,
    /// Wait for so many seconds, then try again.
    WaitAndRetry(u64),
}

/// The wait after `wait_secs`: three times as long, as far as that can be
/// written down.
pub open spec fn grown(wait_secs: u64) -> u64 {
    if wait_secs * WAIT_GROWTH <= u64::MAX {
        (wait_secs * WAIT_GROWTH) as u64
    } else {
        u64::MAX
    }
}

impl Retry {
    /// What to do with an answer of status `status`: an answer other than
    /// success is tried again while tries are left.
    pub open spec fn step_of(self, status: u16) -> RetryStep {
        if status != 200 && self.tries_left > 0 {
            RetryStep::WaitAndRetry(self.wait_secs)
        } else {
            RetryStep::Settle
        }
    }

    /// Where the request stands after an answer of status `status`.
    pub open spec fn after(self, status: u16) -> Retry {
        if status != 200 && self.tries_left > 0 {
            Retry { tries_left: (self.tries_left - 1) as u8, wait_secs: grown(self.wait_secs) }
        } else {
            self
        }
    }

    /// A request that may be tried again `attempts` times after its first try.
    pub fn new(attempts: u8) -> (r: Retry)
        ensures
            r == (Retry { tries_left: attempts, wait_secs: FIRST_WAIT_SECS }),
    {
        Retry { tries_left: attempts, wait_secs: FIRST_WAIT_SECS }
    }

    /// Takes the status of an answer and tells what to do with it.
    pub fn next(&mut self, status: u16) -> (step: RetryStep)
        ensures
            step == old(self).step_of(status),
            *final(self) == old(self).after(status),
    {
        if status != 200 && self.tries_left > 0 {
            let wait: u64 = self.wait_secs;
            self.tries_left = self.tries_left - 1;
            self.wait_secs = match wait.checked_mul(WAIT_GROWTH) {
                Some(longer) => longer,
                None => u64::MAX,
            };
            RetryStep::WaitAndRetry(wait)
        } else {
            RetryStep::Settle
        }
    }
}

/// Every answer makes the tries that are left fewer or settles the request,
/// so a request is settled after its first try and at most as many further
/// ones as it was allowed.
pub proof fn lemma_tries_run_out(retry: Retry, status: u16)
    ensures
        retry.step_of(status) is WaitAndRetry ==> retry.after(status).tries_left
            == retry.tries_left - 1,
        retry.tries_left == 0 ==> retry.step_of(status) == RetryStep::Settle,
        status == 200 ==> retry.step_of(status) == RetryStep::Settle,
{
}

} // verus!
