//! Bounded retry with a success predicate: the decision taken after each attempt.
use vstd::prelude::*;

verus! {

/// How many times the confirmation of a state change is polled.
pub const POLL_ATTEMPTS: u8 = 5;

/// Seconds to wait between two attempts.
pub const RETRY_DELAY_SECS: u64 = 1;

/// What to do once an attempt has come back.
#[derive(PartialEq, Eq, Structural, Clone, Copy, Debug)]
pub enum RetryStep {
    /// The result satisfied the predicate: hand it back.
    Accept,
    /// Wait the fixed delay, then attempt again.
    Wait,
    /// No attempt is left: give up.
    Exhausted,
}

/// Attempt budget: the ceiling and how many attempts have been made.
#[derive(PartialEq, Eq, Structural, Clone, Copy, Debug)]
pub struct BoundedRetry {
    pub limit: u8,
    pub attempts: u8,
}

/// The step after an attempt that made `attempts` in all.
pub open spec fn retry_step_spec(satisfied: bool, attempts: int, limit: int) -> RetryStep {
    if satisfied {
        RetryStep::Accept
    } else if attempts < limit {
        RetryStep::Wait
    } else {
        RetryStep::Exhausted
    }
}

impl BoundedRetry {
    /// A budget of `limit` attempts, none made yet.
    pub fn new(limit: u8) -> (r: BoundedRetry)
        ensures
            r == (BoundedRetry { limit, attempts: 0 }),
    {
        BoundedRetry { limit, attempts: 0 }
    }

    /// Whether another attempt may be made.
    pub fn can_attempt(&self) -> (r: bool)
        ensures
            r == (self.attempts < self.limit),
    {
        self.attempts < self.limit
    }

    /// Counts the attempt that just came back and decides what follows it.
    pub fn record(&mut self, satisfied: bool) -> (r: RetryStep)
        requires
            old(self).attempts < old(self).limit,
        ensures
            final(self).limit == old(self).limit,
            final(self).attempts == old(self).attempts + 1,
            r == retry_step_spec(satisfied, final(self).attempts as int, final(self).limit as int),
    {
        self.attempts = self.attempts + 1;
        if satisfied {
            RetryStep::Accept
        } else if self.attempts < self.limit {
            RetryStep::Wait
        } else {
            RetryStep::Exhausted
        }
    }
}

} // verus!
