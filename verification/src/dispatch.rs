//! The bounded-retry policy of the email dispatch.
//!
//! The transport itself (an SMTP session, a sleep between attempts) is outside
//! work; the decisions — whether to try again, when to give up, what the
//! caller observes — are made here. A driver performs one send per attempt,
//! feeds the outcome into [`RetryState::record_attempt`], and obeys the
//! returned action.

use vstd::prelude::*;

use crate::errors::ApiErrorOutcome;

verus! {

/// What the driver must do after an attempt's outcome was recorded.
#[derive(Clone, Copy, Debug)]
pub enum DispatchAction {
    /// The attempt succeeded: stop, the dispatch is done.
    Done,
    /// The attempt failed and budget remains: wait this many time units,
    /// then try again.
    RetryAfterDelay(u64),
    /// The attempt failed and the budget is exhausted: report the failure
    /// once and stop.
    GiveUp,
}

/// The state of one dispatch: how many attempts were made, how many the retry
/// budget allows in all, and the fixed delay between attempts. Scoped to a
/// single dispatch; nothing is retained across calls.
#[derive(Clone, Copy, Debug)]
pub struct RetryState {
    pub attempt: u64,
    pub max_attempts: u64,
    pub delay: u64,
}

impl RetryState {
    /// The configured budget allows the first attempt plus `retry_count`
    /// further ones.
    pub open spec fn wf(&self) -> bool {
        &&& 1 <= self.max_attempts <= 11
        &&& self.attempt <= self.max_attempts
    }

    /// A fresh dispatch: no attempt made yet, `retry_count + 1` attempts in
    /// all, a fixed delay between them. The configuration layer has already
    /// clamped `retry_count` to `[1, 10]`.
    pub fn new(retry_count: u64, retry_timeout: u64) -> (r: RetryState)
        requires
            1 <= retry_count <= 10,
        ensures
            r.attempt == 0,
            r.max_attempts == retry_count + 1,
            r.delay == retry_timeout,
            r.wf(),
    {
        RetryState { attempt: 0, max_attempts: retry_count + 1, delay: retry_timeout }
    }

    /// Records one attempt's outcome. Success ends the dispatch at once; a
    /// failure is retried after the fixed delay while budget remains, and
    /// gives up exactly when the recorded attempt was the last allowed one.
    pub fn record_attempt(&mut self, delivered: bool) -> (a: DispatchAction)
        requires
            old(self).wf(),
            old(self).attempt < old(self).max_attempts,
        ensures
            final(self).wf(),
            final(self).attempt == old(self).attempt + 1,
            final(self).max_attempts == old(self).max_attempts,
            final(self).delay == old(self).delay,
            delivered ==> a == DispatchAction::Done,
            !delivered && old(self).attempt + 1 < old(self).max_attempts ==> a
                == DispatchAction::RetryAfterDelay(old(self).delay),
            !delivered && old(self).attempt + 1 == old(self).max_attempts ==> a
                == DispatchAction::GiveUp,
    {
        self.attempt = self.attempt + 1;
        if delivered {
            DispatchAction::Done
        } else if self.attempt < self.max_attempts {
            DispatchAction::RetryAfterDelay(self.delay)
        } else {
            DispatchAction::GiveUp
        }
    }
}

/// What a caller observes of one whole dispatch: whether it was delivered,
/// and how many send attempts were made.
#[derive(Clone, Copy, Debug)]
pub struct DispatchResult {
    pub delivered: bool,
    pub attempts: u64,
}

/// Runs one whole dispatch against a given per-attempt outcome sequence
/// (entry `i` is whether attempt `i + 1` would deliver). The contract pins
/// the retry policy down: the first successful attempt ends the dispatch at
/// once with no attempt after it, and when every allowed attempt fails the
/// dispatch makes exactly `retry_count + 1` attempts and gives up.
pub fn dispatch_with_outcomes(outcomes: &Vec<bool>, retry_count: u64, retry_timeout: u64) -> (r:
    DispatchResult)
    requires
        1 <= retry_count <= 10,
        outcomes@.len() >= retry_count + 1,
    ensures
        1 <= r.attempts <= retry_count + 1,
        r.delivered ==> outcomes@[r.attempts - 1] && (forall|j: int|
            0 <= j < r.attempts - 1 ==> !outcomes@[j]),
        !r.delivered ==> r.attempts == retry_count + 1 && (forall|j: int|
            0 <= j < retry_count + 1 ==> !outcomes@[j]),
{
    let mut state = RetryState::new(retry_count, retry_timeout);
    loop
        invariant
            state.wf(),
            state.max_attempts == retry_count + 1,
            state.attempt < state.max_attempts,
            outcomes@.len() >= retry_count + 1,
            forall|j: int| 0 <= j < state.attempt ==> !outcomes@[j],
        decreases state.max_attempts - state.attempt,
    {
        let delivered = outcomes[state.attempt as usize];
        match state.record_attempt(delivered) {
            DispatchAction::Done => {
                return DispatchResult { delivered: true, attempts: state.attempt };
            },
            DispatchAction::RetryAfterDelay(_delay) => {
                // the driver would wait `retry_timeout` here; the decision
                // sequence is unaffected by the wait
            },
            DispatchAction::GiveUp => {
                return DispatchResult { delivered: false, attempts: state.attempt };
            },
        }
    }
}

/// What the dispatch's caller is handed: success, or `DeliveryFailed` once
/// the retry budget is exhausted.
pub fn dispatch_outcome(result: &DispatchResult) -> (r: Result<(), ApiErrorOutcome>)
    ensures
        result.delivered ==> r is Ok,
        !result.delivered ==> (r matches Err(e) && e is DeliveryFailed),
{
    if result.delivered {
        Ok(())
    } else {
        Err(ApiErrorOutcome::DeliveryFailed)
    }
}

} // verus!
