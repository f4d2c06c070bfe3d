//! Retrying one processor call: the decisions, as a state machine.
//!
//! The driver makes the call and does the waiting; the machine says which of
//! the two is due, and when to stop.

use vstd::prelude::*;

verus! {

/// How often a failing call is made, and how long to wait between two calls.
#[derive(Clone, Copy, Debug, PartialEq, Eq, Structural)]
pub struct RetryPolicy {
    /// The limit on the number of calls. A limit of zero still allows the
    /// first call.
    pub retry_attempts: u32,
    /// The wait between a failed call and the next one, in milliseconds.
    pub retry_delay: u64,
}

impl RetryPolicy {
    /// The number of calls made of an operation that never succeeds.
    pub open spec fn attempts_allowed(self) -> nat {
        if self.retry_attempts == 0 {
            1
        } else {
            self.retry_attempts as nat
        }
    }
}

/// Where a retried call stands.
#[derive(Clone, Copy, Debug, PartialEq, Eq, Structural)]
pub enum RetryState {
    /// The call numbered `attempt`, counted from one, is due or under way.
    Attempting { attempt: u32 },
    /// `failed` calls have failed and the wait before the next one runs.
    Waiting { failed: u32 },
    /// The call numbered `attempts` succeeded.
    Succeeded { attempts: u32 },
    /// All `attempts` calls failed and no more are made.
    Failed { attempts: u32 },
}

/// What the driver does next.
#[derive(Clone, Copy, Debug, PartialEq, Eq, Structural)]
pub enum RetryAction {
    /// Make the call and report how it ended.
    Invoke { attempt: u32 },
    /// Wait for `delay_ms` milliseconds and report that the wait is over.
    Wait { delay_ms: u64 },
    /// Nothing: the call succeeded or failed for good.
    Stop,
}

impl RetryState {
    /// Before the first call.
    pub open spec fn initial() -> RetryState {
        RetryState::Attempting { attempt: 1 }
    }

    /// The counters lie within what the policy allows.
    pub open spec fn wf(self, policy: RetryPolicy) -> bool {
        match self {
            RetryState::Attempting { attempt } => 1 <= attempt <= policy.attempts_allowed(),
            RetryState::Waiting { failed } => 1 <= failed < policy.retry_attempts,
            RetryState::Succeeded { attempts } => 1 <= attempts <= policy.attempts_allowed(),
            RetryState::Failed { attempts } => attempts == policy.attempts_allowed(),
        }
    }

    /// The state after a call ended. A success ends the retrying. A failure
    /// leads to a wait while the calls made so far are fewer than the limit,
    /// and ends the retrying for good once the limit is reached. Where no call
    /// is under way the state stays as it is.
    pub open spec fn after_outcome(self, policy: RetryPolicy, ok: bool) -> RetryState {
        match self {
            RetryState::Attempting { attempt } => {
                if ok {
                    RetryState::Succeeded { attempts: attempt }
                } else if attempt < policy.retry_attempts {
                    RetryState::Waiting { failed: attempt }
                } else {
                    RetryState::Failed { attempts: attempt }
                }
            },
            _ => self,
        }
    }

    /// The state after the wait is over: the next call is due. Where no wait
    /// runs, or the counter is at its limit, the state stays as it is.
    pub open spec fn after_delay(self) -> RetryState {
        match self {
            RetryState::Waiting { failed } => if failed < u32::MAX {
                RetryState::Attempting { attempt: (failed + 1) as u32 }
            } else {
                self
            },
            _ => self,
        }
    }

    /// What is due in this state.
    pub open spec fn due(self, policy: RetryPolicy) -> RetryAction {
        match self {
            RetryState::Attempting { attempt } => RetryAction::Invoke { attempt },
            RetryState::Waiting { .. } => RetryAction::Wait { delay_ms: policy.retry_delay },
            _ => RetryAction::Stop,
        }
    }

    /// The state after `failures` calls in a row have failed, each wait
    /// having run its course.
    pub open spec fn after_failures(policy: RetryPolicy, failures: nat) -> RetryState
        decreases failures,
    {
        if failures == 0 {
            RetryState::initial()
        } else {
            RetryState::after_failures(policy, (failures - 1) as nat).after_delay().after_outcome(
                policy,
                false,
            )
        }
    }

    /// The state before the first call.
    pub fn start() -> (state: RetryState)
        ensures
            state == RetryState::initial(),
    {
        RetryState::Attempting { attempt: 1 }
    }

    /// Takes the outcome of the call that was due.
    pub fn on_outcome(self, policy: RetryPolicy, ok: bool) -> (next: RetryState)
        ensures
            next == self.after_outcome(policy, ok),
            self.wf(policy) ==> next.wf(policy),
    {
        match self {
            RetryState::Attempting { attempt } => {
                if ok {
                    RetryState::Succeeded { attempts: attempt }
                } else if attempt < policy.retry_attempts {
                    RetryState::Waiting { failed: attempt }
                } else {
                    RetryState::Failed { attempts: attempt }
                }
            },
            _ => self,
        }
    }

    /// Takes the end of the wait that was due.
    pub fn on_delay_elapsed(self, policy: RetryPolicy) -> (next: RetryState)
        ensures
            next == self.after_delay(),
            self.wf(policy) ==> next.wf(policy),
    {
        match self {
            RetryState::Waiting { failed } => if failed < u32::MAX {
                RetryState::Attempting { attempt: failed + 1 }
            } else {
                self
            },
            _ => self,
        }
    }

    /// What the driver does next.
    pub fn action(self, policy: RetryPolicy) -> (action: RetryAction)
        ensures
            action == self.due(policy),
    {
        match self {
            RetryState::Attempting { attempt } => RetryAction::Invoke { attempt },
            RetryState::Waiting { .. } => RetryAction::Wait { delay_ms: policy.retry_delay },
            _ => RetryAction::Stop,
        }
    }
}

/// An operation that fails every time is called exactly as often as the policy
/// allows: after fewer failures a wait runs and then the next call is due, and
/// the failure that reaches the limit ends the retrying for good.
pub proof fn lemma_persistent_failure(policy: RetryPolicy, failures: nat)
    requires
        failures <= policy.attempts_allowed(),
    ensures
        RetryState::after_failures(policy, failures).wf(policy),
        0 < failures < policy.attempts_allowed() ==> RetryState::after_failures(policy, failures)
            == (RetryState::Waiting { failed: failures as u32 }),
        failures < policy.attempts_allowed() ==> RetryState::after_failures(
            policy,
            failures,
        ).after_delay().due(policy) == (RetryAction::Invoke { attempt: (failures + 1) as u32 }),
        failures == policy.attempts_allowed() ==> RetryState::after_failures(policy, failures)
            == (RetryState::Failed { attempts: failures as u32 }),
    decreases failures,
{
    if failures > 0 {
        lemma_persistent_failure(policy, (failures - 1) as nat);
    }
}

} // verus!
