//! When a request that did not come back is tried again.

use crate::rules::Failure;
use vstd::prelude::*;

verus! {

/// How often a request is made at most, and how long the driver waits
/// before it makes it again: the base delay after the first attempt,
/// twice as long after each further one, and never longer than the cap.
#[derive(Clone, Copy, Debug, PartialEq, Eq, Structural)]
pub struct RetryPolicy {
    pub max_attempts: u32,
    pub base_delay_ms: u64,
    pub max_delay_ms: u64,
}

/// What to do about a request that failed.
#[derive(Clone, Copy, Debug, PartialEq, Eq, Structural)]
pub enum RetryDecision {
    /// Make the request again after so many milliseconds.
    RetryAfter(u64),
    /// Take the failure as it is.
    GiveUp,
}

/// `base` doubled `times` times.
pub open spec fn doubled(base: nat, times: nat) -> nat
    decreases times,
{
    if times == 0 {
        base
    } else {
        2 * doubled(base, (times - 1) as nat)
    }
}

/// The delay after `attempts` attempts.
pub open spec fn delay_after(policy: RetryPolicy, attempts: nat) -> nat {
    let times = if attempts <= 1 {
        0nat
    } else {
        (attempts - 1) as nat
    };
    let delay = doubled(policy.base_delay_ms as nat, times);
    if delay <= policy.max_delay_ms {
        delay
    } else {
        policy.max_delay_ms as nat
    }
}

/// A request is made again where it did not come back and the attempts
/// are not used up; any other failure stands.
pub open spec fn retry_decision(policy: RetryPolicy, failure: Failure, attempts: nat) -> RetryDecision {
    if failure == Failure::Transport && attempts < policy.max_attempts {
        RetryDecision::RetryAfter(delay_after(policy, attempts) as u64)
    } else {
        RetryDecision::GiveUp
    }
}

/// Doubling more often never gives less.
pub proof fn lemma_doubled_grows(base: nat, i: nat, j: nat)
    requires
        i <= j,
    ensures
        doubled(base, i) <= doubled(base, j),
    decreases j,
{
    if i < j {
        lemma_doubled_grows(base, i, (j - 1) as nat);
    }
}

/// No delay is longer than the cap.
pub proof fn lemma_delay_is_capped(policy: RetryPolicy, attempts: nat)
    ensures
        delay_after(policy, attempts) <= policy.max_delay_ms,
{
}

/// The delays never fall from one attempt to the next.
pub proof fn lemma_delay_never_falls(policy: RetryPolicy, attempts: nat)
    ensures
        delay_after(policy, attempts) <= delay_after(policy, attempts + 1),
{
    let t = if attempts <= 1 {
        0nat
    } else {
        (attempts - 1) as nat
    };
    let u = if attempts + 1 <= 1 {
        0nat
    } else {
        attempts
    };
    lemma_doubled_grows(policy.base_delay_ms as nat, t, u);
}

proof fn lemma_doubled_zero(times: nat)
    ensures
        doubled(0, times) == 0,
    decreases times,
{
    if times > 0 {
        lemma_doubled_zero((times - 1) as nat);
    }
}

impl RetryPolicy {
    /// The delay after `attempts` attempts, in milliseconds.
    pub fn delay(&self, attempts: u32) -> (ms: u64)
        ensures
            ms == delay_after(*self, attempts as nat),
    {
        let times: u32 = if attempts <= 1 {
            0
        } else {
            attempts - 1
        };
        if self.base_delay_ms == 0 {
            proof {
                lemma_doubled_zero(times as nat);
            }
            return 0;
        }
        if self.base_delay_ms > self.max_delay_ms {
            proof {
                lemma_doubled_grows(self.base_delay_ms as nat, 0, times as nat);
            }
            return self.max_delay_ms;
        }
        let mut ms: u64 = self.base_delay_ms;
        let mut i: u32 = 0;
        while i < times
            invariant
                i <= times,
                times == if attempts <= 1 {
                    0
                } else {
                    attempts - 1
                },
                ms == doubled(self.base_delay_ms as nat, i as nat),
                ms <= self.max_delay_ms,
            decreases times - i,
        {
            if ms > self.max_delay_ms - ms {
                proof {
                    assert(doubled(self.base_delay_ms as nat, (i + 1) as nat) == 2 * doubled(
                        self.base_delay_ms as nat,
                        i as nat,
                    ));
                    lemma_doubled_grows(self.base_delay_ms as nat, (i + 1) as nat, times as nat);
                }
                return self.max_delay_ms;
            }
            ms = ms + ms;
            i += 1;
        }
        ms
    }

    /// Decides what to do about a request that failed after `attempts`
    /// attempts.
    pub fn decide(&self, failure: Failure, attempts: u32) -> (decision: RetryDecision)
        ensures
            decision == retry_decision(*self, failure, attempts as nat),
    {
        if failure == Failure::Transport && attempts < self.max_attempts {
            RetryDecision::RetryAfter(self.delay(attempts))
        } else {
            RetryDecision::GiveUp
        }
    }
}

} // verus!
