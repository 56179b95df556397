//! Connect-phase retry policy with exponential backoff.
//!
//! The policy is a state machine: the caller makes one connection attempt,
//! reports whether it succeeded, and is told what to do next (use the
//! connection, sleep and try again, or give up).

use vstd::prelude::*;
use vstd::arithmetic::power2::{pow2, lemma_pow2_unfold, lemma_pow2_strictly_increases, lemma2_to64};

verus! {

/// Attempts made before the connector gives up, unless configured otherwise.
pub const DEFAULT_MAX_ATTEMPTS: u32 = 5;

/// Largest attempt ceiling accepted: every delay and the total wait fit in a `u64`.
pub const MAX_ATTEMPT_CEILING: u32 = 64;

/// The bounded retry schedule of a connector.
#[derive(Clone, Copy, Debug, PartialEq, Eq, Structural)]
pub struct RetryPolicy {
    pub max_attempts: u32,
}

/// What the connector does after reporting the outcome of an attempt.
#[derive(Clone, Copy, Debug, PartialEq, Eq, Structural)]
pub enum ConnectStep {
    /// The attempt succeeded: use its connection.
    Connected,
    /// The attempt failed: release it, sleep this many time units, try again.
    Retry { delay: u64 },
    /// Every attempt failed: report a connection error carrying the count.
    GiveUp { attempts: u32 },
}

/// Progress through a retry schedule.
#[derive(Clone, Copy, Debug, PartialEq, Eq, Structural)]
pub struct RetryState {
    /// Attempts reported so far.
    pub attempts: u32,
    /// Total time units slept so far.
    pub waited: u64,
    /// Set once an attempt succeeded or the schedule was exhausted.
    pub done: bool,
}

/// Sum of the delays slept before attempt `k`: 1 + 2 + ... + 2^(k-1).
pub open spec fn total_wait(k: nat) -> nat
    decreases k,
{
    if k == 0 {
        0
    } else {
        total_wait((k - 1) as nat) + pow2((k - 1) as nat)
    }
}

impl RetryPolicy {
    pub open spec fn wf(self) -> bool {
        1 <= self.max_attempts <= MAX_ATTEMPT_CEILING
    }

    /// A policy with the given attempt ceiling, if it lies in 1..=64.
    pub fn new(max_attempts: u32) -> (r: Option<RetryPolicy>)
        ensures
            r is Some <==> 1 <= max_attempts <= MAX_ATTEMPT_CEILING,
            r matches Some(p) ==> p.max_attempts == max_attempts && p.wf(),
    {
        if 1 <= max_attempts && max_attempts <= MAX_ATTEMPT_CEILING {
            Some(RetryPolicy { max_attempts })
        } else {
            None
        }
    }

    /// The default schedule: five attempts.
    pub fn standard() -> (r: RetryPolicy)
        ensures
            r.max_attempts == DEFAULT_MAX_ATTEMPTS,
            r.wf(),
    {
        RetryPolicy { max_attempts: DEFAULT_MAX_ATTEMPTS }
    }
}

/// The delay slept after failed attempt number `k` (counting from 0): `2^k`.
pub fn backoff_delay(k: u32) -> (r: u64)
    requires
        k < 64,
    ensures
        r == pow2(k as nat),
{
    let mut d: u64 = 1;
    let mut i: u32 = 0;
    proof {
        lemma2_to64();
    }
    while i < k
        invariant
            i <= k < 64,
            d == pow2(i as nat),
        decreases k - i,
    {
        proof {
            lemma_pow2_unfold((i + 1) as nat);
            lemma_pow2_bounded((i + 1) as nat);
        }
        d = d * 2;
        i = i + 1;
    }
    d
}

/// `2^n` fits in a `u64` for `n < 64`.
pub proof fn lemma_pow2_bounded(n: nat)
    requires
        n < 64,
    ensures
        pow2(n) < 0x1_0000_0000_0000_0000,
{
    lemma2_to64();
    lemma_pow2_strictly_increases(n, 64);
}

/// The delays before attempt `k` sum to `2^k - 1`.
pub proof fn lemma_total_wait(k: nat)
    ensures
        total_wait(k) + 1 == pow2(k),
    decreases k,
{
    if k == 0 {
        lemma2_to64();
    } else {
        lemma_total_wait((k - 1) as nat);
        lemma_pow2_unfold(k);
    }
}

impl RetryState {
    /// Well-formed progress under `policy`: the wait so far is the sum of
    /// the delays of the failed attempts that were followed by a retry.
    pub open spec fn wf(self, policy: RetryPolicy) -> bool {
        &&& policy.wf()
        &&& 1 <= self.attempts || !self.done
        &&& self.attempts <= policy.max_attempts
        &&& (!self.done ==> self.attempts < policy.max_attempts)
        &&& (!self.done ==> self.waited == total_wait(self.attempts as nat))
        &&& (self.done ==> self.waited == total_wait((self.attempts - 1) as nat))
    }

    /// The state after reporting one more outcome.
    pub open spec fn next(self, policy: RetryPolicy, connected: bool) -> RetryState {
        let attempts = (self.attempts + 1) as u32;
        if connected {
            RetryState { attempts, waited: self.waited, done: true }
        } else if attempts < policy.max_attempts {
            RetryState {
                attempts,
                waited: (self.waited + pow2(self.attempts as nat)) as u64,
                done: false,
            }
        } else {
            RetryState { attempts, waited: self.waited, done: true }
        }
    }

    /// The step decided on reporting one more outcome.
    pub open spec fn step(self, policy: RetryPolicy, connected: bool) -> ConnectStep {
        if connected {
            ConnectStep::Connected
        } else if self.attempts + 1 < policy.max_attempts {
            ConnectStep::Retry { delay: pow2(self.attempts as nat) as u64 }
        } else {
            ConnectStep::GiveUp { attempts: policy.max_attempts }
        }
    }

    /// No attempt made yet.
    pub fn start() -> (r: RetryState)
        ensures
            r.attempts == 0,
            r.waited == 0,
            !r.done,
    {
        RetryState { attempts: 0, waited: 0, done: false }
    }

    /// Record the outcome of one attempt and decide the next step.
    ///
    /// A success ends the schedule. A failure is followed by a sleep of
    /// `2^k` units (`k` the failed attempt's index), unless it was the last
    /// attempt allowed, in which case the schedule ends with no sleep.
    pub fn record(&mut self, policy: RetryPolicy, connected: bool) -> (step: ConnectStep)
        requires
            old(self).wf(policy),
            !old(self).done,
        ensures
            final(self).wf(policy),
            *final(self) == old(self).next(policy, connected),
            step == old(self).step(policy, connected),
    {
        let k = self.attempts;
        self.attempts = k + 1;
        if connected {
            self.done = true;
            ConnectStep::Connected
        } else if self.attempts < policy.max_attempts {
            let delay = backoff_delay(k);
            proof {
                lemma_total_wait((k + 1) as nat);
                lemma_pow2_bounded((k + 1) as nat);
            }
            self.waited = self.waited + delay;
            ConnectStep::Retry { delay }
        } else {
            self.done = true;
            ConnectStep::GiveUp { attempts: policy.max_attempts }
        }
    }
}

/// The state after `n` failed attempts in a row, from the start.
pub open spec fn failing_run(policy: RetryPolicy, n: nat) -> RetryState
    decreases n,
{
    if n == 0 {
        RetryState { attempts: 0, waited: 0, done: false }
    } else {
        failing_run(policy, (n - 1) as nat).next(policy, false)
    }
}

/// The step decided after the `n`-th failed attempt in a row (`n >= 1`).
pub open spec fn failing_step(policy: RetryPolicy, n: nat) -> ConnectStep {
    failing_run(policy, (n - 1) as nat).step(policy, false)
}

proof fn lemma_failing_run_shape(policy: RetryPolicy, n: nat)
    requires
        policy.wf(),
        n < policy.max_attempts,
    ensures
        failing_run(policy, n) == (RetryState { attempts: n as u32, waited: total_wait(n) as u64, done: false }),
    decreases n,
{
    if n > 0 {
        lemma_failing_run_shape(policy, (n - 1) as nat);
        lemma_total_wait(n);
        lemma_pow2_bounded(n);
    }
}

/// Against a peer that never accepts, the schedule makes exactly
/// `max_attempts` attempts: every failure but the last is followed by a
/// sleep of `2^k` units (`k` the attempt's index), the last one ends the
/// schedule with a give-up carrying the attempt count, and the total time
/// slept is `2^(max_attempts - 1) - 1` units.
pub proof fn lemma_never_accepting_peer(policy: RetryPolicy)
    requires
        policy.wf(),
    ensures
        forall|n: nat|
            1 <= n < policy.max_attempts ==> #[trigger] failing_step(policy, n) == (ConnectStep::Retry {
                delay: pow2((n - 1) as nat) as u64,
            }) && !failing_run(policy, n).done,
        failing_step(policy, policy.max_attempts as nat) == (ConnectStep::GiveUp {
            attempts: policy.max_attempts,
        }),
        failing_run(policy, policy.max_attempts as nat).done,
        failing_run(policy, policy.max_attempts as nat).attempts == policy.max_attempts,
        failing_run(policy, policy.max_attempts as nat).waited + 1 == pow2(
            (policy.max_attempts - 1) as nat,
        ),
{
    assert forall|n: nat| 1 <= n < policy.max_attempts implies #[trigger] failing_step(policy, n)
        == (ConnectStep::Retry { delay: pow2((n - 1) as nat) as u64 }) && !failing_run(
        policy,
        n,
    ).done by {
        lemma_failing_run_shape(policy, (n - 1) as nat);
        lemma_failing_run_shape(policy, n);
    }
    let m = (policy.max_attempts - 1) as nat;
    lemma_failing_run_shape(policy, m);
    lemma_total_wait(m);
    lemma_pow2_bounded(m);
}

/// With the default policy a peer that never accepts is tried five times,
/// and the connector sleeps 1 + 2 + 4 + 8 = 15 units before giving up.
pub proof fn lemma_default_schedule_never_accepting()
    ensures
        failing_step(RetryPolicy { max_attempts: DEFAULT_MAX_ATTEMPTS }, 5) == (ConnectStep::GiveUp {
            attempts: 5,
        }),
        failing_run(RetryPolicy { max_attempts: DEFAULT_MAX_ATTEMPTS }, 5).attempts == 5,
        failing_run(RetryPolicy { max_attempts: DEFAULT_MAX_ATTEMPTS }, 5).waited == 15,
{
    lemma_never_accepting_peer(RetryPolicy { max_attempts: DEFAULT_MAX_ATTEMPTS });
    lemma2_to64();
}

} // verus!
