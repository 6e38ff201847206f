//! Bounded retry with escalating backoff. The driver decides; the caller
//! performs each attempt, reports its outcome, and sleeps when told to.
//! Policy: at most `max_attempts` attempts in all; the wait after the failed
//! attempt with index `k` (from 0) is `initial_delay_ms + k * delay_increment_ms`;
//! when the last allowed attempt fails the driver reports exhaustion with the
//! last error and the number of attempts. Errors are not told apart: every
//! failure is retried alike.
use vstd::prelude::*;

verus! {

#[derive(Debug, Clone, Copy)]
pub struct RetryPolicy {
    pub max_attempts: u32,
    pub initial_delay_ms: u64,
    pub delay_increment_ms: u64,
}

/// The wait after the failed attempt with index `k`.
pub open spec fn delay_spec(p: RetryPolicy, k: int) -> int {
    p.initial_delay_ms + k * p.delay_increment_ms
}

impl RetryPolicy {
    /// At least one attempt, and every wait fits in a `u64`.
    pub open spec fn wf(&self) -> bool {
        &&& self.max_attempts >= 1
        &&& delay_spec(*self, self.max_attempts as int) <= u64::MAX
    }

    /// The policy with these parameters, when they are well formed.
    pub fn new(max_attempts: u32, initial_delay_ms: u64, delay_increment_ms: u64) -> (r: Option<
        RetryPolicy,
    >)
        ensures
            match r {
                Some(p) => p.wf() && p.max_attempts == max_attempts && p.initial_delay_ms
                    == initial_delay_ms && p.delay_increment_ms == delay_increment_ms,
                None => !(RetryPolicy { max_attempts, initial_delay_ms, delay_increment_ms }).wf(),
            },
    {
        let p = RetryPolicy { max_attempts, initial_delay_ms, delay_increment_ms };
        if max_attempts == 0 {
            return None;
        }
        let m = max_attempts as u128;
        let d = delay_increment_ms as u128;
        assert(m * d <= 0xffff_ffffu128 * 0xffff_ffff_ffff_ffffu128) by (nonlinear_arith)
            requires m <= 0xffff_ffffu128, d <= 0xffff_ffff_ffff_ffffu128, m >= 0, d >= 0;
        let total = m * d + initial_delay_ms as u128;
        if total > u64::MAX as u128 {
            return None;
        }
        Some(p)
    }

    /// The wait after the failed attempt with index `k`.
    pub fn delay_after(&self, k: u32) -> (r: u64)
        requires
            self.wf(),
            k <= self.max_attempts,
        ensures
            r == delay_spec(*self, k as int),
    {
        proof {
            lemma_delay_monotone(*self, k as int, self.max_attempts as int);
            assert(k as int * self.delay_increment_ms >= 0) by (nonlinear_arith)
                requires k >= 0, self.delay_increment_ms >= 0;
        }
        self.initial_delay_ms + (k as u64) * self.delay_increment_ms
    }
}

/// Waits do not shrink from one attempt to a later one.
pub proof fn lemma_delay_monotone(p: RetryPolicy, i: int, j: int)
    requires
        0 <= i <= j,
    ensures
        delay_spec(p, i) <= delay_spec(p, j),
{
    assert(i * p.delay_increment_ms <= j * p.delay_increment_ms) by (nonlinear_arith)
        requires i <= j, p.delay_increment_ms >= 0;
}

/// What the caller does next.
#[derive(Debug)]
pub enum RetryStep<T, E> {
    /// The attempt succeeded with this value.
    Succeeded(T),
    /// Sleep this many milliseconds, then attempt again.
    Wait(u64),
    /// No attempt is left: the last error and how many attempts were made.
    Exhausted { error: E, attempts: u32 },
}

/// How many attempts have been made so far.
#[derive(Debug, Clone, Copy)]
pub struct RetryState {
    pub attempts_made: u32,
}

impl RetryState {
    pub fn new() -> (r: Self)
        ensures
            r.attempts_made == 0,
    {
        RetryState { attempts_made: 0 }
    }

    /// Whether the policy allows another attempt.
    pub fn may_attempt(&self, policy: &RetryPolicy) -> (r: bool)
        ensures
            r == (self.attempts_made < policy.max_attempts),
    {
        self.attempts_made < policy.max_attempts
    }

    /// Records the outcome of the attempt just made and says what comes next.
    pub fn record<T, E>(&mut self, policy: &RetryPolicy, outcome: Result<T, E>) -> (r: RetryStep<T, E>)
        requires
            policy.wf(),
            old(self).attempts_made < policy.max_attempts,
        ensures
            final(self).attempts_made == old(self).attempts_made + 1,
            final(self).attempts_made <= policy.max_attempts,
            match outcome {
                Ok(v) => r == RetryStep::<T, E>::Succeeded(v),
                Err(e) => if final(self).attempts_made < policy.max_attempts {
                    r == RetryStep::<T, E>::Wait(delay_spec(*policy, old(self).attempts_made as int) as u64)
                } else {
                    r == RetryStep::<T, E>::Exhausted { error: e, attempts: final(self).attempts_made }
                },
            },
    {
        let k = self.attempts_made;
        self.attempts_made = k + 1;
        match outcome {
            Ok(v) => RetryStep::Succeeded(v),
            Err(e) => {
                if self.attempts_made < policy.max_attempts {
                    RetryStep::Wait(policy.delay_after(k))
                } else {
                    RetryStep::Exhausted { error: e, attempts: self.attempts_made }
                }
            },
        }
    }
}

/// Under a well-formed policy, each wait the driver asks for fits in a `u64`
/// and is no shorter than the one before it.
pub proof fn lemma_waits_grow(p: RetryPolicy, k: int)
    requires
        p.wf(),
        0 <= k,
        k + 1 < p.max_attempts,
    ensures
        delay_spec(p, k) <= delay_spec(p, k + 1),
        delay_spec(p, k + 1) <= u64::MAX,
{
    lemma_delay_monotone(p, k, k + 1);
    lemma_delay_monotone(p, k + 1, p.max_attempts as int);
}

} // verus!
