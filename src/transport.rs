//! Retry policy of the resilient transport.
//!
//! The transport retries a request only after a retryable failure, waits a
//! fixed delay between attempts and makes at most `max_retries + 1` attempts.
//! The network call itself is made by the caller; this module decides, after
//! each attempt, whether to stop or to wait and try again.
use vstd::prelude::*;
use crate::error::DomainError;

verus! {

/// Bounded retries with a fixed delay.
#[derive(Clone, Copy, Debug, PartialEq, Eq, Structural)]
pub struct RetryPolicy {
    pub max_retries: u32,
    pub retry_delay_ms: u64,
}

/// What the transport does after an attempt.
#[derive(Clone, Copy, Debug, PartialEq, Eq, Structural)]
pub enum RetryDecision {
    /// Hand the attempt's outcome to the caller.
    Finish,
    /// Wait this many milliseconds, then make the next attempt.
    RetryAfter(u64),
}

/// The outcome of a request made under a retry policy.
pub struct RetryRun<T> {
    /// The outcome handed to the caller.
    pub result: Result<T, DomainError>,
    /// How many attempts were made.
    pub attempts: u64,
    /// The waits observed between attempts, in order.
    pub delays_ms: Vec<u64>,
}

/// Retries made by default after the first attempt.
pub const DEFAULT_MAX_RETRIES: u32 = 3;

/// Default wait between two attempts, in milliseconds.
pub const DEFAULT_RETRY_DELAY_MS: u64 = 500;

impl RetryPolicy {
    pub fn new(max_retries: u32, retry_delay_ms: u64) -> (r: RetryPolicy)
        ensures
            r.max_retries == max_retries,
            r.retry_delay_ms == retry_delay_ms,
    {
        RetryPolicy { max_retries, retry_delay_ms }
    }

    /// Three retries, half a second apart.
    pub fn default_policy() -> (r: RetryPolicy)
        ensures
            r.max_retries == 3,
            r.retry_delay_ms == 500,
    {
        RetryPolicy { max_retries: DEFAULT_MAX_RETRIES, retry_delay_ms: DEFAULT_RETRY_DELAY_MS }
    }

    /// After attempt number `attempt` (the first is 0): a success or a fatal
    /// failure finishes, and so does a retryable failure once the retries are
    /// spent; any other failure waits the fixed delay and tries again.
    pub open spec fn spec_decide<T>(self, attempt: int, outcome: Result<T, DomainError>) -> RetryDecision {
        match outcome {
            Ok(_) => RetryDecision::Finish,
            Err(e) => if e.retryable() && attempt < self.max_retries {
                RetryDecision::RetryAfter(self.retry_delay_ms)
            } else {
                RetryDecision::Finish
            },
        }
    }

    /// The attempt, counted from `i`, whose outcome a transport answering with
    /// `outcomes` hands back.
    pub open spec fn final_from<T>(self, outcomes: Seq<Result<T, DomainError>>, i: int) -> int
        decreases self.max_retries - i,
    {
        if i >= self.max_retries || self.spec_decide(i, outcomes[i]) is Finish {
            i
        } else {
            self.final_from(outcomes, i + 1)
        }
    }

    proof fn lemma_final_bounds<T>(self, outcomes: Seq<Result<T, DomainError>>, i: int)
        requires
            0 <= i,
        ensures
            i <= self.final_from(outcomes, i),
            i <= self.max_retries ==> self.final_from(outcomes, i) <= self.max_retries,
            i > self.max_retries ==> self.final_from(outcomes, i) == i,
        decreases self.max_retries - i,
    {
        if i < self.max_retries && self.spec_decide(i, outcomes[i]) is RetryAfter {
            self.lemma_final_bounds(outcomes, i + 1);
        }
    }

    /// The attempt whose outcome is handed back.
    pub open spec fn final_attempt<T>(self, outcomes: Seq<Result<T, DomainError>>) -> int {
        self.final_from(outcomes, 0)
    }

    pub fn decide<T>(&self, attempt: u32, outcome: &Result<T, DomainError>) -> (r: RetryDecision)
        ensures
            r == self.spec_decide(attempt as int, *outcome),
    {
        match outcome {
            Ok(_) => RetryDecision::Finish,
            Err(e) => {
                if e.is_retryable() && attempt < self.max_retries {
                    RetryDecision::RetryAfter(self.retry_delay_ms)
                } else {
                    RetryDecision::Finish
                }
            },
        }
    }

    /// Runs the policy against a transport whose successive attempts answer
    /// with `outcomes`, one entry per attempt it may be asked for.
    pub fn run<T>(&self, outcomes: Vec<Result<T, DomainError>>) -> (r: RetryRun<T>)
        requires
            outcomes.len() > self.max_retries,
        ensures
            0 <= self.final_attempt(outcomes@) <= self.max_retries,
            r.attempts == self.final_attempt(outcomes@) + 1,
            r.result == outcomes@[self.final_attempt(outcomes@)],
            r.delays_ms@ == Seq::new((r.attempts - 1) as nat, |_i: int| self.retry_delay_ms),
    {
        let mut outcomes = outcomes;
        let ghost script = outcomes@;
        let mut attempt: u32 = 0;
        let mut delays: Vec<u64> = Vec::new();
        proof {
            self.lemma_final_bounds(script, 0);
        }
        loop
            invariant
                outcomes@ == script,
                0 <= self.final_from(script, attempt as int) <= self.max_retries,
                script.len() > self.max_retries,
                attempt <= self.max_retries,
                self.final_from(script, 0) == self.final_from(script, attempt as int),
                delays@ == Seq::new(attempt as nat, |_i: int| self.retry_delay_ms),
            ensures
                outcomes@ == script,
                attempt <= self.max_retries,
                self.final_from(script, 0) == attempt,
                delays@ == Seq::new(attempt as nat, |_i: int| self.retry_delay_ms),
            decreases self.max_retries - attempt,
        {
            proof {
                self.lemma_final_bounds(script, attempt as int + 1);
            }
            match self.decide(attempt, &outcomes[attempt as usize]) {
                RetryDecision::Finish => {
                    break;
                },
                RetryDecision::RetryAfter(delay) => {
                    delays.push(delay);
                    attempt = attempt + 1;
                    assert(delays@ =~= Seq::new(attempt as nat, |_i: int| self.retry_delay_ms));
                },
            }
        }
        let result = outcomes.remove(attempt as usize);
        RetryRun { result, attempts: attempt as u64 + 1, delays_ms: delays }
    }
}

/// A transport for tests and simulations: its first `failures` attempts fail
/// with `error`, every later one answers `response`.
pub struct FakeTransport {
    pub failures: u32,
    pub error: DomainError,
    pub response: String,
}

impl FakeTransport {
    /// The answer to attempt number `attempt` (the first is 0).
    pub open spec fn answer(&self, attempt: int) -> Result<String, DomainError> {
        if attempt < self.failures {
            Err(self.error)
        } else {
            Ok(self.response)
        }
    }

    /// The answers to the first `attempts` attempts, in order.
    pub fn outcomes(&self, attempts: usize) -> (r: Vec<Result<String, DomainError>>)
        ensures
            r.len() == attempts,
            forall|i: int| 0 <= i < attempts ==> #[trigger] r@[i] == self.answer(i),
    {
        let mut r: Vec<Result<String, DomainError>> = Vec::new();
        let mut i: usize = 0;
        while i < attempts
            invariant
                i <= attempts,
                r.len() == i,
                forall|j: int| 0 <= j < i ==> #[trigger] r@[j] == self.answer(j),
            decreases attempts - i,
        {
            if (i as u64) < (self.failures as u64) {
                r.push(Err(self.error.duplicate()));
            } else {
                r.push(Ok(self.response.clone()));
            }
            i = i + 1;
        }
        r
    }
}

/// Outcomes that follow the fake transport's script.
pub open spec fn follows_script(t: FakeTransport, outcomes: Seq<Result<String, DomainError>>) -> bool {
    forall|i: int| 0 <= i < outcomes.len() ==> #[trigger] outcomes[i] == t.answer(i)
}

proof fn lemma_scripted_final_from(
    policy: RetryPolicy,
    t: FakeTransport,
    outcomes: Seq<Result<String, DomainError>>,
    i: int,
)
    requires
        t.error.retryable(),
        outcomes.len() > policy.max_retries,
        follows_script(t, outcomes),
        0 <= i,
        i <= t.failures,
        i <= policy.max_retries,
    ensures
        policy.final_from(outcomes, i) == if t.failures <= policy.max_retries {
            t.failures as int
        } else {
            policy.max_retries as int
        },
    decreases policy.max_retries - i,
{
    if i < t.failures && i < policy.max_retries {
        assert(outcomes[i] == t.answer(i));
        lemma_scripted_final_from(policy, t, outcomes, i + 1);
    } else if i < policy.max_retries {
        assert(outcomes[i] == t.answer(i));
    }
}

/// A transport that fails with a retryable error on its first `failures`
/// attempts and then succeeds is answered by its first success, made at
/// attempt `failures + 1`, as long as the retries allow that many attempts
/// (with three retries: two failures, then success from the third attempt).
pub proof fn lemma_transient_failures_then_success(
    policy: RetryPolicy,
    t: FakeTransport,
    outcomes: Seq<Result<String, DomainError>>,
)
    requires
        t.error.retryable(),
        t.failures <= policy.max_retries,
        outcomes.len() > policy.max_retries,
        follows_script(t, outcomes),
    ensures
        policy.final_attempt(outcomes) == t.failures,
        outcomes[policy.final_attempt(outcomes)] == Ok::<String, DomainError>(t.response),
{
    lemma_scripted_final_from(policy, t, outcomes, 0);
    assert(outcomes[t.failures as int] == t.answer(t.failures as int));
}

/// A transport that keeps failing with a retryable error past the retries is
/// answered by the error of the last permitted attempt, attempt
/// `max_retries + 1` (with three retries: the fourth error).
pub proof fn lemma_retries_exhausted(
    policy: RetryPolicy,
    t: FakeTransport,
    outcomes: Seq<Result<String, DomainError>>,
)
    requires
        t.error.retryable(),
        t.failures > policy.max_retries,
        outcomes.len() > policy.max_retries,
        follows_script(t, outcomes),
    ensures
        policy.final_attempt(outcomes) == policy.max_retries,
        outcomes[policy.final_attempt(outcomes)] == Err::<String, DomainError>(t.error),
{
    lemma_scripted_final_from(policy, t, outcomes, 0);
    assert(outcomes[policy.max_retries as int] == t.answer(policy.max_retries as int));
}

/// A first attempt that fails with an error that is not retryable is handed
/// back at once: one attempt, and so no wait.
pub proof fn lemma_fatal_error_not_retried<T>(
    policy: RetryPolicy,
    outcomes: Seq<Result<T, DomainError>>,
)
    requires
        outcomes.len() > 0,
        outcomes[0] is Err,
        !outcomes[0]->Err_0.retryable(),
    ensures
        policy.final_attempt(outcomes) == 0,
{
}

} // verus!
