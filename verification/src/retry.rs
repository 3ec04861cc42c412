//! Bounded retry with jittered exponential backoff.
//!
//! The asynchronous loop around the provider call lives outside the library;
//! what it decides is all here: `RetryState` is stepped once per failed
//! attempt and says whether to retry (and after how long a delay) or to give
//! up, and the spec model `retry_invocations` / `retry_succeeds` pins down
//! how many invocations a whole run makes over any sequence of outcomes.

use vstd::prelude::*;
use crate::config::RetryConfig;

verus! {

/// Relies on `rand::random::<u64>()`; nothing is assumed of the value.
#[verifier::external_body]
fn random_u64() -> u64 {
    rand::random::<u64>()
}

/// What the retry loop should do after a failed attempt.
#[derive(Debug, Clone, Copy, PartialEq, Eq, Structural)]
pub enum RetryDirective {
    /// Sleep this many milliseconds, then invoke the operation again.
    Retry { delay_ms: u64 },
    /// Attempts are exhausted: return the last error unchanged.
    GiveUp,
}

/// The retry loop's state: how many attempts were made and the current
/// exponential backoff.
#[derive(Debug, Clone, PartialEq, Eq, Structural)]
pub struct RetryState {
    pub config: RetryConfig,
    /// Attempts made so far.
    pub attempts: u32,
    /// Backoff base for the next delay: `backoff_base_ms * 2^attempts`,
    /// saturating.
    pub backoff_ms: u64,
}

impl RetryState {
    /// A fresh schedule for one operation.
    pub fn new(config: &RetryConfig) -> (r: RetryState)
        ensures
            r.config == *config,
            r.attempts == 0,
            r.backoff_ms == config.backoff_base_ms,
    {
        RetryState { config: *config, attempts: 0, backoff_ms: config.backoff_base_ms }
    }

    /// Steps the schedule after a failed attempt. Gives up exactly when the
    /// attempt count reaches `max_attempts`; otherwise directs the caller to
    /// sleep `backoff + jitter` milliseconds, where `jitter` is a fresh
    /// random value below `backoff_base_ms`, and doubles the backoff
    /// (saturating, as is the sum).
    pub fn on_failure(&mut self) -> (r: RetryDirective)
        requires
            old(self).attempts < u32::MAX,
            old(self).config.backoff_base_ms > 0,
        ensures
            final(self).config == old(self).config,
            final(self).attempts == old(self).attempts + 1,
            r is GiveUp <==> old(self).attempts + 1 >= old(self).config.max_attempts,
            r is GiveUp ==> final(self).backoff_ms == old(self).backoff_ms,
            match r {
                RetryDirective::Retry { delay_ms } => old(self).backoff_ms <= delay_ms
                    && delay_ms as int <= if old(self).backoff_ms + old(
                    self,
                ).config.backoff_base_ms - 1 <= u64::MAX {
                    old(self).backoff_ms + old(self).config.backoff_base_ms - 1
                } else {
                    u64::MAX as int
                },
                RetryDirective::GiveUp => true,
            },
            !(r is GiveUp) ==> final(self).backoff_ms == if 2 * old(self).backoff_ms <= u64::MAX {
                (2 * old(self).backoff_ms) as u64
            } else {
                u64::MAX
            },
    {
        self.attempts = self.attempts + 1;
        if self.attempts >= self.config.max_attempts {
            return RetryDirective::GiveUp;
        }
        let jitter = random_u64() % self.config.backoff_base_ms;
        let delay = if self.backoff_ms <= u64::MAX - jitter {
            self.backoff_ms + jitter
        } else {
            u64::MAX
        };
        let old_backoff = self.backoff_ms;
        self.backoff_ms = if old_backoff <= u64::MAX / 2 {
            2 * old_backoff
        } else {
            u64::MAX
        };
        RetryDirective::Retry { delay_ms: delay }
    }
}

/// The index of the first successful attempt in `outcomes`, or
/// `outcomes.len()` if every attempt fails.
pub open spec fn first_success(outcomes: Seq<bool>) -> int
    decreases outcomes.len(),
{
    if outcomes.len() == 0 {
        0
    } else if outcomes[0] {
        0
    } else {
        1 + first_success(outcomes.drop_first())
    }
}

/// Whether a retry run over `outcomes` with this attempt bound succeeds:
/// some attempt among the first `max_attempts` succeeds.
pub open spec fn retry_succeeds(outcomes: Seq<bool>, max_attempts: int) -> bool {
    exists|i: int| 0 <= i < max_attempts && i < outcomes.len() && outcomes[i]
}

/// How many times a retry run over `outcomes` invokes the operation: up to
/// and including the first success, and exactly `max_attempts` when no
/// attempt within the bound succeeds. The bound is taken as at least one:
/// the operation is always invoked once.
pub open spec fn retry_invocations(outcomes: Seq<bool>, max_attempts: int) -> int {
    let bound = if max_attempts >= 1 {
        max_attempts
    } else {
        1
    };
    if retry_succeeds(outcomes, bound) {
        first_success(outcomes) + 1
    } else {
        bound
    }
}

proof fn lemma_first_success_bounds(outcomes: Seq<bool>)
    ensures
        0 <= first_success(outcomes) <= outcomes.len(),
        forall|i: int| 0 <= i < first_success(outcomes) ==> !outcomes[i],
        first_success(outcomes) < outcomes.len() ==> outcomes[first_success(outcomes)],
    decreases outcomes.len(),
{
    if outcomes.len() > 0 && !outcomes[0] {
        lemma_first_success_bounds(outcomes.drop_first());
        assert forall|i: int| 0 <= i < first_success(outcomes) implies !outcomes[i] by {
            if i >= 1 {
                assert(outcomes.drop_first()[i - 1] == outcomes[i]);
            }
        };
        if first_success(outcomes) < outcomes.len() {
            assert(outcomes.drop_first()[first_success(outcomes.drop_first())] == outcomes[
                first_success(outcomes)]);
        }
    }
}

/// Retry exhaustion: over outcomes that all fail, the run makes exactly
/// `max_attempts` invocations — never more, never fewer — and fails.
pub proof fn lemma_retry_exhaustion(outcomes: Seq<bool>, max_attempts: int)
    requires
        max_attempts >= 1,
        forall|i: int| 0 <= i < outcomes.len() ==> !outcomes[i],
    ensures
        retry_invocations(outcomes, max_attempts) == max_attempts,
        !retry_succeeds(outcomes, max_attempts),
{
}

/// Retry success: if the first `s` attempts fail and attempt `s + 1`
/// succeeds within the bound, the run succeeds after exactly `s + 1`
/// invocations.
pub proof fn lemma_retry_success(outcomes: Seq<bool>, max_attempts: int, s: int)
    requires
        0 <= s < max_attempts,
        s < outcomes.len(),
        outcomes[s],
        forall|i: int| 0 <= i < s ==> !outcomes[i],
    ensures
        retry_succeeds(outcomes, max_attempts),
        retry_invocations(outcomes, max_attempts) == s + 1,
{
    lemma_first_success_bounds(outcomes);
    if first_success(outcomes) < s {
        assert(!outcomes[first_success(outcomes)]);
        assert(false);
    }
    if first_success(outcomes) > s {
        assert(!outcomes[s]);
        assert(false);
    }
}

/// Drives a whole retry schedule over a fixed sequence of attempt outcomes,
/// exactly as the executor's loop drives it around the provider call, and
/// returns how many invocations were made and whether the run succeeded.
pub fn run_retry_schedule(outcomes: &Vec<bool>, config: &RetryConfig) -> (r: (u32, bool))
    requires
        config.backoff_base_ms > 0,
        outcomes@.len() >= config.max_attempts,
        outcomes@.len() >= 1,
        outcomes@.len() < u32::MAX,
    ensures
        r.0 as int == retry_invocations(outcomes@, config.max_attempts as int),
        r.1 == retry_succeeds(
            outcomes@,
            if config.max_attempts >= 1 {
                config.max_attempts as int
            } else {
                1
            },
        ),
{
    let ghost bound: int = if config.max_attempts >= 1 {
        config.max_attempts as int
    } else {
        1
    };
    let mut state = RetryState::new(config);
    let n = outcomes.len();
    proof {
        lemma_first_success_bounds(outcomes@);
    }
    loop
        invariant
            state.config == *config,
            config.backoff_base_ms > 0,
            n == outcomes@.len(),
            n >= config.max_attempts,
            1 <= n < u32::MAX,
            bound == if config.max_attempts >= 1 { config.max_attempts as int } else { 1 },
            (state.attempts as int) < n,
            state.attempts as int <= first_success(outcomes@),
            forall|i: int| 0 <= i < state.attempts ==> !outcomes@[i],
            (state.attempts as int) < bound,
        decreases n - state.attempts,
    {
        let idx = state.attempts as usize;
        if outcomes[idx] {
            // a success counts as one more invocation; the run ends here
            proof {
                lemma_retry_success(outcomes@, bound, idx as int);
            }
            let made = state.attempts + 1;
            return (made, true);
        }
        let ghost old_attempts = state.attempts as int;
        let directive = state.on_failure();
        proof {
            assert forall|i: int| 0 <= i < state.attempts implies !outcomes@[i] by {
                if i < old_attempts {
                } else {
                    assert(i == old_attempts);
                }
            };
        }
        match directive {
            RetryDirective::GiveUp => {
                proof {
                    assert(state.attempts as int == bound);
                    assert(!retry_succeeds(outcomes@, bound));
                }
                return (state.attempts, false);
            },
            RetryDirective::Retry { .. } => {
                proof {
                    lemma_first_success_bounds(outcomes@);
                    if first_success(outcomes@) < state.attempts as int {
                        assert(outcomes@[first_success(outcomes@)]);
                        assert(false);
                    }
                }
            },
        }
    }
}

} // verus!
