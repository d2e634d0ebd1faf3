//! Exponential-backoff retry for unreliable remote operations.
//!
//! One configurable policy value is shared by every remote operation:
//! artifact-creation calls, commit calls, evidence-computation calls and
//! metadata fetches all wrap their call in the same executor.  On each
//! failure the error is classified: terminal errors propagate immediately
//! without consuming backoff budget, transient errors consume one backoff
//! step, and when no further step fits in the elapsed budget the last
//! error propagates.
use vstd::prelude::*;
use vstd::arithmetic::mul::lemma_mul_inequality;

verus! {

/// The backoff schedule: a first interval, a growth factor, a cap on the
/// interval, and a total elapsed budget.  No jitter is applied.
#[derive(Clone, Copy, Debug, PartialEq, Eq, Structural)]
pub struct RetryPolicy {
    pub initial_interval_ms: u64,
    pub max_interval_ms: u64,
    pub multiplier: u64,
    pub max_elapsed_ms: u64,
}

impl RetryPolicy {
    /// The bounds that keep every interval computation inside `u64`.
    pub open spec fn wf(self) -> bool {
        &&& 1 <= self.initial_interval_ms <= self.max_interval_ms
        &&& 1 <= self.multiplier
        &&& self.max_interval_ms * self.multiplier <= u64::MAX
        &&& self.max_elapsed_ms + self.max_interval_ms <= u64::MAX
    }

    /// The schedule used for every remote call: initial interval 1s,
    /// multiplier 2, interval capped at 16s, total budget 300s.
    pub fn standard() -> (r: RetryPolicy)
        ensures
            r.wf(),
            r.initial_interval_ms == 1000,
            r.max_interval_ms == 16000,
            r.multiplier == 2,
            r.max_elapsed_ms == 300000,
    {
        RetryPolicy {
            initial_interval_ms: 1000,
            max_interval_ms: 16000,
            multiplier: 2,
            max_elapsed_ms: 300000,
        }
    }
}

/// The wait granted by the `k`-th backoff step: the initial interval,
/// doubled (by the multiplier) at each step, capped at the maximum
/// interval.
pub open spec fn interval_at(policy: RetryPolicy, k: int) -> int
    decreases k,
{
    if k <= 0 {
        policy.initial_interval_ms as int
    } else {
        let prev = interval_at(policy, k - 1);
        if prev * policy.multiplier <= policy.max_interval_ms {
            prev * policy.multiplier
        } else {
            policy.max_interval_ms as int
        }
    }
}

/// The total wait after the first `k` backoff steps.
pub open spec fn wait_sum(policy: RetryPolicy, k: int) -> int
    decreases k,
{
    if k <= 0 {
        0
    } else {
        wait_sum(policy, k - 1) + interval_at(policy, k - 1)
    }
}

/// Whether the `k`-th backoff step still fits in the elapsed budget.
pub open spec fn step_granted(policy: RetryPolicy, k: int) -> bool {
    wait_sum(policy, k) + interval_at(policy, k) <= policy.max_elapsed_ms
}

pub proof fn lemma_interval_at_bounds(policy: RetryPolicy, k: int)
    requires
        policy.wf(),
    ensures
        1 <= interval_at(policy, k) <= policy.max_interval_ms,
    decreases (if k > 0 { k } else { 0 }),
{
    if k <= 0 {
    } else {
        lemma_interval_at_bounds(policy, k - 1);
        let prev = interval_at(policy, k - 1);
        assert(prev * policy.multiplier >= prev * 1) by (nonlinear_arith)
            requires
                prev >= 1,
                policy.multiplier >= 1,
        ;
    }
}

pub proof fn lemma_wait_sum_nonneg(policy: RetryPolicy, k: int)
    requires
        policy.wf(),
    ensures
        wait_sum(policy, k) >= 0,
    decreases (if k > 0 { k } else { 0 }),
{
    if k <= 0 {
    } else {
        lemma_wait_sum_nonneg(policy, k - 1);
        lemma_interval_at_bounds(policy, k - 1);
    }
}

/// The retry executor's state across attempts of one remote operation.
pub struct RetryExecutor {
    pub policy: RetryPolicy,
    pub current_interval_ms: u64,
    pub elapsed_ms: u64,
    pub steps: Ghost<int>,
}

impl RetryExecutor {
    pub open spec fn wf(self) -> bool {
        &&& self.policy.wf()
        &&& self.steps@ >= 0
        &&& self.current_interval_ms == interval_at(self.policy, self.steps@)
        &&& self.elapsed_ms == wait_sum(self.policy, self.steps@)
        &&& self.elapsed_ms <= self.policy.max_elapsed_ms
    }

    pub fn new(policy: &RetryPolicy) -> (r: RetryExecutor)
        requires
            policy.wf(),
        ensures
            r.wf(),
            r.policy == *policy,
            r.steps@ == 0,
            r.elapsed_ms == 0,
            r.current_interval_ms == policy.initial_interval_ms,
    {
        RetryExecutor {
            policy: *policy,
            current_interval_ms: policy.initial_interval_ms,
            elapsed_ms: 0,
            steps: Ghost(0),
        }
    }

    /// Grants the next wait interval if it fits in the budget, or `None`
    /// when the policy has no further step: the caller then propagates
    /// the last error.
    pub fn next_backoff(&mut self) -> (r: Option<u64>)
        requires
            old(self).wf(),
        ensures
            final(self).wf(),
            final(self).policy == old(self).policy,
            if step_granted(old(self).policy, old(self).steps@) {
                &&& r == Some(old(self).current_interval_ms)
                &&& final(self).steps@ == old(self).steps@ + 1
                &&& final(self).elapsed_ms == old(self).elapsed_ms + old(
                    self,
                ).current_interval_ms
            } else {
                &&& r is None
                &&& *final(self) == *old(self)
            },
    {
        proof {
            lemma_interval_at_bounds(self.policy, self.steps@);
            lemma_wait_sum_nonneg(self.policy, self.steps@);
        }
        if self.policy.max_elapsed_ms - self.elapsed_ms < self.current_interval_ms {
            return None;
        }
        let wait = self.current_interval_ms;
        self.elapsed_ms = self.elapsed_ms + wait;
        proof {
            lemma_mul_inequality(
                self.current_interval_ms as int,
                self.policy.max_interval_ms as int,
                self.policy.multiplier as int,
            );
        }
        let grown = self.current_interval_ms * self.policy.multiplier;
        self.current_interval_ms = if grown <= self.policy.max_interval_ms {
            grown
        } else {
            self.policy.max_interval_ms
        };
        proof {
            self.steps@ = self.steps@ + 1;
        }
        Some(wait)
    }
}

/// The outcome of one attempt of the wrapped operation.
#[derive(Clone, Copy, Debug, PartialEq, Eq, Structural)]
pub enum AttemptOutcome {
    Success,
    TransientFailure,
    TerminalFailure,
}

/// How one execution of the retry state machine ended, with the number of
/// attempts made and the total wait it accumulated.
#[derive(Clone, Copy, Debug, PartialEq, Eq, Structural)]
pub enum RetryRunResult {
    /// An attempt succeeded.
    Succeeded { attempts: u64, total_wait_ms: u64 },
    /// An attempt failed terminally: propagated immediately, no wait
    /// consumed for it.
    FailedTerminal { attempts: u64, total_wait_ms: u64 },
    /// Every attempt failed transiently and the budget granted no further
    /// step: the last error propagates.
    Exhausted { attempts: u64, total_wait_ms: u64 },
}

/// The outcome of attempt `i`: an operation that keeps failing produces
/// transient failures beyond the end of its script.
pub open spec fn spec_outcome_at(outcomes: Seq<AttemptOutcome>, i: int) -> AttemptOutcome {
    if 0 <= i < outcomes.len() {
        outcomes[i]
    } else {
        AttemptOutcome::TransientFailure
    }
}

/// The exact relation between an outcome script and the executor's
/// result: the run ends at the first decisive attempt, every earlier
/// attempt failed transiently within budget, and the total wait is the
/// sum of the granted intervals.
pub open spec fn retry_run_matches(
    policy: RetryPolicy,
    outcomes: Seq<AttemptOutcome>,
    r: RetryRunResult,
) -> bool {
    match r {
        RetryRunResult::Succeeded { attempts, total_wait_ms } => {
            &&& attempts >= 1
            &&& spec_outcome_at(outcomes, attempts - 1) is Success
            &&& forall|j: int|
                0 <= j < attempts - 1 ==> #[trigger] spec_outcome_at(outcomes, j)
                    is TransientFailure
            &&& forall|j: int| 0 <= j < attempts - 1 ==> #[trigger] step_granted(policy, j)
            &&& total_wait_ms == wait_sum(policy, attempts - 1)
        },
        RetryRunResult::FailedTerminal { attempts, total_wait_ms } => {
            &&& attempts >= 1
            &&& spec_outcome_at(outcomes, attempts - 1) is TerminalFailure
            &&& forall|j: int|
                0 <= j < attempts - 1 ==> #[trigger] spec_outcome_at(outcomes, j)
                    is TransientFailure
            &&& forall|j: int| 0 <= j < attempts - 1 ==> #[trigger] step_granted(policy, j)
            &&& total_wait_ms == wait_sum(policy, attempts - 1)
        },
        RetryRunResult::Exhausted { attempts, total_wait_ms } => {
            &&& attempts >= 1
            &&& forall|j: int|
                0 <= j < attempts ==> #[trigger] spec_outcome_at(outcomes, j)
                    is TransientFailure
            &&& forall|j: int| 0 <= j < attempts - 1 ==> #[trigger] step_granted(policy, j)
            &&& !step_granted(policy, attempts - 1)
            &&& total_wait_ms == wait_sum(policy, attempts - 1)
        },
    }
}

/// Runs the retry state machine over a script of attempt outcomes:
/// `Idle -> Attempt -> (Success | Wait -> Attempt | Exhausted)`.  The
/// caller that performs real remote calls drives `RetryExecutor`
/// identically, sleeping for each granted interval.
pub fn execute(policy: &RetryPolicy, outcomes: &Vec<AttemptOutcome>) -> (r: RetryRunResult)
    requires
        policy.wf(),
    ensures
        retry_run_matches(*policy, outcomes@, r),
{
    let mut exec = RetryExecutor::new(policy);
    let mut i: u64 = 0;
    loop
        invariant
            exec.wf(),
            exec.policy == *policy,
            exec.steps@ == i as int,
            i <= exec.elapsed_ms || i == 0,
            forall|j: int|
                0 <= j < i ==> #[trigger] spec_outcome_at(outcomes@, j) is TransientFailure,
            forall|j: int| 0 <= j < i ==> #[trigger] step_granted(*policy, j),
        decreases policy.max_elapsed_ms - exec.elapsed_ms,
    {
        let oc = if i < outcomes.len() as u64 {
            outcomes[i as usize]
        } else {
            AttemptOutcome::TransientFailure
        };
        proof {
            assert(oc == spec_outcome_at(outcomes@, i as int));
            lemma_interval_at_bounds(*policy, i as int);
        }
        match oc {
            AttemptOutcome::Success => {
                return RetryRunResult::Succeeded {
                    attempts: i + 1,
                    total_wait_ms: exec.elapsed_ms,
                };
            },
            AttemptOutcome::TerminalFailure => {
                return RetryRunResult::FailedTerminal {
                    attempts: i + 1,
                    total_wait_ms: exec.elapsed_ms,
                };
            },
            AttemptOutcome::TransientFailure => {
                let step = exec.next_backoff();
                match step {
                    Some(_wait_ms) => {
                        i = i + 1;
                    },
                    None => {
                        return RetryRunResult::Exhausted {
                            attempts: i + 1,
                            total_wait_ms: exec.elapsed_ms,
                        };
                    },
                }
            },
        }
    }
}

/// Retry short-circuit: an operation that fails with a terminal error on
/// its first attempt fails immediately, after exactly one attempt and
/// zero wait.
pub proof fn lemma_retry_short_circuit(
    policy: RetryPolicy,
    outcomes: Seq<AttemptOutcome>,
    r: RetryRunResult,
)
    requires
        policy.wf(),
        outcomes.len() > 0,
        outcomes[0] is TerminalFailure,
        retry_run_matches(policy, outcomes, r),
    ensures
        r == (RetryRunResult::FailedTerminal { attempts: 1, total_wait_ms: 0 }),
{
    match r {
        RetryRunResult::Succeeded { attempts, total_wait_ms } => {
            if attempts - 1 > 0 {
                assert(spec_outcome_at(outcomes, 0) is TransientFailure);
            } else {
                assert(spec_outcome_at(outcomes, 0) is Success);
            }
            assert(false);
        },
        RetryRunResult::FailedTerminal { attempts, total_wait_ms } => {
            if attempts - 1 > 0 {
                assert(spec_outcome_at(outcomes, 0) is TransientFailure);
                assert(false);
            }
        },
        RetryRunResult::Exhausted { attempts, total_wait_ms } => {
            assert(spec_outcome_at(outcomes, 0) is TransientFailure);
            assert(false);
        },
    }
}

/// Retry success: an operation that fails transiently on its first `k`
/// attempts and succeeds on the next returns success after `k + 1`
/// attempts, having waited the sum of the first `k` backoff intervals.
pub proof fn lemma_retry_success_after_transients(
    policy: RetryPolicy,
    outcomes: Seq<AttemptOutcome>,
    r: RetryRunResult,
    k: int,
)
    requires
        policy.wf(),
        0 <= k,
        forall|j: int| 0 <= j < k ==> #[trigger] spec_outcome_at(outcomes, j)
            is TransientFailure,
        spec_outcome_at(outcomes, k) is Success,
        forall|j: int| 0 <= j < k ==> #[trigger] step_granted(policy, j),
        retry_run_matches(policy, outcomes, r),
    ensures
        r == (RetryRunResult::Succeeded {
            attempts: (k + 1) as u64,
            total_wait_ms: wait_sum(policy, k) as u64,
        }),
{
    match r {
        RetryRunResult::Succeeded { attempts, total_wait_ms } => {
            if attempts - 1 < k {
                assert(spec_outcome_at(outcomes, attempts - 1) is TransientFailure);
                assert(false);
            }
            if attempts - 1 > k {
                assert(spec_outcome_at(outcomes, k) is TransientFailure);
                assert(false);
            }
        },
        RetryRunResult::FailedTerminal { attempts, total_wait_ms } => {
            if attempts - 1 < k {
                assert(spec_outcome_at(outcomes, attempts - 1) is TransientFailure);
            } else if attempts - 1 == k {
                assert(spec_outcome_at(outcomes, k) is Success);
            } else {
                assert(spec_outcome_at(outcomes, k) is TransientFailure);
            }
            assert(false);
        },
        RetryRunResult::Exhausted { attempts, total_wait_ms } => {
            if attempts - 1 < k {
                assert(step_granted(policy, attempts - 1));
                assert(false);
            } else if attempts - 1 == k {
                if k > 0 {
                    assert(spec_outcome_at(outcomes, k) is TransientFailure);
                } else {
                    assert(spec_outcome_at(outcomes, 0) is TransientFailure);
                }
                assert(false);
            } else {
                assert(spec_outcome_at(outcomes, k) is TransientFailure);
                assert(false);
            }
        },
    }
}

} // verus!
