use vstd::prelude::*;

verus! {

/// Two to the power `n`.
pub open spec fn pow2(n: nat) -> nat
    decreases n,
{
    if n == 0 {
        1
    } else {
        2 * pow2((n - 1) as nat)
    }
}

/// `pow2` never decreases as its exponent grows.
pub proof fn lemma_pow2_monotone(a: nat, b: nat)
    requires
        a <= b,
    ensures
        pow2(a) <= pow2(b),
    decreases b,
{
    if a < b {
        lemma_pow2_monotone(a, (b - 1) as nat);
    }
}

/// How often an operation is attempted and how long to wait in between.
#[derive(PartialEq, Eq, Structural, Debug, Clone, Copy)]
pub struct RetryPolicy {
    pub max_attempts: u32,
    pub backoff_base_ms: u64,
}

/// Why a retry policy was rejected.
#[derive(PartialEq, Eq, Structural, Debug, Clone, Copy)]
pub enum RetryPolicyError {
    /// At least one attempt is needed.
    ZeroAttempts,
    /// The longest backoff would not fit in 64 bits of milliseconds.
    BackoffOverflow,
}

/// What to do after a failed attempt.
#[derive(PartialEq, Eq, Structural, Debug, Clone, Copy)]
pub enum RetryDecision {
    /// Sleep this many milliseconds, then make the next attempt.
    Retry { delay_ms: u64 },
    /// Attempts are exhausted: surface the last error.
    GiveUp,
}

impl RetryPolicy {
    /// The backoff slept before attempt `attempt` (0-indexed): `base * 2^attempt`.
    pub open spec fn delay_spec(&self, attempt: nat) -> nat {
        (self.backoff_base_ms * pow2(attempt)) as nat
    }

    /// At least one attempt, and every backoff fits in a `u64`.
    pub open spec fn wf(&self) -> bool {
        &&& self.max_attempts >= 1
        &&& self.delay_spec((self.max_attempts - 1) as nat) <= u64::MAX
    }

    /// The decision after attempt `attempt` (0-indexed) has failed.
    pub open spec fn after_failure_spec(&self, attempt: nat) -> RetryDecision {
        if attempt + 1 < self.max_attempts {
            RetryDecision::Retry { delay_ms: self.delay_spec(attempt + 1) as u64 }
        } else {
            RetryDecision::GiveUp
        }
    }

    /// Builds a policy, rejecting zero attempts and backoffs that overflow.
    pub fn new(max_attempts: u32, backoff_base_ms: u64) -> (r: Result<RetryPolicy, RetryPolicyError>)
        ensures
            max_attempts == 0 ==> r == Err::<RetryPolicy, RetryPolicyError>(
                RetryPolicyError::ZeroAttempts,
            ),
            max_attempts >= 1 && backoff_base_ms * pow2((max_attempts - 1) as nat) > u64::MAX
                ==> r == Err::<RetryPolicy, RetryPolicyError>(RetryPolicyError::BackoffOverflow),
            max_attempts >= 1 && backoff_base_ms * pow2((max_attempts - 1) as nat) <= u64::MAX
                ==> r == Ok::<RetryPolicy, RetryPolicyError>(
                (RetryPolicy { max_attempts, backoff_base_ms }),
            ),
            r matches Ok(p) ==> p.wf(),
    {
        if max_attempts == 0 {
            return Err(RetryPolicyError::ZeroAttempts);
        }
        let mut d: u64 = backoff_base_ms;
        let mut k: u32 = 0;
        assert(pow2(0) == 1);
        while k < max_attempts - 1
            invariant
                k <= max_attempts - 1,
                d == backoff_base_ms * pow2(k as nat),
            decreases max_attempts - 1 - k,
        {
            proof {
                assert(pow2((k + 1) as nat) == 2 * pow2(k as nat));
                assert(backoff_base_ms * (2 * pow2(k as nat)) == 2 * (backoff_base_ms * pow2(
                    k as nat,
                ))) by (nonlinear_arith);
                lemma_pow2_monotone((k + 1) as nat, (max_attempts - 1) as nat);
                assert(backoff_base_ms * pow2((k + 1) as nat) <= backoff_base_ms * pow2(
                    (max_attempts - 1) as nat,
                )) by (nonlinear_arith)
                    requires
                        pow2((k + 1) as nat) <= pow2((max_attempts - 1) as nat),
                ;
            }
            match d.checked_mul(2) {
                Some(v) => d = v,
                None => return Err(RetryPolicyError::BackoffOverflow),
            }
            k = k + 1;
        }
        Ok(RetryPolicy { max_attempts, backoff_base_ms })
    }

    /// The backoff slept before attempt `attempt`, in milliseconds.
    pub fn delay_before(&self, attempt: u32) -> (r: u64)
        requires
            self.wf(),
            attempt < self.max_attempts,
        ensures
            r == self.delay_spec(attempt as nat),
    {
        let mut d: u64 = self.backoff_base_ms;
        let mut k: u32 = 0;
        assert(pow2(0) == 1);
        while k < attempt
            invariant
                self.wf(),
                k <= attempt < self.max_attempts,
                d == self.delay_spec(k as nat),
            decreases attempt - k,
        {
            proof {
                assert(pow2((k + 1) as nat) == 2 * pow2(k as nat));
                assert(self.backoff_base_ms * (2 * pow2(k as nat)) == 2 * (self.backoff_base_ms
                    * pow2(k as nat))) by (nonlinear_arith);
                lemma_pow2_monotone((k + 1) as nat, (self.max_attempts - 1) as nat);
                assert(self.backoff_base_ms * pow2((k + 1) as nat) <= self.backoff_base_ms * pow2(
                    (self.max_attempts - 1) as nat,
                )) by (nonlinear_arith)
                    requires
                        pow2((k + 1) as nat) <= pow2((self.max_attempts - 1) as nat),
                ;
            }
            d = d * 2;
            k = k + 1;
        }
        d
    }

    /// Decides what follows the failure of attempt `attempt` (0-indexed):
    /// another attempt after `base * 2^(attempt + 1)` ms while attempts remain,
    /// otherwise giving up.
    pub fn after_failure(&self, attempt: u32) -> (r: RetryDecision)
        requires
            self.wf(),
            attempt < self.max_attempts,
        ensures
            r == self.after_failure_spec(attempt as nat),
    {
        if attempt + 1 < self.max_attempts {
            let d = self.delay_before(attempt + 1);
            RetryDecision::Retry { delay_ms: d }
        } else {
            RetryDecision::GiveUp
        }
    }
}

/// A whole run of the retry loop, from attempt `i` on: the number of
/// invocations, the backoffs slept in order (ms), and the 0-indexed attempt
/// that succeeded, if any. `outcomes[j]` tells whether attempt `j` succeeds;
/// attempts past its end fail.
pub open spec fn run_from(p: RetryPolicy, outcomes: Seq<bool>, i: nat) -> (nat, Seq<nat>, Option<nat>)
    decreases p.max_attempts - i,
{
    if i >= p.max_attempts {
        (0, Seq::empty(), None)
    } else if i < outcomes.len() && outcomes[i as int] {
        (1, Seq::empty(), Some(i))
    } else {
        match p.after_failure_spec(i) {
            RetryDecision::Retry { delay_ms } => {
                let rest = run_from(p, outcomes, i + 1);
                (rest.0 + 1, seq![delay_ms as nat] + rest.1, rest.2)
            },
            RetryDecision::GiveUp => (1, Seq::empty(), None),
        }
    }
}

/// A whole run of the retry loop from its first attempt.
pub open spec fn retry_run(p: RetryPolicy, outcomes: Seq<bool>) -> (nat, Seq<nat>, Option<nat>) {
    run_from(p, outcomes, 0)
}

/// Every backoff of a well-formed policy fits in a `u64`.
pub proof fn lemma_delay_fits(p: RetryPolicy, a: nat)
    requires
        p.wf(),
        a < p.max_attempts,
    ensures
        p.delay_spec(a) <= u64::MAX,
{
    lemma_pow2_monotone(a, (p.max_attempts - 1) as nat);
    assert(p.backoff_base_ms * pow2(a) <= p.backoff_base_ms * pow2((p.max_attempts - 1) as nat))
        by (nonlinear_arith)
        requires
            pow2(a) <= pow2((p.max_attempts - 1) as nat),
    ;
}

proof fn lemma_exhausted_from(p: RetryPolicy, outcomes: Seq<bool>, i: nat)
    requires
        p.wf(),
        i < p.max_attempts,
        forall|j: int| 0 <= j < outcomes.len() ==> !outcomes[j],
    ensures
        run_from(p, outcomes, i).0 == p.max_attempts - i,
        run_from(p, outcomes, i).1 =~= Seq::new(
            (p.max_attempts - 1 - i) as nat,
            |j: int| p.delay_spec((i + 1 + j) as nat),
        ),
        run_from(p, outcomes, i).2 is None,
    decreases p.max_attempts - i,
{
    if i + 1 < p.max_attempts {
        lemma_exhausted_from(p, outcomes, i + 1);
        lemma_delay_fits(p, i + 1);
    }
}

/// An operation that always fails is invoked exactly `max_attempts` times,
/// with `max_attempts - 1` backoffs of `base * 2^1, ..., base * 2^(max_attempts - 1)`
/// in between, and the run ends without success.
pub proof fn lemma_permanent_failure(p: RetryPolicy, outcomes: Seq<bool>)
    requires
        p.wf(),
        forall|j: int| 0 <= j < outcomes.len() ==> !outcomes[j],
    ensures
        retry_run(p, outcomes).0 == p.max_attempts,
        retry_run(p, outcomes).1 =~= Seq::new(
            (p.max_attempts - 1) as nat,
            |j: int| (p.backoff_base_ms * pow2((j + 1) as nat)) as nat,
        ),
        retry_run(p, outcomes).2 is None,
{
    lemma_exhausted_from(p, outcomes, 0);
}

proof fn lemma_success_from(p: RetryPolicy, outcomes: Seq<bool>, k: nat, i: nat)
    requires
        p.wf(),
        1 <= k <= p.max_attempts,
        k <= outcomes.len(),
        outcomes[k - 1],
        forall|j: int| 0 <= j < k - 1 ==> !outcomes[j],
        i < k,
    ensures
        run_from(p, outcomes, i).0 == k - i,
        run_from(p, outcomes, i).1 =~= Seq::new(
            (k - 1 - i) as nat,
            |j: int| p.delay_spec((i + 1 + j) as nat),
        ),
        run_from(p, outcomes, i).2 == Some((k - 1) as nat),
    decreases k - i,
{
    if i + 1 < k {
        lemma_success_from(p, outcomes, k, i + 1);
        lemma_delay_fits(p, i + 1);
    }
}

/// An operation that first succeeds on attempt `k` (1-indexed, `k <= max_attempts`)
/// is invoked exactly `k` times, and the run returns that attempt's success.
pub proof fn lemma_success_on_attempt(p: RetryPolicy, outcomes: Seq<bool>, k: nat)
    requires
        p.wf(),
        1 <= k <= p.max_attempts,
        k <= outcomes.len(),
        outcomes[k - 1],
        forall|j: int| 0 <= j < k - 1 ==> !outcomes[j],
    ensures
        retry_run(p, outcomes).0 == k,
        retry_run(p, outcomes).1.len() == k - 1,
        retry_run(p, outcomes).2 == Some((k - 1) as nat),
{
    lemma_success_from(p, outcomes, k, 0);
}

} // verus!
