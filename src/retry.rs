use vstd::prelude::*;

verus! {

/// How many times a stream is built before the session start gives up.
pub const MAX_ATTEMPTS: u32 = 3;

/// The pause between two attempts, in milliseconds.
pub const RETRY_BACKOFF_MS: u64 = 1000;

/// What to do after one attempt to build a stream.
#[derive(Clone, Copy, Debug, PartialEq, Eq, Structural)]
pub enum RetryDecision {
    /// The attempt succeeded: use its result.
    Succeeded,
    /// Sleep this many milliseconds, then try again.
    RetryAfter { millis: u64 },
    /// Every attempt failed: report the failure.
    GiveUp,
}

/// The decision after an attempt that ended as `succeeded`, when `failures`
/// attempts had failed before it.
pub open spec fn retry_decision(failures: nat, succeeded: bool) -> RetryDecision {
    if succeeded {
        RetryDecision::Succeeded
    } else if failures + 1 < MAX_ATTEMPTS {
        RetryDecision::RetryAfter { millis: RETRY_BACKOFF_MS }
    } else {
        RetryDecision::GiveUp
    }
}

/// Bounded retry with a fixed backoff between attempts.
#[derive(Clone, Copy, Debug, PartialEq, Eq, Structural)]
pub struct RetryPolicy {
    /// Attempts that have failed so far.
    pub failures: u32,
}

impl RetryPolicy {
    pub fn new() -> (r: RetryPolicy)
        ensures
            r.failures == 0,
    {
        RetryPolicy { failures: 0 }
    }

    /// Whether another attempt may still be made.
    pub open spec fn may_attempt(self) -> bool {
        self.failures < MAX_ATTEMPTS
    }

    /// Records the outcome of one attempt and says what to do next.
    pub fn record(&mut self, succeeded: bool) -> (r: RetryDecision)
        requires
            old(self).may_attempt(),
        ensures
            r == retry_decision(old(self).failures as nat, succeeded),
            final(self).failures == if succeeded {
                old(self).failures
            } else {
                (old(self).failures + 1) as u32
            },
            r matches RetryDecision::RetryAfter { .. } ==> final(self).may_attempt(),
    {
        if succeeded {
            RetryDecision::Succeeded
        } else {
            self.failures = self.failures + 1;
            if self.failures < MAX_ATTEMPTS {
                RetryDecision::RetryAfter { millis: RETRY_BACKOFF_MS }
            } else {
                RetryDecision::GiveUp
            }
        }
    }
}

/// Following the policy from `failures` earlier failures over the attempt
/// outcomes `outcomes`: whether a build succeeded, and the milliseconds slept.
pub open spec fn retry_run(failures: nat, outcomes: Seq<bool>) -> (bool, nat)
    decreases outcomes.len(),
{
    if outcomes.len() == 0 || failures >= MAX_ATTEMPTS {
        (false, 0)
    } else {
        match retry_decision(failures, outcomes[0]) {
            RetryDecision::Succeeded => (true, 0),
            RetryDecision::GiveUp => (false, 0),
            RetryDecision::RetryAfter { millis } => {
                let rest = retry_run(failures + 1, outcomes.drop_first());
                (rest.0, rest.1 + millis as nat)
            },
        }
    }
}

/// `k` failed attempts.
pub open spec fn failed_attempts(k: nat) -> Seq<bool> {
    Seq::new(k, |_i: int| false)
}

/// The retry law: when the first `k` attempts fail and the next succeeds,
/// with `k` below the attempt bound, the start succeeds after exactly `k`
/// backoff pauses; when the first attempts all fail up to the bound, it
/// fails after one pause fewer than the bound, whatever would come next.
pub proof fn lemma_retry_backoff(k: nat, rest: Seq<bool>)
    ensures
        k < MAX_ATTEMPTS ==> retry_run(0, failed_attempts(k) + seq![true]) == (
            true,
            k * RETRY_BACKOFF_MS as nat,
        ),
        retry_run(0, failed_attempts(MAX_ATTEMPTS as nat) + rest) == (
            false,
            (MAX_ATTEMPTS - 1) as nat * RETRY_BACKOFF_MS as nat,
        ),
{
    if k < MAX_ATTEMPTS {
        lemma_retry_run_from(0, k, seq![true]);
    }
    lemma_retry_run_from(0, MAX_ATTEMPTS as nat, rest);
}

proof fn lemma_retry_run_from(failures: nat, k: nat, tail: Seq<bool>)
    requires
        failures + k <= MAX_ATTEMPTS,
    ensures
        failures + k < MAX_ATTEMPTS && tail == seq![true] ==> retry_run(
            failures,
            failed_attempts(k) + tail,
        ) == (true, k * RETRY_BACKOFF_MS as nat),
        failures + k == MAX_ATTEMPTS && k > 0 ==> retry_run(failures, failed_attempts(k) + tail)
            == (false, (k - 1) as nat * RETRY_BACKOFF_MS as nat),
    decreases k,
{
    let s = failed_attempts(k) + tail;
    if k == 0 {
        assert(s =~= tail);
    } else {
        assert(s[0] == false);
        assert(s.drop_first() =~= failed_attempts((k - 1) as nat) + tail);
        lemma_retry_run_from(failures + 1, (k - 1) as nat, tail);
        if failures + 1 < MAX_ATTEMPTS {
            assert((k - 1) as nat * RETRY_BACKOFF_MS as nat + RETRY_BACKOFF_MS == k
                * RETRY_BACKOFF_MS as nat) by (nonlinear_arith)
                requires k >= 1;
        }
    }
}

} // verus!
