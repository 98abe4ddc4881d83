use vstd::prelude::*;

verus! {

/// How many times a failed operation is tried again.
pub const MAX_RETRIES: u32 = 2;

/// Fixed pause, in seconds, before each new attempt.
pub const RETRY_DELAY_SECS: u64 = 5;

/// What the caller does after one attempt of a retried operation.
#[derive(Clone, Copy, Debug, PartialEq, Eq, Structural)]
pub enum RetryStep {
    /// The attempt succeeded: return its value.
    Succeeded,
    /// The attempt failed and retries remain: wait the fixed delay, then try again.
    WaitAndRetry,
    /// The attempt failed and no retry remains: return this last failure.
    GiveUp,
}

/// The step that follows an attempt, given the failures that came before it.
pub open spec fn retry_step(failures: nat, succeeded: bool) -> RetryStep {
    if succeeded {
        RetryStep::Succeeded
    } else if failures + 1 > MAX_RETRIES {
        RetryStep::GiveUp
    } else {
        RetryStep::WaitAndRetry
    }
}

/// The attempts, pauses and final success of a run of a retried operation.
pub struct RetryRun {
    pub attempts: nat,
    pub delays: nat,
    pub succeeded: bool,
}

/// A run driven by `retry_step`, where `outcomes[k]` is the outcome of the
/// k-th attempt from here and `failures` counts the failed attempts before it.
pub open spec fn run_from(failures: nat, outcomes: Seq<bool>) -> RetryRun
    decreases outcomes.len(),
{
    if outcomes.len() == 0 {
        RetryRun { attempts: 0, delays: 0, succeeded: false }
    } else {
        match retry_step(failures, outcomes[0]) {
            RetryStep::Succeeded => RetryRun { attempts: 1, delays: 0, succeeded: true },
            RetryStep::GiveUp => RetryRun { attempts: 1, delays: 0, succeeded: false },
            RetryStep::WaitAndRetry => {
                let rest = run_from(failures + 1, outcomes.skip(1));
                RetryRun { attempts: rest.attempts + 1, delays: rest.delays + 1, succeeded: rest.succeeded }
            },
        }
    }
}

/// Attempt counter of one retried operation.
pub struct RetryCounter {
    pub failures: u32,
}

impl RetryCounter {
    /// Still taking attempts: not yet given up.
    pub open spec fn is_open(&self) -> bool {
        self.failures <= MAX_RETRIES
    }

    pub fn new() -> (r: RetryCounter)
        ensures
            r.failures == 0,
            r.is_open(),
    {
        RetryCounter { failures: 0 }
    }

    /// Records the outcome of an attempt and says what to do next.
    pub fn record(&mut self, succeeded: bool) -> (r: RetryStep)
        requires
            old(self).is_open(),
        ensures
            r == retry_step(old(self).failures as nat, succeeded),
            final(self).failures == if succeeded { old(self).failures } else { (old(self).failures + 1) as u32 },
            r == RetryStep::WaitAndRetry ==> final(self).is_open(),
    {
        if succeeded {
            RetryStep::Succeeded
        } else {
            self.failures = self.failures + 1;
            if self.failures > MAX_RETRIES {
                RetryStep::GiveUp
            } else {
                RetryStep::WaitAndRetry
            }
        }
    }
}

proof fn lemma_all_fail(failures: nat, outcomes: Seq<bool>)
    requires
        failures <= MAX_RETRIES,
        outcomes.len() >= MAX_RETRIES + 1 - failures,
        forall|k: int| 0 <= k < outcomes.len() ==> !outcomes[k],
    ensures
        run_from(failures, outcomes) == (RetryRun {
            attempts: (MAX_RETRIES + 1 - failures) as nat,
            delays: (MAX_RETRIES - failures) as nat,
            succeeded: false,
        }),
    decreases outcomes.len(),
{
    if failures < MAX_RETRIES {
        lemma_all_fail(failures + 1, outcomes.skip(1));
    }
}

proof fn lemma_succeed_at(failures: nat, outcomes: Seq<bool>, n: nat)
    requires
        1 <= n <= outcomes.len(),
        failures + n <= MAX_RETRIES + 1,
        outcomes[n - 1],
        forall|k: int| 0 <= k < n - 1 ==> !outcomes[k],
    ensures
        run_from(failures, outcomes) == (RetryRun { attempts: n, delays: (n - 1) as nat, succeeded: true }),
    decreases n,
{
    if n > 1 {
        lemma_succeed_at(failures + 1, outcomes.skip(1), (n - 1) as nat);
    }
}

/// An operation that always fails is attempted exactly `MAX_RETRIES + 1` times,
/// with the fixed pause between consecutive attempts, and the run fails.
pub proof fn always_failing_is_tried_max_times(outcomes: Seq<bool>)
    requires
        outcomes.len() >= MAX_RETRIES + 1,
        forall|k: int| 0 <= k < outcomes.len() ==> !outcomes[k],
    ensures
        run_from(0, outcomes).attempts == MAX_RETRIES + 1,
        run_from(0, outcomes).delays == MAX_RETRIES,
        !run_from(0, outcomes).succeeded,
{
    lemma_all_fail(0, outcomes);
}

/// An operation that first succeeds on attempt `n`, within the allowed
/// attempts, is tried exactly `n` times and succeeds, with no pause after
/// the successful attempt.
pub proof fn success_on_attempt_n_stops_there(outcomes: Seq<bool>, n: nat)
    requires
        1 <= n <= MAX_RETRIES + 1,
        n <= outcomes.len(),
        outcomes[n - 1],
        forall|k: int| 0 <= k < n - 1 ==> !outcomes[k],
    ensures
        run_from(0, outcomes).attempts == n,
        run_from(0, outcomes).delays == n - 1,
        run_from(0, outcomes).succeeded,
{
    lemma_succeed_at(0, outcomes, n);
}

} // verus!
