use vstd::prelude::*;

use tokio_util::sync::CancellationToken;

use crate::error::DownloadError;

verus! {

#[verifier::external_type_specification]
#[verifier::external_body]
pub struct ExCancellationToken(CancellationToken);

/// Relies on tokio_util's `CancellationToken::is_cancelled`: whether the
/// token, or one of its parents, has been cancelled at the time of the call.
/// Another task may cancel it at any moment, so nothing is promised.
#[verifier::external_body]
fn is_cancelled(cancel: &CancellationToken) -> (r: bool) {
    cancel.is_cancelled()
}

/// Delay before the first retry, in milliseconds.
pub const BASE_BACKOFF_MILLIS: u64 = 100;

/// Longest delay between two attempts, in milliseconds.
pub const MAX_BACKOFF_MILLIS: u64 = 3000;

/// What one attempt of the operation produced.
#[derive(Clone, Copy, Debug, PartialEq, Eq, Structural)]
pub enum AttemptOutcome {
    Succeeded,
    Failed(DownloadError),
}

/// What the caller of the retry driver must do next.
#[derive(Clone, Copy, Debug, PartialEq, Eq, Structural)]
pub enum RetryAction {
    /// Run the operation once more.
    Attempt,
    /// Wait for `millis` (or until cancelled), then ask again.
    Backoff { millis: u64 },
    /// Hand the operation's result to the caller.
    ReturnSuccess,
    /// Hand this failure to the caller.
    ReturnError(DownloadError),
}

/// Doubling backoff: no wait before the first attempt, then
/// `BASE_BACKOFF_MILLIS * 2^(n-1)` after the n-th failure, capped.
pub open spec fn backoff_spec(failures: nat) -> nat
    decreases failures,
{
    if failures == 0 {
        0
    } else if failures == 1 {
        BASE_BACKOFF_MILLIS as nat
    } else {
        let prev = backoff_spec((failures - 1) as nat);
        if 2 * prev >= MAX_BACKOFF_MILLIS {
            MAX_BACKOFF_MILLIS as nat
        } else {
            2 * prev
        }
    }
}

/// Milliseconds to wait after `failures` consecutive transient failures.
pub fn backoff_millis(failures: u64) -> (r: u64)
    ensures
        r == backoff_spec(failures as nat),
        r <= MAX_BACKOFF_MILLIS,
{
    if failures == 0 {
        return 0;
    }
    let mut delay: u64 = BASE_BACKOFF_MILLIS;
    let mut n: u64 = 1;
    while n < failures
        invariant
            1 <= n <= failures,
            delay == backoff_spec(n as nat),
            delay <= MAX_BACKOFF_MILLIS,
        decreases failures - n,
    {
        if 2 * delay >= MAX_BACKOFF_MILLIS {
            delay = MAX_BACKOFF_MILLIS;
        } else {
            delay = 2 * delay;
        }
        n = n + 1;
    }
    delay
}

/// The action the driver takes when it is ready to start an attempt.
pub open spec fn ready_spec(cancelled: bool) -> RetryAction {
    if cancelled {
        RetryAction::ReturnError(DownloadError::Cancelled)
    } else {
        RetryAction::Attempt
    }
}

/// The action the driver takes on an attempt's outcome, after `failures`
/// earlier transient failures.
pub open spec fn outcome_spec(failures: nat, outcome: AttemptOutcome) -> RetryAction {
    match outcome {
        AttemptOutcome::Succeeded => RetryAction::ReturnSuccess,
        AttemptOutcome::Failed(e) => if e.spec_is_permanent() {
            RetryAction::ReturnError(e)
        } else {
            RetryAction::Backoff { millis: backoff_spec(failures_after(failures, outcome)) as u64 }
        },
    }
}

/// Failures counted by the driver after one more outcome.
pub open spec fn failures_after(failures: nat, outcome: AttemptOutcome) -> nat {
    match outcome {
        AttemptOutcome::Failed(e) => if e.spec_is_permanent() || failures >= u64::MAX {
            failures
        } else {
            failures + 1
        },
        _ => failures,
    }
}

/// Final action of a run in which the driver is never cancelled and the
/// attempts produce `outcomes` in turn, starting after `failures` failures;
/// `None` when the outcomes run out before the driver stops.
pub open spec fn run_spec(failures: nat, outcomes: Seq<AttemptOutcome>) -> Option<(RetryAction, nat)>
    decreases outcomes.len(),
{
    if outcomes.len() == 0 {
        None
    } else {
        match outcome_spec(failures, outcomes[0]) {
            RetryAction::Backoff { .. } => run_spec(
                failures_after(failures, outcomes[0]),
                outcomes.drop_first(),
            ),
            a => Some((a, failures)),
        }
    }
}

/// An operation that fails transiently `n` times and then succeeds is
/// answered with success once its outcomes are all reported, after exactly
/// `n` counted failures and with no error surfaced; and a driver cancelled
/// before its first attempt returns `Cancelled` without attempting.
pub proof fn lemma_retry_forever_absorbs_transient(n: nat, cancelled_first: bool)
    requires
        n < u64::MAX,
    ensures
        run_spec(0, Seq::new(n, |i: int| AttemptOutcome::Failed(DownloadError::Transient)).push(
            AttemptOutcome::Succeeded,
        )) == Some((RetryAction::ReturnSuccess, n)),
        cancelled_first ==> ready_spec(cancelled_first) == RetryAction::ReturnError(
            DownloadError::Cancelled,
        ),
{
    lemma_run_after_transient(0, n);
}

proof fn lemma_run_after_transient(start: nat, n: nat)
    requires
        start + n < u64::MAX,
    ensures
        run_spec(start, Seq::new(n, |i: int| AttemptOutcome::Failed(DownloadError::Transient)).push(
            AttemptOutcome::Succeeded,
        )) == Some((RetryAction::ReturnSuccess, start + n)),
    decreases n,
{
    let s = Seq::new(n, |i: int| AttemptOutcome::Failed(DownloadError::Transient)).push(
        AttemptOutcome::Succeeded,
    );
    if n > 0 {
        let rest = Seq::new((n - 1) as nat, |i: int| AttemptOutcome::Failed(DownloadError::Transient)).push(
            AttemptOutcome::Succeeded,
        );
        assert(s.drop_first() =~= rest);
        lemma_run_after_transient(start + 1, (n - 1) as nat);
    }
}

/// Unbounded retry driver: runs an operation until it succeeds, fails
/// permanently, or the caller's cancellation signal is observed.
///
/// The caller asks `on_ready` before each attempt and reports each attempt
/// with `on_outcome`; on `Backoff` it waits, and calls `on_ready` again.
pub struct RetryForever {
    failures: u64,
}

impl RetryForever {
    pub closed spec fn failures(&self) -> nat {
        self.failures as nat
    }

    pub fn new() -> (r: RetryForever)
        ensures
            r.failures() == 0,
    {
        RetryForever { failures: 0 }
    }

    /// Number of transient failures seen so far.
    pub fn failure_count(&self) -> (r: u64)
        ensures
            r == self.failures(),
    {
        self.failures
    }

    /// Called before each attempt: reads the cancellation signal, then
    /// decides as `on_ready` does.
    pub fn before_attempt(&self, cancel: &CancellationToken) -> (r: RetryAction)
        ensures
            r == RetryAction::Attempt || r == RetryAction::ReturnError(DownloadError::Cancelled),
    {
        let cancelled = is_cancelled(cancel);
        self.on_ready(cancelled)
    }

    /// Called before each attempt: stop if cancelled, else attempt.
    pub fn on_ready(&self, cancelled: bool) -> (r: RetryAction)
        ensures
            r == ready_spec(cancelled),
    {
        if cancelled {
            RetryAction::ReturnError(DownloadError::Cancelled)
        } else {
            RetryAction::Attempt
        }
    }

    /// Called with each attempt's outcome. Transient failures are counted
    /// (saturating at `u64::MAX`) and answered with a backoff.
    pub fn on_outcome(&mut self, outcome: AttemptOutcome) -> (r: RetryAction)
        ensures
            r == outcome_spec(old(self).failures(), outcome),
            final(self).failures() == failures_after(old(self).failures(), outcome),
    {
        match outcome {
            AttemptOutcome::Succeeded => RetryAction::ReturnSuccess,
            AttemptOutcome::Failed(e) => {
                if e.is_permanent() {
                    RetryAction::ReturnError(e)
                } else {
                    if self.failures < u64::MAX {
                        self.failures = self.failures + 1;
                    }
                    let millis = backoff_millis(self.failures);
                    RetryAction::Backoff { millis }
                }
            },
        }
    }
}

} // verus!
