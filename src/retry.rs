use vstd::prelude::*;

verus! {

/// How often and how patiently a failing operation is tried again.
pub struct RetryPolicy {
    /// Attempts allowed after the first one.
    pub max_retries: u32,
    /// Pause before each new attempt, in milliseconds.
    pub backoff_ms: u64,
}

/// Retries left after the first attempt when a row delete meets contention.
pub const ROW_DELETE_RETRIES: u32 = 10;

/// Pause between row-delete attempts, in milliseconds.
pub const ROW_DELETE_BACKOFF_MS: u64 = 500;

impl RetryPolicy {
    /// The policy for deleting a metadata row under contention.
    pub fn row_delete() -> (r: Self)
        ensures
            r.max_retries == ROW_DELETE_RETRIES,
            r.backoff_ms == ROW_DELETE_BACKOFF_MS,
    {
        RetryPolicy { max_retries: ROW_DELETE_RETRIES, backoff_ms: ROW_DELETE_BACKOFF_MS }
    }
}

/// The budget of a bounded retry: what is left of it and the pause it asks for.
pub struct RetryView {
    pub retries_left: nat,
    pub backoff_ms: nat,
}

/// The budget after one more failed attempt: one retry fewer, none below zero.
pub open spec fn after_failure(v: RetryView) -> RetryView {
    RetryView {
        retries_left: if v.retries_left == 0 { 0 } else { (v.retries_left - 1) as nat },
        backoff_ms: v.backoff_ms,
    }
}

/// The budget after `n` failed attempts in a row.
pub open spec fn after_failures(v: RetryView, n: nat) -> RetryView
    decreases n,
{
    if n == 0 { v } else { after_failure(after_failures(v, (n - 1) as nat)) }
}

/// Attempts made, all failing, until the budget `v` gives up: the one that
/// fails with no retry left ends it.
pub open spec fn attempts_until_exhausted(v: RetryView) -> nat
    decreases v.retries_left,
{
    if v.retries_left == 0 { 1 } else { 1 + attempts_until_exhausted(after_failure(v)) }
}

/// A bounded retry in progress.
pub struct Retry {
    retries_left: u32,
    backoff_ms: u64,
}

impl View for Retry {
    type V = RetryView;

    closed spec fn view(&self) -> RetryView {
        RetryView { retries_left: self.retries_left as nat, backoff_ms: self.backoff_ms as nat }
    }
}

impl Retry {
    /// A fresh budget of `policy.max_retries` retries.
    pub fn new(policy: RetryPolicy) -> (r: Self)
        ensures
            r@ == (RetryView {
                retries_left: policy.max_retries as nat,
                backoff_ms: policy.backoff_ms as nat,
            }),
    {
        Retry { retries_left: policy.max_retries, backoff_ms: policy.backoff_ms }
    }

    /// Retries still allowed.
    pub fn retries_left(&self) -> (r: u32)
        ensures
            r as nat == self@.retries_left,
    {
        self.retries_left
    }

    /// Records a failed attempt. `Some(wait)`: try again after `wait`
    /// milliseconds. `None`: no retry is left and the operation fails.
    pub fn on_failure(&mut self) -> (r: Option<u64>)
        ensures
            final(self)@ == after_failure(old(self)@),
            old(self)@.retries_left == 0 ==> r is None,
            old(self)@.retries_left > 0 ==> r == Some(old(self)@.backoff_ms as u64),
    {
        if self.retries_left == 0 {
            None
        } else {
            self.retries_left = self.retries_left - 1;
            Some(self.backoff_ms)
        }
    }
}

/// A retry budget of `r` retries gives up at attempt `r + 1` exactly: each of
/// the first `r` failures leaves a retry, the next one leaves none.
pub proof fn lemma_retry_exhaustion(v: RetryView)
    ensures
        attempts_until_exhausted(v) == v.retries_left + 1,
        forall|k: nat| k <= v.retries_left ==> #[trigger] after_failures(v, k).retries_left
            == v.retries_left - k,
    decreases v.retries_left,
{
    if v.retries_left > 0 {
        lemma_retry_exhaustion(after_failure(v));
    }
    assert forall|k: nat| k <= v.retries_left implies #[trigger] after_failures(v, k).retries_left
        == v.retries_left - k by {
        lemma_failures_count(v, k);
    }
}

proof fn lemma_failures_count(v: RetryView, k: nat)
    requires
        k <= v.retries_left,
    ensures
        after_failures(v, k).retries_left == v.retries_left - k,
        after_failures(v, k).backoff_ms == v.backoff_ms,
    decreases k,
{
    if k > 0 {
        lemma_failures_count(v, (k - 1) as nat);
    }
}

} // verus!
