use vstd::prelude::*;
use crate::attachment::{file_path_of, Attachment, AttachmentView};
use crate::retry::{after_failure, Retry, RetryPolicy, RetryView, ROW_DELETE_BACKOFF_MS, ROW_DELETE_RETRIES};

verus! {

/// Where the deletion of one attachment stands.
#[derive(PartialEq, Eq, Structural)]
pub enum DeletePhase {
    /// The metadata row is still to be deleted.
    RemovingRow,
    /// The row is gone; the file removal has been handed out.
    Done,
    /// The row could not be deleted within the retry budget.
    Failed,
}

/// What the caller does next while deleting one attachment.
pub enum DeleteAction<E> {
    /// Wait this many milliseconds, then try deleting the row again.
    RetryAfter(u64),
    /// The row is gone and the deletion has succeeded; remove the file at
    /// this path, best effort: whatever that gives does not change the outcome.
    RemoveFile(String),
    /// The deletion failed with this error, the last one the store gave.
    Failed(E),
}

/// The deletion of one attachment: its row first, under a bounded retry,
/// then its file, and the file only once the row is gone.
pub struct RowDelete {
    id: String,
    path: String,
    retry: Retry,
    phase: DeletePhase,
}

pub struct RowDeleteView {
    pub id: Seq<char>,
    pub path: Seq<char>,
    pub retry: RetryView,
    pub phase: DeletePhase,
}

impl View for RowDelete {
    type V = RowDeleteView;

    closed spec fn view(&self) -> RowDeleteView {
        RowDeleteView { id: self.id@, path: self.path@, retry: self.retry@, phase: self.phase }
    }
}

/// The state after a failed row delete: one retry spent, or, with none
/// left, the deletion failed.
pub open spec fn on_row_failure(v: RowDeleteView) -> RowDeleteView {
    RowDeleteView {
        retry: after_failure(v.retry),
        phase: if v.retry.retries_left == 0 { DeletePhase::Failed } else { DeletePhase::RemovingRow },
        ..v
    }
}

/// The state after `n` failed row deletes in a row.
pub open spec fn on_row_failures(v: RowDeleteView, n: nat) -> RowDeleteView
    decreases n,
{
    if n == 0 { v } else { on_row_failure(on_row_failures(v, (n - 1) as nat)) }
}

/// The state after the row delete succeeded, whether or not a row matched.
pub open spec fn on_row_deleted(v: RowDeleteView) -> RowDeleteView {
    RowDeleteView { phase: DeletePhase::Done, ..v }
}

/// The deletion of attachment `a` as it starts: its row under the row-delete
/// retry policy, its file at its path under `root`.
pub open spec fn delete_start(a: AttachmentView, root: Seq<char>) -> RowDeleteView {
    RowDeleteView {
        id: a.id,
        path: file_path_of(root, a.cipher_uuid, a.id),
        retry: RetryView {
            retries_left: ROW_DELETE_RETRIES as nat,
            backoff_ms: ROW_DELETE_BACKOFF_MS as nat,
        },
        phase: DeletePhase::RemovingRow,
    }
}

impl RowDelete {
    /// Starts deleting the row `id`, whose file lies at `path`.
    pub fn new(id: String, path: String, policy: RetryPolicy) -> (r: Self)
        ensures
            r@ == (RowDeleteView {
                id: id@,
                path: path@,
                retry: RetryView {
                    retries_left: policy.max_retries as nat,
                    backoff_ms: policy.backoff_ms as nat,
                },
                phase: DeletePhase::RemovingRow,
            }),
    {
        RowDelete { id, path, retry: Retry::new(policy), phase: DeletePhase::RemovingRow }
    }

    /// The id of the row to delete.
    pub fn id(&self) -> (r: &str)
        ensures
            r@ == self@.id,
    {
        self.id.as_str()
    }

    /// Whether the row delete is still to be (re)tried.
    pub fn is_pending(&self) -> (r: bool)
        ensures
            r == (self@.phase == DeletePhase::RemovingRow),
    {
        self.phase == DeletePhase::RemovingRow
    }

    /// Takes the outcome of one row-delete attempt (`Ok` with the number of
    /// rows removed, zero included) and says what comes next. The file is
    /// handed out for removal on success only.
    pub fn on_row_result<E>(&mut self, outcome: Result<usize, E>) -> (r: DeleteAction<E>)
        requires
            old(self)@.phase == DeletePhase::RemovingRow,
        ensures
            match outcome {
                Ok(_) => {
                    &&& final(self)@ == on_row_deleted(old(self)@)
                    &&& r matches DeleteAction::RemoveFile(p) && p@ == old(self)@.path
                },
                Err(e) => {
                    &&& final(self)@ == on_row_failure(old(self)@)
                    &&& old(self)@.retry.retries_left == 0 ==> r == DeleteAction::<E>::Failed(e)
                    &&& old(self)@.retry.retries_left > 0 ==> r == DeleteAction::<E>::RetryAfter(
                        old(self)@.retry.backoff_ms as u64,
                    )
                },
            },
    {
        match outcome {
            Ok(_) => {
                self.phase = DeletePhase::Done;
                DeleteAction::RemoveFile(self.path.clone())
            },
            Err(e) => match self.retry.on_failure() {
                Some(wait) => DeleteAction::RetryAfter(wait),
                None => {
                    self.phase = DeletePhase::Failed;
                    DeleteAction::Failed(e)
                },
            },
        }
    }
}

impl Attachment {
    /// Starts deleting this attachment: its row, retried under contention up
    /// to `ROW_DELETE_RETRIES` more times, then its file under `attachments_root`.
    pub fn delete(self, attachments_root: &str) -> (r: RowDelete)
        ensures
            r@ == delete_start(self@, attachments_root@),
    {
        let path = self.get_file_path(attachments_root);
        RowDelete::new(self.id, path, RetryPolicy::row_delete())
    }
}

/// A row delete that fails every time is tried exactly `retries + 1` times:
/// after each of the first `retries` failures it is still pending, the next
/// failure ends it as failed, and the file is never handed out.
pub proof fn lemma_delete_exhaustion(v: RowDeleteView)
    requires
        v.phase == DeletePhase::RemovingRow,
    ensures
        forall|k: nat| k <= v.retry.retries_left ==> (#[trigger] on_row_failures(v, k)).phase
            == DeletePhase::RemovingRow,
        on_row_failures(v, v.retry.retries_left + 1).phase == DeletePhase::Failed,
{
    assert forall|k: nat| k <= v.retry.retries_left implies (#[trigger] on_row_failures(v, k)).phase
        == DeletePhase::RemovingRow by {
        lemma_failures_left(v, k);
    }
    lemma_failures_left(v, v.retry.retries_left);
}

proof fn lemma_failures_left(v: RowDeleteView, k: nat)
    requires
        v.phase == DeletePhase::RemovingRow,
        k <= v.retry.retries_left,
    ensures
        on_row_failures(v, k).retry.retries_left == v.retry.retries_left - k,
        on_row_failures(v, k).phase == DeletePhase::RemovingRow,
    decreases k,
{
    if k > 0 {
        lemma_failures_left(v, (k - 1) as nat);
    }
}

} // verus!
