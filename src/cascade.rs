use vstd::prelude::*;
use crate::attachment::{Attachment, AttachmentView};
use crate::delete::{delete_start, RowDelete};
use crate::retry::RetryPolicy;

verus! {

/// The deletion of every attachment of one cipher, one at a time, in the
/// order the lookup returned them. The caller runs each handed-out deletion
/// and stops at the first that fails; those done before it stay done.
pub struct CascadeDelete {
    found: Vec<Attachment>,
    next: usize,
}

pub struct CascadeView {
    /// The attachments the lookup returned, in its order.
    pub found: Seq<AttachmentView>,
    /// How many of them have been handed out for deletion.
    pub next: nat,
}

pub open spec fn views_of(v: Seq<Attachment>) -> Seq<AttachmentView> {
    v.map_values(|a: Attachment| a@)
}

impl View for CascadeDelete {
    type V = CascadeView;

    closed spec fn view(&self) -> CascadeView {
        CascadeView { found: views_of(self.found@), next: self.next as nat }
    }
}

impl Attachment {
    /// Starts deleting `found`, the attachments that the lookup by cipher returned.
    pub fn delete_all_by_cipher(found: Vec<Attachment>) -> (r: CascadeDelete)
        ensures
            r@ == (CascadeView { found: views_of(found@), next: 0 }),
    {
        CascadeDelete { found, next: 0 }
    }
}

impl CascadeDelete {
    /// Whether every attachment has been handed out.
    pub fn is_finished(&self) -> (r: bool)
        ensures
            r == (self@.next >= self@.found.len()),
    {
        self.next >= self.found.len()
    }

    /// The deletion of the next attachment, files under `attachments_root`;
    /// `None` once all have been handed out.
    pub fn next_delete(&mut self, attachments_root: &str) -> (r: Option<RowDelete>)
        ensures
            final(self)@.found == old(self)@.found,
            old(self)@.next >= old(self)@.found.len() ==> r is None && final(self)@ == old(self)@,
            old(self)@.next < old(self)@.found.len() ==> {
                &&& final(self)@.next == old(self)@.next + 1
                &&& r matches Some(d) && d@ == delete_start(
                    old(self)@.found[old(self)@.next as int],
                    attachments_root@,
                )
            },
    {
        if self.next >= self.found.len() {
            return None;
        }
        let a = &self.found[self.next];
        let d = RowDelete::new(a.id.clone(), a.get_file_path(attachments_root), RetryPolicy::row_delete());
        self.next = self.next + 1;
        Some(d)
    }
}

} // verus!
