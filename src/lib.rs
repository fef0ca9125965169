//! Metadata and lifecycle of the files attached to vault entries: the
//! attachment record, where its file lives, its client-facing record, its
//! size label, and the decisions taken while deleting attachments (a row
//! delete under a bounded retry, then a best-effort file removal), with a
//! model of the attachments table that the deletion laws are stated over.

pub mod attachment;
pub mod cascade;
pub mod decimal;
pub mod delete;
pub mod retry;
pub mod size;
pub mod table;
