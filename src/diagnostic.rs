//! Notes about records that were skipped, ambiguous or unresolved.
use vstd::prelude::*;
use crate::records::RecordError;

verus! {

/// One entry of the diagnostic log.
#[derive(Clone, Debug, PartialEq)]
pub enum Diagnostic {
    /// An element of the playlist array was skipped.
    Playlist(RecordError),
    /// An element of the membership array was skipped.
    Membership(RecordError),
    /// The catalog query for an id could not be run.
    QueryFailed { id: u32 },
    /// The catalog has no row for an id.
    NotInCatalog { id: u32 },
    /// A row for an id could not be read, before any row was accepted.
    RowUnreadable { id: u32, index: usize },
    /// A row's stored path has no local counterpart, before any row was accepted.
    RowUnreconciled { id: u32, index: usize, title: String, stored_path: String },
    /// A further row for an id that already has an accepted row.
    ExtraRow { id: u32, index: usize, title: String, path: String, accepted_path: String },
    /// A further row, whose stored path has no local counterpart.
    ExtraRowUnreconciled { id: u32, index: usize, title: String, stored_path: String },
    /// A further row that could not be read.
    ExtraRowUnreadable { id: u32, index: usize },
}

} // verus!
