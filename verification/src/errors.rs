//! Error kinds of the snapshot provider and of the projection adapter.

use vstd::prelude::*;

verus! {

/// The kind of failure the metadata snapshot provider can signal.
#[derive(Clone, Copy, PartialEq, Eq, Structural, Debug)]
pub enum StoreErrorKind {
    /// The metadata store could not be reached.
    StoreUnavailable,
    /// The metadata store answered, but its contents were not readable.
    StoreCorrupt,
}

/// A failure reported by the metadata snapshot provider, carrying its kind
/// and a textual description of the underlying cause.
#[derive(Clone, Debug)]
pub struct StoreError {
    pub kind: StoreErrorKind,
    pub detail: String,
}

/// Errors surfaced by the columnar projection adapter to the query layer.
#[derive(Clone, Debug)]
pub enum TableError {
    /// The snapshot fetch failed; the provider's error is carried verbatim.
    SnapshotFetchFailed(StoreError),
    /// The number of declared schema fields and of produced columns diverged.
    /// A programming defect, not a recoverable condition; the adapter in this
    /// crate pairs schema and builders statically and proves in the contract
    /// of its materialization that this variant is never returned.
    SchemaColumnMismatch,
}

} // verus!
