//! The metadata record of one physical storage chunk.

use vstd::prelude::*;

use crate::bounds::RowBound;

verus! {

/// Metadata of one chunk: a physical unit of stored, sorted rows within a
/// partition. Optional attributes are absent while the chunk is still being
/// written (`row_count`, `file_size`), before it is persisted (`uploaded`),
/// or until it is superseded (`deactivated_at`). Timestamps are instants in
/// nanoseconds since the epoch.
#[derive(Clone, Debug)]
pub struct Chunk {
    /// Identifier of the owning partition; a chunk belongs to exactly one.
    pub partition_id: u64,
    /// Identifier of the replay/write-ahead log handle used for recovery.
    pub replay_handle_id: u64,
    /// Count of logical rows contained, once known.
    pub row_count: Option<u64>,
    /// Whether the chunk's data file has been durably persisted remotely.
    pub uploaded: Option<bool>,
    /// Whether the chunk is part of the currently valid data set.
    pub active: Option<bool>,
    /// Whether the chunk's data also resides in an in-memory structure.
    pub in_memory: Option<bool>,
    /// When the chunk was created.
    pub created_at: Option<i64>,
    /// The oldest insertion instant among the chunk's rows.
    pub oldest_insert_at: Option<i64>,
    /// When the chunk was superseded; absent while it is active.
    pub deactivated_at: Option<i64>,
    /// Byte size of the persisted file, once known.
    pub file_size: Option<u64>,
    /// Minimum row-key bound, used for range pruning.
    pub min: Option<RowBound>,
    /// Maximum row-key bound, used for range pruning.
    pub max: Option<RowBound>,
    /// File-name suffix component, set by the write path for some chunks.
    pub suffix: Option<String>,
}

/// A stored record together with the unique identifier the metadata store
/// issued for it.
#[derive(Clone, Debug)]
pub struct IdRow<T> {
    pub id: u64,
    pub row: T,
}

impl<T> IdRow<T> {
    /// The identifier the metadata store issued for this record.
    pub fn get_id(&self) -> (r: u64)
        ensures
            r == self.id,
    {
        self.id
    }

    /// The stored record itself.
    pub fn get_row(&self) -> (r: &T)
        ensures
            *r == self.row,
    {
        &self.row
    }
}

} // verus!
