//! The fixed schema of the chunk metadata table.

use vstd::prelude::*;

verus! {

/// The number of fields the table declares.
pub const NUM_FIELDS: usize = 14;

/// The column types the table uses.
#[derive(Clone, Copy, PartialEq, Eq, Structural, Debug)]
pub enum ColumnType {
    /// Unsigned 64-bit integer.
    UInt64,
    /// Boolean flag.
    Boolean,
    /// Instant in nanoseconds since the epoch.
    TimestampNanosecond,
    /// Variable-length text.
    Text,
}

/// One declared field: a name, a column type, and whether entries may be
/// null.
#[derive(Clone, Debug)]
pub struct Field {
    pub name: String,
    pub data_type: ColumnType,
    pub nullable: bool,
}

/// The declared name of the field at position `j`.
pub open spec fn field_name_spec(j: int) -> Seq<char> {
    if j == 0 {
        "id"@
    } else if j == 1 {
        "file_name"@
    } else if j == 2 {
        "partition_id"@
    } else if j == 3 {
        "replay_handle_id"@
    } else if j == 4 {
        "row_count"@
    } else if j == 5 {
        "uploaded"@
    } else if j == 6 {
        "active"@
    } else if j == 7 {
        "in_memory"@
    } else if j == 8 {
        "created_at"@
    } else if j == 9 {
        "oldest_insert_at"@
    } else if j == 10 {
        "deactivated_at"@
    } else if j == 11 {
        "file_size"@
    } else if j == 12 {
        "min_row"@
    } else {
        "max_row"@
    }
}

/// The declared type of the field at position `j`.
pub open spec fn field_type_spec(j: int) -> ColumnType {
    if j == 0 {
        ColumnType::UInt64
    } else if j == 1 {
        ColumnType::Text
    } else if j == 2 {
        ColumnType::UInt64
    } else if j == 3 {
        ColumnType::UInt64
    } else if j == 4 {
        ColumnType::UInt64
    } else if j == 5 {
        ColumnType::Boolean
    } else if j == 6 {
        ColumnType::Boolean
    } else if j == 7 {
        ColumnType::Boolean
    } else if j == 8 {
        ColumnType::TimestampNanosecond
    } else if j == 9 {
        ColumnType::TimestampNanosecond
    } else if j == 10 {
        ColumnType::TimestampNanosecond
    } else if j == 11 {
        ColumnType::UInt64
    } else {
        ColumnType::Text
    }
}

/// Whether the field at position `j` is declared nullable.
///
/// The three timestamp fields are declared nullable: their source attributes
/// are stored as optional, and their columns carry a null entry exactly
/// where the attribute is absent, so the declaration matches what the
/// builders can produce.
pub open spec fn field_nullable_spec(j: int) -> bool {
    j == 4 || j == 5 || j == 6 || j == 7 || j == 8 || j == 9 || j == 10 || j == 11 || j == 12
        || j == 13
}

} // verus!
