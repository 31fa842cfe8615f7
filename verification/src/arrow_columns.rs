//! Conversion of materialized columns into arrow arrays.
//!
//! The query layer consumes columns as arrow arrays. The arrays are built
//! here by arrow itself, behind trusted wrappers whose contracts name what
//! each array holds; the verified code ties those contents to the column
//! projection, so an arrow column carries exactly the cells the
//! specification assigns to its field.

use vstd::prelude::*;

use datafusion::arrow::array::{
    BooleanArray, LargeStringArray, TimestampNanosecondArray, UInt64Array,
};

use crate::chunk::{Chunk, IdRow};
use crate::columns::{
    active_column, bool_cell, created_at_column, deactivated_at_column, file_name_column,
    file_size_column, id_column, in_memory_column, max_row_column, min_row_column,
    oldest_insert_at_column, partition_id_column, replay_handle_id_column, row_count_column,
    spec_column, ts_cell, u64_cell, uploaded_column, CellValue, ColumnData,
};
use crate::errors::{StoreError, TableError};
use crate::naming::opt_str_view;
use crate::schema::{field_type_spec, ColumnType, NUM_FIELDS};
use crate::system_chunks::SystemChunksTableDef;

verus! {

#[verifier::external_type_specification]
#[verifier::external_body]
pub struct ExBooleanArray(BooleanArray);

/// Holds an arrow `UInt64Array`. The array's type has generic bounds the
/// verifier cannot declare, so it sits opaque in this struct; the trusted
/// wrapper below states what it holds.
#[verifier::external_body]
pub struct UInt64ArrowArray(pub UInt64Array);

/// Holds an arrow `TimestampNanosecondArray`, opaque to the verifier for
/// the same reason as `UInt64ArrowArray`.
#[verifier::external_body]
pub struct TimestampNanosArrowArray(pub TimestampNanosecondArray);

/// Holds an arrow `LargeStringArray`, opaque to the verifier for the same
/// reason as `UInt64ArrowArray`. The 64-bit-offset array is used rather
/// than the 32-bit one, whose construction panics once the texts of one
/// array reach 2^31 bytes; no vector that fits in memory reaches the
/// 64-bit bound.
#[verifier::external_body]
pub struct StringArrowArray(pub LargeStringArray);

/// The entries an unsigned 64-bit arrow array holds, in order; `None`
/// stands for a null entry.
pub uninterp spec fn uint64_array_contents(a: UInt64ArrowArray) -> Seq<Option<u64>>;

/// The entries a boolean arrow array holds, in order.
pub uninterp spec fn bool_array_contents(a: BooleanArray) -> Seq<Option<bool>>;

/// The entries a nanosecond-timestamp arrow array holds, in order.
pub uninterp spec fn ts_array_contents(a: TimestampNanosArrowArray) -> Seq<Option<i64>>;

/// The entries a string arrow array holds, in order.
pub uninterp spec fn string_array_contents(a: StringArrowArray) -> Seq<Option<Seq<char>>>;

/// Relies on arrow's `From<Vec<Option<u64>>>` for `UInt64Array`: the array
/// holds the vector's entries in order, null exactly where one is `None`.
#[verifier::external_body]
fn uint64_array_from(v: Vec<Option<u64>>) -> (a: UInt64ArrowArray)
    ensures
        uint64_array_contents(a) == v@,
{
    UInt64ArrowArray(UInt64Array::from(v))
}

/// Relies on arrow's `From<Vec<Option<bool>>>` for `BooleanArray`: the
/// array holds the vector's entries in order, null exactly where one is
/// `None`.
#[verifier::external_body]
fn bool_array_from(v: Vec<Option<bool>>) -> (a: BooleanArray)
    ensures
        bool_array_contents(a) == v@,
{
    BooleanArray::from(v)
}

/// Relies on arrow's `From<Vec<Option<i64>>>` for
/// `TimestampNanosecondArray`: the array holds the vector's entries in
/// order, null exactly where one is `None`.
#[verifier::external_body]
fn ts_array_from(v: Vec<Option<i64>>) -> (a: TimestampNanosArrowArray)
    ensures
        ts_array_contents(a) == v@,
{
    TimestampNanosArrowArray(TimestampNanosecondArray::from(v))
}

/// Relies on arrow's `From<Vec<Option<String>>>` for `LargeStringArray`:
/// the array holds the vector's texts in order, null exactly where one is
/// `None`. The 64-bit offsets hold the total byte length of any vector
/// that fits in memory, so the construction panics on no admissible input.
#[verifier::external_body]
fn string_array_from(v: Vec<Option<String>>) -> (a: StringArrowArray)
    ensures
        string_array_contents(a) == v@.map_values(|o: Option<String>| opt_str_view(o)),
{
    StringArrowArray(LargeStringArray::from(v))
}

/// The cell an optional text entry denotes.
pub open spec fn text_entry_cell(o: Option<Seq<char>>) -> CellValue {
    match o {
        Option::Some(s) => CellValue::Text(s),
        Option::None => CellValue::Null,
    }
}

/// One materialized column as an arrow array of the declared type.
pub enum ArrowColumn {
    UInt64(UInt64ArrowArray),
    Boolean(BooleanArray),
    TimestampNanosecond(TimestampNanosArrowArray),
    Text(StringArrowArray),
}

impl ArrowColumn {
    /// The declared type of this column.
    pub open spec fn data_type(self) -> ColumnType {
        match self {
            ArrowColumn::UInt64(_) => ColumnType::UInt64,
            ArrowColumn::Boolean(_) => ColumnType::Boolean,
            ArrowColumn::TimestampNanosecond(_) => ColumnType::TimestampNanosecond,
            ArrowColumn::Text(_) => ColumnType::Text,
        }
    }

    /// The logical cells the arrow array holds, in order.
    pub open spec fn cells(self) -> Seq<CellValue> {
        match self {
            ArrowColumn::UInt64(a) => uint64_array_contents(a).map_values(
                |o: Option<u64>| u64_cell(o),
            ),
            ArrowColumn::Boolean(a) => bool_array_contents(a).map_values(
                |o: Option<bool>| bool_cell(o),
            ),
            ArrowColumn::TimestampNanosecond(a) => ts_array_contents(a).map_values(
                |o: Option<i64>| ts_cell(o),
            ),
            ArrowColumn::Text(a) => string_array_contents(a).map_values(
                |o: Option<Seq<char>>| text_entry_cell(o),
            ),
        }
    }
}

/// Converts one materialized column into an arrow array holding exactly the
/// same cells, in the same order.
pub fn to_arrow_column(c: ColumnData) -> (a: ArrowColumn)
    ensures
        a.data_type() == c.data_type(),
        a.cells() == c.cells(),
{
    let ghost orig = c;
    match c {
        ColumnData::UInt64(v) => {
            let a = ArrowColumn::UInt64(uint64_array_from(v));
            proof {
                assert(a.cells() =~= orig.cells());
            }
            a
        },
        ColumnData::Boolean(v) => {
            let a = ArrowColumn::Boolean(bool_array_from(v));
            proof {
                assert(a.cells() =~= orig.cells());
            }
            a
        },
        ColumnData::TimestampNanosecond(v) => {
            let a = ArrowColumn::TimestampNanosecond(ts_array_from(v));
            proof {
                assert(a.cells() =~= orig.cells());
            }
            a
        },
        ColumnData::Text(v) => {
            let a = ArrowColumn::Text(string_array_from(v));
            proof {
                assert(a.cells() =~= orig.cells());
            }
            a
        },
    }
}

impl SystemChunksTableDef {
    /// Materializes the table from the outcome of one snapshot fetch, as
    /// arrow arrays: one per schema field, positionally aligned, holding
    /// exactly the cells the specification assigns. A fetch failure is
    /// propagated verbatim inside `SnapshotFetchFailed`; no arrays are
    /// returned for it.
    pub fn materialize_arrays(
        &self,
        fetch: Result<Vec<IdRow<Chunk>>, StoreError>,
        _limit_hint: Option<usize>,
    ) -> (r: Result<Vec<ArrowColumn>, TableError>)
        ensures
            fetch matches Ok(rows) ==> r matches Ok(cols) && cols@.len() == NUM_FIELDS as int && (
            forall|j: int|
                0 <= j < NUM_FIELDS as int ==> (#[trigger] cols@[j]).data_type()
                    == field_type_spec(j) && cols@[j].cells() == spec_column(rows@, j)),
            fetch matches Err(e) ==> r matches Err(te) && te
                matches TableError::SnapshotFetchFailed(se) && se == e,
    {
        match fetch {
            Result::Ok(rows) => {
                let mut r: Vec<ArrowColumn> = Vec::new();
                r.push(to_arrow_column(id_column(&rows)));
                r.push(to_arrow_column(file_name_column(&rows)));
                r.push(to_arrow_column(partition_id_column(&rows)));
                r.push(to_arrow_column(replay_handle_id_column(&rows)));
                r.push(to_arrow_column(row_count_column(&rows)));
                r.push(to_arrow_column(uploaded_column(&rows)));
                r.push(to_arrow_column(active_column(&rows)));
                r.push(to_arrow_column(in_memory_column(&rows)));
                r.push(to_arrow_column(created_at_column(&rows)));
                r.push(to_arrow_column(oldest_insert_at_column(&rows)));
                r.push(to_arrow_column(deactivated_at_column(&rows)));
                r.push(to_arrow_column(file_size_column(&rows)));
                r.push(to_arrow_column(min_row_column(&rows)));
                r.push(to_arrow_column(max_row_column(&rows)));
                Result::Ok(r)
            },
            Result::Err(e) => Result::Err(TableError::SnapshotFetchFailed(e)),
        }
    }
}

} // verus!
