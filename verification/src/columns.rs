//! Column builders: pure projections from a snapshot to typed, nullable
//! columns.
//!
//! Each builder maps the whole snapshot to one column, independently of the
//! others. Every column holds exactly one entry per snapshot row, in
//! snapshot order, and a null entry exactly where the corresponding source
//! attribute is absent.

use vstd::prelude::*;

use crate::bounds::{row_bound_text, RowBound};
use crate::chunk::{Chunk, IdRow};
use crate::naming::{chunk_file_name, chunk_file_name_text, opt_str_view};
use crate::schema::{field_nullable_spec, field_type_spec, ColumnType, NUM_FIELDS};

verus! {

/// The logical value of one column entry.
pub enum CellValue {
    /// The entry is null: the source attribute is absent.
    Null,
    /// An unsigned 64-bit entry.
    UInt64(u64),
    /// A boolean entry.
    Boolean(bool),
    /// A timestamp entry, in nanoseconds since the epoch.
    TimestampNanosecond(i64),
    /// A textual entry.
    Text(Seq<char>),
}

/// One materialized column: the declared type together with the nullable
/// entries, one per snapshot row.
#[derive(Clone, Debug)]
pub enum ColumnData {
    UInt64(Vec<Option<u64>>),
    Boolean(Vec<Option<bool>>),
    TimestampNanosecond(Vec<Option<i64>>),
    Text(Vec<Option<String>>),
}

/// The cell an optional unsigned entry denotes.
pub open spec fn u64_cell(o: Option<u64>) -> CellValue {
    match o {
        Option::Some(x) => CellValue::UInt64(x),
        Option::None => CellValue::Null,
    }
}

/// The cell an optional boolean entry denotes.
pub open spec fn bool_cell(o: Option<bool>) -> CellValue {
    match o {
        Option::Some(x) => CellValue::Boolean(x),
        Option::None => CellValue::Null,
    }
}

/// The cell an optional timestamp entry denotes.
pub open spec fn ts_cell(o: Option<i64>) -> CellValue {
    match o {
        Option::Some(x) => CellValue::TimestampNanosecond(x),
        Option::None => CellValue::Null,
    }
}

/// The cell an optional textual entry denotes.
pub open spec fn text_cell(o: Option<String>) -> CellValue {
    match o {
        Option::Some(s) => CellValue::Text(s@),
        Option::None => CellValue::Null,
    }
}

/// The cell an optional row-key bound denotes: its display text.
pub open spec fn bound_cell(o: Option<RowBound>) -> CellValue {
    match o {
        Option::Some(b) => CellValue::Text(row_bound_text(b)),
        Option::None => CellValue::Null,
    }
}

impl ColumnData {
    /// The declared type of this column.
    pub open spec fn data_type(self) -> ColumnType {
        match self {
            ColumnData::UInt64(_) => ColumnType::UInt64,
            ColumnData::Boolean(_) => ColumnType::Boolean,
            ColumnData::TimestampNanosecond(_) => ColumnType::TimestampNanosecond,
            ColumnData::Text(_) => ColumnType::Text,
        }
    }

    /// The logical cells of this column, in order.
    pub open spec fn cells(self) -> Seq<CellValue> {
        match self {
            ColumnData::UInt64(v) => v@.map_values(|o: Option<u64>| u64_cell(o)),
            ColumnData::Boolean(v) => v@.map_values(|o: Option<bool>| bool_cell(o)),
            ColumnData::TimestampNanosecond(v) => v@.map_values(|o: Option<i64>| ts_cell(o)),
            ColumnData::Text(v) => v@.map_values(|o: Option<String>| text_cell(o)),
        }
    }

    /// The number of entries of this column.
    pub fn len(&self) -> (n: usize)
        ensures
            n == self.cells().len(),
    {
        match self {
            ColumnData::UInt64(v) => v.len(),
            ColumnData::Boolean(v) => v.len(),
            ColumnData::TimestampNanosecond(v) => v.len(),
            ColumnData::Text(v) => v.len(),
        }
    }
}

/// The cell the field at position `j` holds for snapshot row `r`.
pub open spec fn spec_cell(r: IdRow<Chunk>, j: int) -> CellValue {
    if j == 0 {
        CellValue::UInt64(r.id)
    } else if j == 1 {
        CellValue::Text(chunk_file_name_text(r.id, opt_str_view(r.row.suffix)))
    } else if j == 2 {
        CellValue::UInt64(r.row.partition_id)
    } else if j == 3 {
        CellValue::UInt64(r.row.replay_handle_id)
    } else if j == 4 {
        u64_cell(r.row.row_count)
    } else if j == 5 {
        bool_cell(r.row.uploaded)
    } else if j == 6 {
        bool_cell(r.row.active)
    } else if j == 7 {
        bool_cell(r.row.in_memory)
    } else if j == 8 {
        ts_cell(r.row.created_at)
    } else if j == 9 {
        ts_cell(r.row.oldest_insert_at)
    } else if j == 10 {
        ts_cell(r.row.deactivated_at)
    } else if j == 11 {
        u64_cell(r.row.file_size)
    } else if j == 12 {
        bound_cell(r.row.min)
    } else {
        bound_cell(r.row.max)
    }
}

/// The whole column of the field at position `j`: one cell per snapshot
/// row, in snapshot order.
pub open spec fn spec_column(rows: Seq<IdRow<Chunk>>, j: int) -> Seq<CellValue> {
    rows.map_values(|r: IdRow<Chunk>| spec_cell(r, j))
}

/// Whether the source attribute the field at position `j` projects is
/// absent on row `r`. Only nullable fields project an optional attribute.
pub open spec fn source_attribute_absent(r: IdRow<Chunk>, j: int) -> bool {
    if j == 4 {
        r.row.row_count is None
    } else if j == 5 {
        r.row.uploaded is None
    } else if j == 6 {
        r.row.active is None
    } else if j == 7 {
        r.row.in_memory is None
    } else if j == 8 {
        r.row.created_at is None
    } else if j == 9 {
        r.row.oldest_insert_at is None
    } else if j == 10 {
        r.row.deactivated_at is None
    } else if j == 11 {
        r.row.file_size is None
    } else if j == 12 {
        r.row.min is None
    } else if j == 13 {
        r.row.max is None
    } else {
        false
    }
}

/// Law: every column holds exactly one cell per snapshot row.
pub proof fn lemma_column_lengths(rows: Seq<IdRow<Chunk>>, j: int)
    ensures
        spec_column(rows, j).len() == rows.len(),
{
}

/// Law: row order is preserved — the cell at row position `i` of any column
/// is the projection of snapshot row `i`; no reordering, no deduplication.
pub proof fn lemma_row_alignment(rows: Seq<IdRow<Chunk>>, i: int, j: int)
    requires
        0 <= i < rows.len(),
    ensures
        spec_column(rows, j)[i] == spec_cell(rows[i], j),
{
}

/// Law: for every row and nullable field, the cell is null exactly when the
/// corresponding source attribute is absent on that row.
pub proof fn lemma_null_iff_absent(rows: Seq<IdRow<Chunk>>, i: int, j: int)
    requires
        0 <= i < rows.len(),
        0 <= j < NUM_FIELDS as int,
        field_nullable_spec(j),
    ensures
        (spec_column(rows, j)[i] is Null) <==> source_attribute_absent(rows[i], j),
{
}

/// Law: a field declared non-nullable never holds a null cell.
pub proof fn lemma_non_nullable_never_null(rows: Seq<IdRow<Chunk>>, i: int, j: int)
    requires
        0 <= i < rows.len(),
        0 <= j < NUM_FIELDS as int,
        !field_nullable_spec(j),
    ensures
        !(spec_column(rows, j)[i] is Null),
{
}

/// Builds the `id` column.
pub fn id_column(rows: &Vec<IdRow<Chunk>>) -> (c: ColumnData)
    ensures
        c.data_type() == field_type_spec(0),
        c.cells() == spec_column(rows@, 0),
{
    let mut v: Vec<Option<u64>> = Vec::new();
    let n = rows.len();
    let mut i: usize = 0;
    while i < n
        invariant
            n == rows@.len(),
            i <= n,
            v@.len() == i,
            forall|k: int| 0 <= k < i ==> u64_cell(v@[k]) == spec_cell(rows@[k], 0),
        decreases n - i,
    {
        v.push(Some(rows[i].id));
        i = i + 1;
    }
    let c = ColumnData::UInt64(v);
    proof {
        assert(c.cells() =~= spec_column(rows@, 0));
    }
    c
}

/// Builds the `file_name` column: the name derived from each row's
/// identifier and suffix. Never null.
pub fn file_name_column(rows: &Vec<IdRow<Chunk>>) -> (c: ColumnData)
    ensures
        c.data_type() == field_type_spec(1),
        c.cells() == spec_column(rows@, 1),
{
    let mut v: Vec<Option<String>> = Vec::new();
    let n = rows.len();
    let mut i: usize = 0;
    while i < n
        invariant
            n == rows@.len(),
            i <= n,
            v@.len() == i,
            forall|k: int| 0 <= k < i ==> text_cell(v@[k]) == spec_cell(rows@[k], 1),
        decreases n - i,
    {
        let name = chunk_file_name(rows[i].id, &rows[i].row.suffix);
        v.push(Some(name));
        i = i + 1;
    }
    let c = ColumnData::Text(v);
    proof {
        assert(c.cells() =~= spec_column(rows@, 1));
    }
    c
}

/// Builds the `partition_id` column.
pub fn partition_id_column(rows: &Vec<IdRow<Chunk>>) -> (c: ColumnData)
    ensures
        c.data_type() == field_type_spec(2),
        c.cells() == spec_column(rows@, 2),
{
    let mut v: Vec<Option<u64>> = Vec::new();
    let n = rows.len();
    let mut i: usize = 0;
    while i < n
        invariant
            n == rows@.len(),
            i <= n,
            v@.len() == i,
            forall|k: int| 0 <= k < i ==> u64_cell(v@[k]) == spec_cell(rows@[k], 2),
        decreases n - i,
    {
        v.push(Some(rows[i].row.partition_id));
        i = i + 1;
    }
    let c = ColumnData::UInt64(v);
    proof {
        assert(c.cells() =~= spec_column(rows@, 2));
    }
    c
}

/// Builds the `replay_handle_id` column.
pub fn replay_handle_id_column(rows: &Vec<IdRow<Chunk>>) -> (c: ColumnData)
    ensures
        c.data_type() == field_type_spec(3),
        c.cells() == spec_column(rows@, 3),
{
    let mut v: Vec<Option<u64>> = Vec::new();
    let n = rows.len();
    let mut i: usize = 0;
    while i < n
        invariant
            n == rows@.len(),
            i <= n,
            v@.len() == i,
            forall|k: int| 0 <= k < i ==> u64_cell(v@[k]) == spec_cell(rows@[k], 3),
        decreases n - i,
    {
        v.push(Some(rows[i].row.replay_handle_id));
        i = i + 1;
    }
    let c = ColumnData::UInt64(v);
    proof {
        assert(c.cells() =~= spec_column(rows@, 3));
    }
    c
}

/// Builds the `row_count` column.
pub fn row_count_column(rows: &Vec<IdRow<Chunk>>) -> (c: ColumnData)
    ensures
        c.data_type() == field_type_spec(4),
        c.cells() == spec_column(rows@, 4),
{
    let mut v: Vec<Option<u64>> = Vec::new();
    let n = rows.len();
    let mut i: usize = 0;
    while i < n
        invariant
            n == rows@.len(),
            i <= n,
            v@.len() == i,
            forall|k: int| 0 <= k < i ==> u64_cell(v@[k]) == spec_cell(rows@[k], 4),
        decreases n - i,
    {
        v.push(rows[i].row.row_count);
        i = i + 1;
    }
    let c = ColumnData::UInt64(v);
    proof {
        assert(c.cells() =~= spec_column(rows@, 4));
    }
    c
}

/// Builds the `uploaded` column.
pub fn uploaded_column(rows: &Vec<IdRow<Chunk>>) -> (c: ColumnData)
    ensures
        c.data_type() == field_type_spec(5),
        c.cells() == spec_column(rows@, 5),
{
    let mut v: Vec<Option<bool>> = Vec::new();
    let n = rows.len();
    let mut i: usize = 0;
    while i < n
        invariant
            n == rows@.len(),
            i <= n,
            v@.len() == i,
            forall|k: int| 0 <= k < i ==> bool_cell(v@[k]) == spec_cell(rows@[k], 5),
        decreases n - i,
    {
        v.push(rows[i].row.uploaded);
        i = i + 1;
    }
    let c = ColumnData::Boolean(v);
    proof {
        assert(c.cells() =~= spec_column(rows@, 5));
    }
    c
}

/// Builds the `active` column.
pub fn active_column(rows: &Vec<IdRow<Chunk>>) -> (c: ColumnData)
    ensures
        c.data_type() == field_type_spec(6),
        c.cells() == spec_column(rows@, 6),
{
    let mut v: Vec<Option<bool>> = Vec::new();
    let n = rows.len();
    let mut i: usize = 0;
    while i < n
        invariant
            n == rows@.len(),
            i <= n,
            v@.len() == i,
            forall|k: int| 0 <= k < i ==> bool_cell(v@[k]) == spec_cell(rows@[k], 6),
        decreases n - i,
    {
        v.push(rows[i].row.active);
        i = i + 1;
    }
    let c = ColumnData::Boolean(v);
    proof {
        assert(c.cells() =~= spec_column(rows@, 6));
    }
    c
}

/// Builds the `in_memory` column.
pub fn in_memory_column(rows: &Vec<IdRow<Chunk>>) -> (c: ColumnData)
    ensures
        c.data_type() == field_type_spec(7),
        c.cells() == spec_column(rows@, 7),
{
    let mut v: Vec<Option<bool>> = Vec::new();
    let n = rows.len();
    let mut i: usize = 0;
    while i < n
        invariant
            n == rows@.len(),
            i <= n,
            v@.len() == i,
            forall|k: int| 0 <= k < i ==> bool_cell(v@[k]) == spec_cell(rows@[k], 7),
        decreases n - i,
    {
        v.push(rows[i].row.in_memory);
        i = i + 1;
    }
    let c = ColumnData::Boolean(v);
    proof {
        assert(c.cells() =~= spec_column(rows@, 7));
    }
    c
}

/// Builds the `created_at` column.
pub fn created_at_column(rows: &Vec<IdRow<Chunk>>) -> (c: ColumnData)
    ensures
        c.data_type() == field_type_spec(8),
        c.cells() == spec_column(rows@, 8),
{
    let mut v: Vec<Option<i64>> = Vec::new();
    let n = rows.len();
    let mut i: usize = 0;
    while i < n
        invariant
            n == rows@.len(),
            i <= n,
            v@.len() == i,
            forall|k: int| 0 <= k < i ==> ts_cell(v@[k]) == spec_cell(rows@[k], 8),
        decreases n - i,
    {
        v.push(rows[i].row.created_at);
        i = i + 1;
    }
    let c = ColumnData::TimestampNanosecond(v);
    proof {
        assert(c.cells() =~= spec_column(rows@, 8));
    }
    c
}

/// Builds the `oldest_insert_at` column.
pub fn oldest_insert_at_column(rows: &Vec<IdRow<Chunk>>) -> (c: ColumnData)
    ensures
        c.data_type() == field_type_spec(9),
        c.cells() == spec_column(rows@, 9),
{
    let mut v: Vec<Option<i64>> = Vec::new();
    let n = rows.len();
    let mut i: usize = 0;
    while i < n
        invariant
            n == rows@.len(),
            i <= n,
            v@.len() == i,
            forall|k: int| 0 <= k < i ==> ts_cell(v@[k]) == spec_cell(rows@[k], 9),
        decreases n - i,
    {
        v.push(rows[i].row.oldest_insert_at);
        i = i + 1;
    }
    let c = ColumnData::TimestampNanosecond(v);
    proof {
        assert(c.cells() =~= spec_column(rows@, 9));
    }
    c
}

/// Builds the `deactivated_at` column.
pub fn deactivated_at_column(rows: &Vec<IdRow<Chunk>>) -> (c: ColumnData)
    ensures
        c.data_type() == field_type_spec(10),
        c.cells() == spec_column(rows@, 10),
{
    let mut v: Vec<Option<i64>> = Vec::new();
    let n = rows.len();
    let mut i: usize = 0;
    while i < n
        invariant
            n == rows@.len(),
            i <= n,
            v@.len() == i,
            forall|k: int| 0 <= k < i ==> ts_cell(v@[k]) == spec_cell(rows@[k], 10),
        decreases n - i,
    {
        v.push(rows[i].row.deactivated_at);
        i = i + 1;
    }
    let c = ColumnData::TimestampNanosecond(v);
    proof {
        assert(c.cells() =~= spec_column(rows@, 10));
    }
    c
}

/// Builds the `file_size` column.
pub fn file_size_column(rows: &Vec<IdRow<Chunk>>) -> (c: ColumnData)
    ensures
        c.data_type() == field_type_spec(11),
        c.cells() == spec_column(rows@, 11),
{
    let mut v: Vec<Option<u64>> = Vec::new();
    let n = rows.len();
    let mut i: usize = 0;
    while i < n
        invariant
            n == rows@.len(),
            i <= n,
            v@.len() == i,
            forall|k: int| 0 <= k < i ==> u64_cell(v@[k]) == spec_cell(rows@[k], 11),
        decreases n - i,
    {
        v.push(rows[i].row.file_size);
        i = i + 1;
    }
    let c = ColumnData::UInt64(v);
    proof {
        assert(c.cells() =~= spec_column(rows@, 11));
    }
    c
}

/// Builds the `min_row` column: the display text of each row's minimum
/// row-key bound.
pub fn min_row_column(rows: &Vec<IdRow<Chunk>>) -> (c: ColumnData)
    ensures
        c.data_type() == field_type_spec(12),
        c.cells() == spec_column(rows@, 12),
{
    let mut v: Vec<Option<String>> = Vec::new();
    let n = rows.len();
    let mut i: usize = 0;
    while i < n
        invariant
            n == rows@.len(),
            i <= n,
            v@.len() == i,
            forall|k: int| 0 <= k < i ==> text_cell(v@[k]) == spec_cell(rows@[k], 12),
        decreases n - i,
    {
        match &rows[i].row.min {
            Option::Some(b) => {
                let s = crate::bounds::render_row_bound(b);
                v.push(Some(s));
            },
            Option::None => {
                v.push(None);
            },
        }
        i = i + 1;
    }
    let c = ColumnData::Text(v);
    proof {
        assert(c.cells() =~= spec_column(rows@, 12));
    }
    c
}

/// Builds the `max_row` column: the display text of each row's maximum
/// row-key bound.
pub fn max_row_column(rows: &Vec<IdRow<Chunk>>) -> (c: ColumnData)
    ensures
        c.data_type() == field_type_spec(13),
        c.cells() == spec_column(rows@, 13),
{
    let mut v: Vec<Option<String>> = Vec::new();
    let n = rows.len();
    let mut i: usize = 0;
    while i < n
        invariant
            n == rows@.len(),
            i <= n,
            v@.len() == i,
            forall|k: int| 0 <= k < i ==> text_cell(v@[k]) == spec_cell(rows@[k], 13),
        decreases n - i,
    {
        match &rows[i].row.max {
            Option::Some(b) => {
                let s = crate::bounds::render_row_bound(b);
                v.push(Some(s));
            },
            Option::None => {
                v.push(None);
            },
        }
        i = i + 1;
    }
    let c = ColumnData::Text(v);
    proof {
        assert(c.cells() =~= spec_column(rows@, 13));
    }
    c
}

} // verus!
