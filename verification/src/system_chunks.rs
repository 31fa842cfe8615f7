//! The chunk metadata table: schema declaration and materialization.

use vstd::prelude::*;

use crate::chunk::{Chunk, IdRow};
use crate::columns::{
    active_column, created_at_column, deactivated_at_column, file_name_column, file_size_column,
    id_column, in_memory_column, max_row_column, min_row_column, oldest_insert_at_column,
    partition_id_column, replay_handle_id_column, row_count_column, spec_column, uploaded_column,
    ColumnData,
};
use crate::errors::{StoreError, TableError};
use crate::schema::{field_name_spec, field_nullable_spec, field_type_spec, Field, NUM_FIELDS};

verus! {

/// The definition of the chunk metadata table: a fixed schema and, for each
/// declared field, the builder that projects a snapshot into that field's
/// column. Schema and builders are paired statically, one to one, so their
/// counts cannot drift apart.
pub struct SystemChunksTableDef;

impl SystemChunksTableDef {
    /// Declares the table's fields: names, column types and nullability, in
    /// column order. Pure and static; no data access.
    pub fn schema(&self) -> (r: Vec<Field>)
        ensures
            r@.len() == NUM_FIELDS as int,
            forall|j: int|
                0 <= j < NUM_FIELDS as int ==> (#[trigger] r@[j]).name@ == field_name_spec(j)
                    && r@[j].data_type == field_type_spec(j) && r@[j].nullable
                    == field_nullable_spec(j),
    {
        let mut r: Vec<Field> = Vec::new();
        r.push(
            Field {
                name: String::from_str("id"),
                data_type: crate::schema::ColumnType::UInt64,
                nullable: false,
            },
        );
        r.push(
            Field {
                name: String::from_str("file_name"),
                data_type: crate::schema::ColumnType::Text,
                nullable: false,
            },
        );
        r.push(
            Field {
                name: String::from_str("partition_id"),
                data_type: crate::schema::ColumnType::UInt64,
                nullable: false,
            },
        );
        r.push(
            Field {
                name: String::from_str("replay_handle_id"),
                data_type: crate::schema::ColumnType::UInt64,
                nullable: false,
            },
        );
        r.push(
            Field {
                name: String::from_str("row_count"),
                data_type: crate::schema::ColumnType::UInt64,
                nullable: true,
            },
        );
        r.push(
            Field {
                name: String::from_str("uploaded"),
                data_type: crate::schema::ColumnType::Boolean,
                nullable: true,
            },
        );
        r.push(
            Field {
                name: String::from_str("active"),
                data_type: crate::schema::ColumnType::Boolean,
                nullable: true,
            },
        );
        r.push(
            Field {
                name: String::from_str("in_memory"),
                data_type: crate::schema::ColumnType::Boolean,
                nullable: true,
            },
        );
        r.push(
            Field {
                name: String::from_str("created_at"),
                data_type: crate::schema::ColumnType::TimestampNanosecond,
                nullable: true,
            },
        );
        r.push(
            Field {
                name: String::from_str("oldest_insert_at"),
                data_type: crate::schema::ColumnType::TimestampNanosecond,
                nullable: true,
            },
        );
        r.push(
            Field {
                name: String::from_str("deactivated_at"),
                data_type: crate::schema::ColumnType::TimestampNanosecond,
                nullable: true,
            },
        );
        r.push(
            Field {
                name: String::from_str("file_size"),
                data_type: crate::schema::ColumnType::UInt64,
                nullable: true,
            },
        );
        r.push(
            Field {
                name: String::from_str("min_row"),
                data_type: crate::schema::ColumnType::Text,
                nullable: true,
            },
        );
        r.push(
            Field {
                name: String::from_str("max_row"),
                data_type: crate::schema::ColumnType::Text,
                nullable: true,
            },
        );
        r
    }

    /// Applies every column builder to the whole snapshot, producing one
    /// column per declared field: positionally aligned with the schema, each
    /// of the declared type, holding one cell per snapshot row in snapshot
    /// order.
    pub fn columns(&self, rows: &Vec<IdRow<Chunk>>) -> (r: Vec<ColumnData>)
        ensures
            r@.len() == NUM_FIELDS as int,
            forall|j: int|
                0 <= j < NUM_FIELDS as int ==> (#[trigger] r@[j]).data_type() == field_type_spec(j)
                    && r@[j].cells() == spec_column(rows@, j),
    {
        let mut r: Vec<ColumnData> = Vec::new();
        r.push(id_column(rows));
        r.push(file_name_column(rows));
        r.push(partition_id_column(rows));
        r.push(replay_handle_id_column(rows));
        r.push(row_count_column(rows));
        r.push(uploaded_column(rows));
        r.push(active_column(rows));
        r.push(in_memory_column(rows));
        r.push(created_at_column(rows));
        r.push(oldest_insert_at_column(rows));
        r.push(deactivated_at_column(rows));
        r.push(file_size_column(rows));
        r.push(min_row_column(rows));
        r.push(max_row_column(rows));
        r
    }

    /// Materializes the table from the outcome of one snapshot fetch.
    ///
    /// On a fetched snapshot, returns the full column set: one column per
    /// schema field, never a partial set, and never `SchemaColumnMismatch`.
    /// On a fetch failure, propagates the provider's error verbatim inside
    /// `SnapshotFetchFailed` and returns no columns. The limit hint is
    /// advisory only: the builders do not truncate, so it does not affect
    /// the outcome.
    pub fn materialize(
        &self,
        fetch: Result<Vec<IdRow<Chunk>>, StoreError>,
        _limit_hint: Option<usize>,
    ) -> (r: Result<Vec<ColumnData>, TableError>)
        ensures
            fetch matches Ok(rows) ==> r matches Ok(cols) && cols@.len() == NUM_FIELDS as int
                && (forall|j: int|
                0 <= j < NUM_FIELDS as int ==> (#[trigger] cols@[j]).data_type()
                    == field_type_spec(j) && cols@[j].cells() == spec_column(rows@, j)),
            fetch matches Err(e) ==> r matches Err(te) && te matches TableError::SnapshotFetchFailed(
                se,
            ) && se == e,
    {
        match fetch {
            Result::Ok(rows) => Result::Ok(self.columns(&rows)),
            Result::Err(e) => Result::Err(TableError::SnapshotFetchFailed(e)),
        }
    }
}

} // verus!
