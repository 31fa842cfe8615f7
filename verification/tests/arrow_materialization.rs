use datafusion::arrow::array::Array;

use system_chunks::arrow_columns::{to_arrow_column, ArrowColumn};
use system_chunks::chunk::{Chunk, IdRow};
use system_chunks::columns::ColumnData;
use system_chunks::errors::{StoreError, StoreErrorKind, TableError};
use system_chunks::system_chunks::SystemChunksTableDef;

fn sample_chunk() -> Chunk {
    Chunk {
        partition_id: 9,
        replay_handle_id: 3,
        row_count: None,
        uploaded: Some(true),
        active: Some(true),
        in_memory: Some(false),
        created_at: Some(100),
        oldest_insert_at: None,
        deactivated_at: None,
        file_size: Some(2048),
        min: None,
        max: None,
        suffix: None,
    }
}

#[test]
fn arrow_arrays_hold_the_projected_cells() {
    let def = SystemChunksTableDef;
    let rows = vec![IdRow { id: 1, row: sample_chunk() }];
    let cols = def
        .materialize_arrays(Ok(rows), None)
        .expect("a fetched snapshot materializes without error");
    assert_eq!(cols.len(), 14);

    match &cols[0] {
        ArrowColumn::UInt64(a) => {
            assert_eq!(a.0.len(), 1);
            assert_eq!(a.0.value(0), 1);
            assert!(!a.0.is_null(0));
        }
        _ => panic!("the id column must be unsigned"),
    }
    match &cols[1] {
        ArrowColumn::Text(a) => {
            assert_eq!(a.0.value(0), "1.chunk.parquet");
        }
        _ => panic!("the file_name column must be text"),
    }
    match &cols[4] {
        ArrowColumn::UInt64(a) => {
            assert!(a.0.is_null(0));
        }
        _ => panic!("the row_count column must be unsigned"),
    }
    match &cols[5] {
        ArrowColumn::Boolean(a) => {
            assert!(a.value(0));
        }
        _ => panic!("the uploaded column must be boolean"),
    }
    match &cols[8] {
        ArrowColumn::TimestampNanosecond(a) => {
            assert_eq!(a.0.value(0), 100);
        }
        _ => panic!("the created_at column must be a timestamp"),
    }
    match &cols[9] {
        ArrowColumn::TimestampNanosecond(a) => {
            assert!(a.0.is_null(0));
        }
        _ => panic!("the oldest_insert_at column must be a timestamp"),
    }
    match &cols[11] {
        ArrowColumn::UInt64(a) => {
            assert_eq!(a.0.value(0), 2048);
        }
        _ => panic!("the file_size column must be unsigned"),
    }
    match &cols[12] {
        ArrowColumn::Text(a) => {
            assert!(a.0.is_null(0));
        }
        _ => panic!("the min_row column must be text"),
    }
}

#[test]
fn arrow_empty_snapshot_yields_empty_arrays() {
    let def = SystemChunksTableDef;
    let cols = def
        .materialize_arrays(Ok(Vec::new()), Some(5))
        .expect("an empty snapshot materializes without error");
    assert_eq!(cols.len(), 14);
    for c in &cols {
        let len = match c {
            ArrowColumn::UInt64(a) => a.0.len(),
            ArrowColumn::Boolean(a) => a.len(),
            ArrowColumn::TimestampNanosecond(a) => a.0.len(),
            ArrowColumn::Text(a) => a.0.len(),
        };
        assert_eq!(len, 0);
    }
}

#[test]
fn arrow_materialization_propagates_fetch_failure() {
    let def = SystemChunksTableDef;
    let e = StoreError {
        kind: StoreErrorKind::StoreCorrupt,
        detail: String::from("torn write"),
    };
    match def.materialize_arrays(Err(e), None) {
        Err(TableError::SnapshotFetchFailed(se)) => {
            assert_eq!(se.kind, StoreErrorKind::StoreCorrupt);
            assert_eq!(se.detail, "torn write");
        }
        _ => panic!("the provider's error must be carried verbatim"),
    }
}

#[test]
fn column_conversion_keeps_values_and_nulls() {
    let c = ColumnData::UInt64(vec![Some(4), None, Some(6)]);
    match to_arrow_column(c) {
        ArrowColumn::UInt64(a) => {
            assert_eq!(a.0.len(), 3);
            assert_eq!(a.0.value(0), 4);
            assert!(a.0.is_null(1));
            assert_eq!(a.0.value(2), 6);
        }
        _ => panic!("an unsigned column converts to an unsigned array"),
    }
    let t = ColumnData::Text(vec![Some(String::from("ab")), None]);
    match to_arrow_column(t) {
        ArrowColumn::Text(a) => {
            assert_eq!(a.0.value(0), "ab");
            assert!(a.0.is_null(1));
        }
        _ => panic!("a text column converts to a string array"),
    }
    let b = ColumnData::Boolean(vec![Some(false), None]);
    match to_arrow_column(b) {
        ArrowColumn::Boolean(a) => {
            assert!(!a.value(0));
            assert!(a.is_null(1));
        }
        _ => panic!("a boolean column converts to a boolean array"),
    }
    let ts = ColumnData::TimestampNanosecond(vec![None, Some(-7)]);
    match to_arrow_column(ts) {
        ArrowColumn::TimestampNanosecond(a) => {
            assert!(a.0.is_null(0));
            assert_eq!(a.0.value(1), -7);
        }
        _ => panic!("a timestamp column converts to a timestamp array"),
    }
}
