use system_chunks::bounds::{render_row_bound, BoundValue, RowBound};
use system_chunks::chunk::{Chunk, IdRow};
use system_chunks::columns::ColumnData;
use system_chunks::errors::{StoreError, StoreErrorKind, TableError};
use system_chunks::naming::chunk_file_name;
use system_chunks::schema::ColumnType;
use system_chunks::system_chunks::SystemChunksTableDef;
use system_chunks::text::u64_to_dec;

fn plain_chunk() -> Chunk {
    Chunk {
        partition_id: 0,
        replay_handle_id: 0,
        row_count: None,
        uploaded: None,
        active: None,
        in_memory: None,
        created_at: None,
        oldest_insert_at: None,
        deactivated_at: None,
        file_size: None,
        min: None,
        max: None,
        suffix: None,
    }
}

fn as_u64(c: &ColumnData) -> &Vec<Option<u64>> {
    match c {
        ColumnData::UInt64(v) => v,
        _ => panic!("expected an unsigned column"),
    }
}

fn as_bool(c: &ColumnData) -> &Vec<Option<bool>> {
    match c {
        ColumnData::Boolean(v) => v,
        _ => panic!("expected a boolean column"),
    }
}

fn as_ts(c: &ColumnData) -> &Vec<Option<i64>> {
    match c {
        ColumnData::TimestampNanosecond(v) => v,
        _ => panic!("expected a timestamp column"),
    }
}

fn as_text(c: &ColumnData) -> &Vec<Option<String>> {
    match c {
        ColumnData::Text(v) => v,
        _ => panic!("expected a text column"),
    }
}

#[test]
fn schema_declares_fourteen_fields() {
    let def = SystemChunksTableDef;
    let schema = def.schema();
    let names: Vec<&str> = schema.iter().map(|f| f.name.as_str()).collect();
    assert_eq!(
        names,
        vec![
            "id",
            "file_name",
            "partition_id",
            "replay_handle_id",
            "row_count",
            "uploaded",
            "active",
            "in_memory",
            "created_at",
            "oldest_insert_at",
            "deactivated_at",
            "file_size",
            "min_row",
            "max_row",
        ]
    );
    assert_eq!(schema[0].data_type, ColumnType::UInt64);
    assert!(!schema[0].nullable);
    assert_eq!(schema[1].data_type, ColumnType::Text);
    assert!(!schema[1].nullable);
    assert_eq!(schema[5].data_type, ColumnType::Boolean);
    assert!(schema[5].nullable);
    assert_eq!(schema[8].data_type, ColumnType::TimestampNanosecond);
    assert!(schema[8].nullable);
    assert_eq!(schema[13].data_type, ColumnType::Text);
    assert!(schema[13].nullable);
}

#[test]
fn one_column_per_field_each_of_snapshot_length() {
    let def = SystemChunksTableDef;
    let mut rows = Vec::new();
    for i in 0..5u64 {
        rows.push(IdRow { id: i, row: plain_chunk() });
    }
    let cols = def.columns(&rows);
    assert_eq!(cols.len(), def.schema().len());
    for c in &cols {
        assert_eq!(c.len(), 5);
    }
}

#[test]
fn null_exactly_where_source_attribute_absent() {
    let def = SystemChunksTableDef;
    let mut with_values = plain_chunk();
    with_values.row_count = Some(7);
    with_values.uploaded = Some(false);
    with_values.deactivated_at = Some(33);
    with_values.file_size = Some(1);
    let rows = vec![
        IdRow { id: 1, row: plain_chunk() },
        IdRow { id: 2, row: with_values },
    ];
    let cols = def.columns(&rows);
    assert_eq!(as_u64(&cols[4]).as_slice(), &[None, Some(7)]);
    assert_eq!(as_bool(&cols[5]).as_slice(), &[None, Some(false)]);
    assert_eq!(as_ts(&cols[10]).as_slice(), &[None, Some(33)]);
    assert_eq!(as_u64(&cols[11]).as_slice(), &[None, Some(1)]);
}

#[test]
fn timestamps_are_nullable_at_the_boundary() {
    // The source attributes of the three timestamp fields are optional, so
    // the schema declares them nullable and a row without them yields null
    // timestamp entries.
    let def = SystemChunksTableDef;
    let schema = def.schema();
    assert!(schema[8].nullable && schema[9].nullable && schema[10].nullable);
    let rows = vec![IdRow { id: 1, row: plain_chunk() }];
    let cols = def.columns(&rows);
    assert_eq!(as_ts(&cols[8]).as_slice(), &[None]);
    assert_eq!(as_ts(&cols[9]).as_slice(), &[None]);
    assert_eq!(as_ts(&cols[10]).as_slice(), &[None]);
}

#[test]
fn row_order_is_preserved() {
    let def = SystemChunksTableDef;
    let mut rows = Vec::new();
    // Deliberately unsorted identifiers, with a duplicate partition.
    for (id, pid) in [(9u64, 1u64), (2, 4), (7, 4), (2, 1)] {
        let mut c = plain_chunk();
        c.partition_id = pid;
        rows.push(IdRow { id, row: c });
    }
    let cols = def.columns(&rows);
    assert_eq!(
        as_u64(&cols[0]).as_slice(),
        &[Some(9), Some(2), Some(7), Some(2)]
    );
    assert_eq!(
        as_u64(&cols[2]).as_slice(),
        &[Some(1), Some(4), Some(4), Some(1)]
    );
}

#[test]
fn one_row_scenario() {
    let def = SystemChunksTableDef;
    let chunk = Chunk {
        partition_id: 9,
        replay_handle_id: 3,
        row_count: None,
        uploaded: Some(true),
        active: Some(true),
        in_memory: Some(false),
        created_at: Some(100),
        oldest_insert_at: Some(50),
        deactivated_at: None,
        file_size: Some(2048),
        min: None,
        max: None,
        suffix: None,
    };
    let rows = vec![IdRow { id: 1, row: chunk }];
    let cols = def.columns(&rows);
    assert_eq!(as_u64(&cols[0]).as_slice(), &[Some(1)]);
    assert_eq!(as_u64(&cols[2]).as_slice(), &[Some(9)]);
    assert_eq!(as_u64(&cols[4]).as_slice(), &[None]);
    assert_eq!(as_bool(&cols[5]).as_slice(), &[Some(true)]);
    assert_eq!(as_bool(&cols[6]).as_slice(), &[Some(true)]);
    assert_eq!(as_bool(&cols[7]).as_slice(), &[Some(false)]);
    assert_eq!(as_u64(&cols[11]).as_slice(), &[Some(2048)]);
    assert_eq!(as_text(&cols[12]).as_slice(), &[None]);
    assert_eq!(as_text(&cols[13]).as_slice(), &[None]);
}

#[test]
fn empty_snapshot_yields_empty_columns_of_declared_types() {
    let def = SystemChunksTableDef;
    let r = def.materialize(Ok(Vec::new()), None);
    let cols = r.expect("an empty snapshot materializes without error");
    let schema = def.schema();
    assert_eq!(cols.len(), schema.len());
    for (c, f) in cols.iter().zip(schema.iter()) {
        assert_eq!(c.len(), 0);
        let t = match c {
            ColumnData::UInt64(_) => ColumnType::UInt64,
            ColumnData::Boolean(_) => ColumnType::Boolean,
            ColumnData::TimestampNanosecond(_) => ColumnType::TimestampNanosecond,
            ColumnData::Text(_) => ColumnType::Text,
        };
        assert_eq!(t, f.data_type);
    }
}

#[test]
fn fetch_failure_is_propagated_verbatim() {
    let def = SystemChunksTableDef;
    let e = StoreError {
        kind: StoreErrorKind::StoreUnavailable,
        detail: String::from("store is down"),
    };
    let r = def.materialize(Err(e), Some(10));
    match r {
        Ok(_) => panic!("a failed fetch must not yield columns"),
        Err(TableError::SnapshotFetchFailed(se)) => {
            assert_eq!(se.kind, StoreErrorKind::StoreUnavailable);
            assert_eq!(se.detail, "store is down");
        }
        Err(_) => panic!("the provider's error must be carried verbatim"),
    }
}

#[test]
fn corrupt_store_failure_is_propagated_too() {
    let def = SystemChunksTableDef;
    let e = StoreError {
        kind: StoreErrorKind::StoreCorrupt,
        detail: String::from("bad page"),
    };
    match def.materialize(Err(e), None) {
        Err(TableError::SnapshotFetchFailed(se)) => {
            assert_eq!(se.kind, StoreErrorKind::StoreCorrupt);
            assert_eq!(se.detail, "bad page");
        }
        _ => panic!("the provider's error must be carried verbatim"),
    }
}

#[test]
fn file_name_is_pure_and_never_null() {
    let a = chunk_file_name(42, &Some(String::from("node1")));
    let b = chunk_file_name(42, &Some(String::from("node1")));
    assert_eq!(a, b);
    assert_eq!(a, "42-node1.chunk.parquet");
    assert_eq!(chunk_file_name(1, &None), "1.chunk.parquet");

    let def = SystemChunksTableDef;
    let mut with_suffix = plain_chunk();
    with_suffix.suffix = Some(String::from("s"));
    let rows = vec![
        IdRow { id: 1, row: plain_chunk() },
        IdRow { id: 20, row: with_suffix },
    ];
    let cols = def.columns(&rows);
    let names = as_text(&cols[1]);
    assert_eq!(
        names.as_slice(),
        &[
            Some(String::from("1.chunk.parquet")),
            Some(String::from("20-s.chunk.parquet")),
        ]
    );
}

#[test]
fn id_row_accessors() {
    let mut c = plain_chunk();
    c.partition_id = 9;
    let r = IdRow { id: 1, row: c };
    assert_eq!(r.get_id(), 1);
    assert_eq!(r.get_row().partition_id, 9);
}

#[test]
fn decimal_rendering_exact_values() {
    assert_eq!(u64_to_dec(0), "0");
    assert_eq!(u64_to_dec(10), "10");
    assert_eq!(u64_to_dec(905), "905");
    assert_eq!(u64_to_dec(u64::MAX), "18446744073709551615");
}

#[test]
fn bound_rendering_exact_values() {
    let b = RowBound {
        values: vec![
            BoundValue::Int(1),
            BoundValue::Text(String::from("abc")),
            BoundValue::Null,
            BoundValue::Boolean(true),
        ],
    };
    assert_eq!(render_row_bound(&b), "(1, \"abc\", NULL, true)");
    let empty = RowBound { values: Vec::new() };
    assert_eq!(render_row_bound(&empty), "()");
    let negative = RowBound {
        values: vec![BoundValue::Int(-45), BoundValue::Int(i64::MIN)],
    };
    assert_eq!(render_row_bound(&negative), "(-45, -9223372036854775808)");
    let falsy = RowBound { values: vec![BoundValue::Boolean(false)] };
    assert_eq!(render_row_bound(&falsy), "(false)");
}

#[test]
fn bounds_project_to_display_text() {
    let def = SystemChunksTableDef;
    let mut c = plain_chunk();
    c.min = Some(RowBound { values: vec![BoundValue::Int(3)] });
    c.max = Some(RowBound {
        values: vec![BoundValue::Int(8), BoundValue::Text(String::from("z"))],
    });
    let rows = vec![IdRow { id: 5, row: c }];
    let cols = def.columns(&rows);
    assert_eq!(as_text(&cols[12]).as_slice(), &[Some(String::from("(3)"))]);
    assert_eq!(
        as_text(&cols[13]).as_slice(),
        &[Some(String::from("(8, \"z\")"))]
    );
}

#[test]
fn materialized_snapshot_matches_columns() {
    let def = SystemChunksTableDef;
    let mut c = plain_chunk();
    c.partition_id = 2;
    c.replay_handle_id = 11;
    let rows = vec![IdRow { id: 4, row: c }];
    let cols = def
        .materialize(Ok(rows), Some(1))
        .expect("a fetched snapshot materializes without error");
    assert_eq!(cols.len(), 14);
    assert_eq!(as_u64(&cols[0]).as_slice(), &[Some(4)]);
    assert_eq!(as_u64(&cols[2]).as_slice(), &[Some(2)]);
    assert_eq!(as_u64(&cols[3]).as_slice(), &[Some(11)]);
}
