use std::sync::Arc;

use arrow::datatypes::{DataType, Field, Schema, SchemaRef};
use datafusion_common::ScalarValue;

use values_exec::columnar::{
    array_from_scalars, array_scalar, batch_column, batch_eq, batch_rows, clone_batch, Batch,
    EvaluatedValue, PhysExpr,
};
use values_exec::error::ValuesError;
use values_exec::properties::{Boundedness, EmissionType, Partitioning};
use values_exec::stats::{ColumnStatistics, CountPrecision, Statistics, ValuePrecision};
use values_exec::values::{scalar_from_value, DisplayFormatType, ValuesExec};

/// A thirteen-column schema of mixed types.
fn aggr_test_schema() -> SchemaRef {
    Arc::new(Schema::new(vec![
        Field::new("c1", DataType::Utf8, false),
        Field::new("c2", DataType::UInt32, false),
        Field::new("c3", DataType::Int8, false),
        Field::new("c4", DataType::Int16, false),
        Field::new("c5", DataType::Int32, false),
        Field::new("c6", DataType::Int64, false),
        Field::new("c7", DataType::UInt8, false),
        Field::new("c8", DataType::UInt16, false),
        Field::new("c9", DataType::UInt32, false),
        Field::new("c10", DataType::UInt64, false),
        Field::new("c11", DataType::Float32, false),
        Field::new("c12", DataType::Float64, false),
        Field::new("c13", DataType::Utf8, false),
    ]))
}

/// One single-column batch: an Int32 column named "i" holding `0..sz`.
fn make_partition(sz: i32) -> (SchemaRef, Batch) {
    let schema = Arc::new(Schema::new(vec![Field::new("i", DataType::Int32, true)]));
    let scalars: Vec<ScalarValue> = (0..sz).map(|v| ScalarValue::Int32(Some(v))).collect();
    let column = array_from_scalars(scalars).unwrap();
    let batch =
        values_exec::columnar::make_batch(&schema, vec![column], sz as usize).unwrap();
    (schema, batch)
}

#[test]
fn values_empty_case() {
    let schema = aggr_test_schema();
    let empty = ValuesExec::try_new(schema, vec![]);
    assert!(empty.is_err());
}

#[test]
fn new_exec_with_batches() {
    let (schema, batch) = make_partition(7);
    let batches = vec![clone_batch(&batch), batch];
    let _exec = ValuesExec::try_new_from_batches(schema, batches).unwrap();
}

#[test]
fn new_exec_with_batches_empty() {
    let (schema, _batch) = make_partition(7);
    let _ = ValuesExec::try_new_from_batches(schema, Vec::new()).unwrap_err();
}

#[test]
fn new_exec_with_batches_invalid_schema() {
    let (_schema, batch) = make_partition(7);
    let batches = vec![clone_batch(&batch), batch];

    let invalid_schema = Arc::new(Schema::new(vec![
        Field::new("col0", DataType::UInt32, false),
        Field::new("col1", DataType::Utf8, false),
    ]));
    let _ = ValuesExec::try_new_from_batches(invalid_schema, batches).unwrap_err();
}

#[test]
fn new_exec_with_non_nullable_schema() {
    let schema = Arc::new(Schema::new(vec![Field::new("col0", DataType::UInt32, false)]));
    let _ = ValuesExec::try_new(
        Arc::clone(&schema),
        vec![vec![PhysExpr::literal(ScalarValue::UInt32(Some(1)))]],
    )
    .unwrap();
    // A null literal must be rejected by the non-nullable column.
    let _ = ValuesExec::try_new(
        schema,
        vec![vec![PhysExpr::literal(ScalarValue::UInt32(None))]],
    )
    .unwrap_err();
}

#[test]
fn values_stats_with_nulls_only() {
    let data = vec![
        vec![PhysExpr::literal(ScalarValue::Null)],
        vec![PhysExpr::literal(ScalarValue::Null)],
        vec![PhysExpr::literal(ScalarValue::Null)],
    ];
    let rows = data.len();
    let values = ValuesExec::try_new(
        Arc::new(Schema::new(vec![Field::new("col0", DataType::Null, true)])),
        data,
    )
    .unwrap();

    let stats = values.statistics().unwrap();
    assert_eq!(
        stats,
        Statistics {
            num_rows: CountPrecision::Exact(rows),
            total_byte_size: CountPrecision::Exact(8), // not important
            column_statistics: vec![ColumnStatistics {
                null_count: CountPrecision::Exact(rows), // there are only nulls
                distinct_count: CountPrecision::Absent,
                max_value: ValuePrecision::Absent,
                min_value: ValuePrecision::Absent,
                sum_value: ValuePrecision::Absent,
            }],
        }
    );
}

#[test]
fn grid_construction_is_row_major() {
    let schema = Arc::new(Schema::new(vec![
        Field::new("a", DataType::UInt32, false),
        Field::new("b", DataType::Utf8, false),
    ]));
    let grid = vec![
        vec![
            PhysExpr::literal(ScalarValue::UInt32(Some(1))),
            PhysExpr::literal(ScalarValue::Utf8(Some("x".to_string()))),
        ],
        vec![
            PhysExpr::literal(ScalarValue::UInt32(Some(2))),
            PhysExpr::literal(ScalarValue::Utf8(Some("y".to_string()))),
        ],
    ];
    let node = ValuesExec::try_new(Arc::clone(&schema), grid).unwrap();
    let data = node.data();
    assert_eq!(data.len(), 1);
    let batch = &data[0];
    assert_eq!(batch_rows(batch), 2);

    let col_a = batch_column(batch, 0);
    assert_eq!(array_scalar(&col_a, 0).unwrap(), ScalarValue::UInt32(Some(1)));
    assert_eq!(array_scalar(&col_a, 1).unwrap(), ScalarValue::UInt32(Some(2)));
    let col_b = batch_column(batch, 1);
    assert_eq!(
        array_scalar(&col_b, 0).unwrap(),
        ScalarValue::Utf8(Some("x".to_string()))
    );
    assert_eq!(
        array_scalar(&col_b, 1).unwrap(),
        ScalarValue::Utf8(Some("y".to_string()))
    );
}

#[test]
fn empty_grid_and_empty_batches_give_empty_input() {
    let schema = Arc::new(Schema::new(vec![Field::new("a", DataType::UInt32, true)]));
    assert!(matches!(
        ValuesExec::try_new(Arc::clone(&schema), vec![]),
        Err(ValuesError::EmptyInput)
    ));
    assert!(matches!(
        ValuesExec::try_new_from_batches(schema, vec![]),
        Err(ValuesError::EmptyInput)
    ));
}

#[test]
fn schema_mismatch_carries_both_schemas() {
    let (batch_schema, batch) = make_partition(3);
    let declared = Arc::new(Schema::new(vec![Field::new("col0", DataType::UInt32, false)]));
    match ValuesExec::try_new_from_batches(Arc::clone(&declared), vec![batch]) {
        Err(ValuesError::SchemaMismatch { expected, actual }) => {
            assert_eq!(expected, declared);
            assert_eq!(actual, batch_schema);
        }
        other => panic!("expected a schema mismatch, got {other:?}"),
    }
}

#[test]
fn matching_batches_succeed() {
    let (schema, batch) = make_partition(5);
    let node = ValuesExec::try_new_from_batches(Arc::clone(&schema), vec![batch]).unwrap();
    assert_eq!(node.data().len(), 1);
    assert_eq!(batch_rows(&node.data()[0]), 5);
}

#[test]
fn literal_array_shapes_are_rejected() {
    let two = array_from_scalars(vec![
        ScalarValue::Int32(Some(1)),
        ScalarValue::Int32(Some(2)),
    ])
    .unwrap();
    assert!(matches!(
        scalar_from_value(EvaluatedValue::Array(two)),
        Err(ValuesError::InvalidLiteralShape { length: 2 })
    ));

    let one = array_from_scalars(vec![ScalarValue::Int32(Some(7))]).unwrap();
    assert_eq!(
        scalar_from_value(EvaluatedValue::Array(one)).unwrap(),
        ScalarValue::Int32(Some(7))
    );

    let passed = ScalarValue::Utf8(Some("z".to_string()));
    assert_eq!(
        scalar_from_value(EvaluatedValue::Scalar(passed.clone())).unwrap(),
        passed
    );
}

#[test]
fn execute_yields_batches_in_order() {
    let schema = Arc::new(Schema::new(vec![Field::new("i", DataType::Int32, true)]));
    let first = values_exec::columnar::make_batch(
        &schema,
        vec![array_from_scalars(vec![
            ScalarValue::Int32(Some(10)),
            ScalarValue::Int32(Some(11)),
        ])
        .unwrap()],
        2,
    )
    .unwrap();
    let second = values_exec::columnar::make_batch(
        &schema,
        vec![array_from_scalars(vec![ScalarValue::Int32(Some(20))]).unwrap()],
        1,
    )
    .unwrap();
    let node = ValuesExec::try_new_from_batches(
        Arc::clone(&schema),
        vec![clone_batch(&first), clone_batch(&second)],
    )
    .unwrap();

    let mut stream = node.execute(0).unwrap();
    assert_eq!(stream.schema(), schema);
    let got_first = stream.next_batch().expect("first batch");
    assert!(batch_eq(&got_first, &first));
    let got_second = stream.next_batch().expect("second batch");
    assert!(batch_eq(&got_second, &second));
    assert!(stream.next_batch().is_none());
    assert!(stream.next_batch().is_none());
}

#[test]
fn execute_rejects_other_partitions() {
    let (schema, batch) = make_partition(2);
    let node = ValuesExec::try_new_from_batches(schema, vec![batch]).unwrap();
    assert!(matches!(
        node.execute(1),
        Err(ValuesError::InvalidPartition { requested: 1 })
    ));
    assert!(matches!(
        node.execute(7),
        Err(ValuesError::InvalidPartition { requested: 7 })
    ));
}

#[test]
fn reparenting_keeps_schema_and_batches() {
    let (schema, batch) = make_partition(4);
    let node =
        ValuesExec::try_new_from_batches(Arc::clone(&schema), vec![clone_batch(&batch)])
            .unwrap();
    let rebuilt = node.with_new_children(vec![]).unwrap();
    let data = rebuilt.data();
    assert_eq!(data.len(), 1);
    assert!(batch_eq(&data[0], &batch));
    assert_eq!(rebuilt.properties().schema, schema);
}

#[test]
fn properties_are_schema_derived() {
    let (schema, batch) = make_partition(3);
    let node = ValuesExec::try_new_from_batches(Arc::clone(&schema), vec![batch]).unwrap();
    let props = node.properties();
    assert_eq!(props.schema, schema);
    assert!(matches!(props.partitioning, Partitioning::UnknownPartitioning(1)));
    assert!(matches!(props.emission_type, EmissionType::Incremental));
    assert!(matches!(props.boundedness, Boundedness::Bounded));
    assert_eq!(node.output_partition_count(), 1);
    assert_eq!(node.children().len(), 0);
}

#[test]
fn display_forms() {
    let (schema, batch) = make_partition(1);
    let node = ValuesExec::try_new_from_batches(schema, vec![batch]).unwrap();
    assert_eq!(node.name(), "ValuesExec");
    assert_eq!(node.fmt_as(DisplayFormatType::Default), "ValuesExec");
    assert_eq!(node.fmt_as(DisplayFormatType::Verbose), "ValuesExec");
    assert_eq!(node.fmt_as(DisplayFormatType::TreeRender), "");
}

#[test]
fn statistics_sum_over_batches() {
    let schema = Arc::new(Schema::new(vec![Field::new("v", DataType::Int32, true)]));
    let with_null = values_exec::columnar::make_batch(
        &schema,
        vec![array_from_scalars(vec![
            ScalarValue::Int32(Some(1)),
            ScalarValue::Int32(None),
            ScalarValue::Int32(Some(3)),
        ])
        .unwrap()],
        3,
    )
    .unwrap();
    let without_null = values_exec::columnar::make_batch(
        &schema,
        vec![array_from_scalars(vec![
            ScalarValue::Int32(Some(4)),
            ScalarValue::Int32(Some(5)),
        ])
        .unwrap()],
        2,
    )
    .unwrap();
    let node =
        ValuesExec::try_new_from_batches(schema, vec![with_null, without_null]).unwrap();
    let stats = node.statistics().unwrap();
    assert_eq!(stats.num_rows, CountPrecision::Exact(5));
    assert_eq!(stats.column_statistics.len(), 1);
    assert_eq!(stats.column_statistics[0].null_count, CountPrecision::Exact(1));
    assert_eq!(stats.column_statistics[0].max_value, ValuePrecision::Absent);
    assert!(matches!(stats.total_byte_size, CountPrecision::Exact(_)));
}

#[test]
fn error_messages_are_fixed() {
    assert_eq!(
        ValuesError::EmptyInput.message(),
        "values list cannot be empty"
    );
    assert_eq!(
        ValuesError::InvalidLiteralShape { length: 3 }.message(),
        "array values are not permitted in a values list"
    );
    assert_eq!(
        ValuesError::InvalidPartition { requested: 2 }.message(),
        "invalid partition: a values node has a single partition 0"
    );
}
