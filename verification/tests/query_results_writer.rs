use hetu::error::HetuError;
use hetu::query::utils::query_results_writer::{
    check_cell, convert_field_type, convert_schema, make_column_from_field, row_operations,
    Block, Cell, Column, ColumnType, DFQueryResultWriter, DataType, Field, Reply, RowOperation,
    TimeUnit,
};

fn value(block: usize, row: usize, column: usize) -> RowOperation {
    RowOperation::WriteValue { block, row, column }
}

fn batch(fields: Vec<Field>, cells: Vec<Vec<Cell>>) -> Block {
    Block { fields, cells }
}

fn field(name: &str, data_type: DataType, shown_as: &str) -> Field {
    Field {
        name: name.to_string(),
        data_type,
        shown_as: shown_as.to_string(),
    }
}

fn column(name: &str, coltype: ColumnType) -> Column {
    Column {
        table: String::new(),
        column: name.to_string(),
        coltype,
    }
}

#[test]
fn every_data_type_has_its_column_type() {
    let cases = [
        (DataType::Int8, ColumnType::Long),
        (DataType::Int16, ColumnType::Long),
        (DataType::Int32, ColumnType::Long),
        (DataType::Int64, ColumnType::Long),
        (DataType::UInt8, ColumnType::Long),
        (DataType::UInt16, ColumnType::Long),
        (DataType::UInt32, ColumnType::Long),
        (DataType::UInt64, ColumnType::Long),
        (DataType::Float16, ColumnType::Float),
        (DataType::Float32, ColumnType::Float),
        (DataType::Float64, ColumnType::Float),
        (DataType::Boolean, ColumnType::Bit),
        (DataType::Decimal, ColumnType::Decimal),
        (DataType::Date32, ColumnType::Date),
        (DataType::Date64, ColumnType::Date),
        (DataType::Time32(TimeUnit::Second), ColumnType::Datetime),
        (DataType::Time64(TimeUnit::Nanosecond), ColumnType::Datetime),
        (DataType::Timestamp(TimeUnit::Millisecond), ColumnType::Timestamp),
        (DataType::Null, ColumnType::Null),
        (DataType::Interval, ColumnType::Long),
        (DataType::Utf8, ColumnType::Varchar),
        (DataType::LargeUtf8, ColumnType::Varchar),
        (DataType::Binary, ColumnType::Blob),
    ];
    for (data_type, column_type) in cases {
        assert_eq!(convert_field_type(&field("c", data_type, "?")), Ok(column_type));
    }
    assert_eq!(
        convert_field_type(&field("c", DataType::Other, "LargeBinary")),
        Err(HetuError::NotImplemented("column type LargeBinary".to_string()))
    );
}

#[test]
fn column_takes_the_name_of_its_field() {
    assert_eq!(
        make_column_from_field(&field("total", DataType::Int64, "Int64")),
        Ok(column("total", ColumnType::Long))
    );
    assert!(make_column_from_field(&field("total", DataType::Other, "Struct([])")).is_err());
}

#[test]
fn schema_is_converted_field_by_field() {
    let fields = vec![
        field("a", DataType::Utf8, "Utf8"),
        field("b", DataType::Boolean, "Boolean"),
    ];
    assert_eq!(
        convert_schema(&fields),
        Ok(vec![column("a", ColumnType::Varchar), column("b", ColumnType::Bit)])
    );
    assert_eq!(convert_schema(&vec![]), Ok(vec![]));
    let broken = vec![
        field("a", DataType::Utf8, "Utf8"),
        field("b", DataType::Other, "first"),
        field("c", DataType::Other, "second"),
    ];
    assert_eq!(
        convert_schema(&broken),
        Err(HetuError::NotImplemented("column type first".to_string()))
    );
}

#[test]
fn cells_of_some_announced_types_cannot_be_written() {
    for data_type in [
        DataType::Boolean,
        DataType::Int8,
        DataType::UInt64,
        DataType::Float16,
        DataType::Utf8,
        DataType::Binary,
        DataType::Date32,
        DataType::Date64,
        DataType::Time32(TimeUnit::Second),
        DataType::Time32(TimeUnit::Millisecond),
        DataType::Time64(TimeUnit::Microsecond),
        DataType::Time64(TimeUnit::Nanosecond),
        DataType::Timestamp(TimeUnit::Second),
        DataType::Timestamp(TimeUnit::Nanosecond),
    ] {
        assert_eq!(check_cell(&field("c", data_type, "?")), Ok(()));
    }
    for data_type in [
        DataType::Null,
        DataType::Decimal,
        DataType::Interval,
        DataType::LargeUtf8,
        DataType::Time32(TimeUnit::Microsecond),
        DataType::Time32(TimeUnit::Nanosecond),
        DataType::Time64(TimeUnit::Second),
        DataType::Time64(TimeUnit::Millisecond),
        DataType::Other,
    ] {
        assert_eq!(
            check_cell(&field("c", data_type, "T")),
            Err(HetuError::NotImplemented("Unsupported column type:T".to_string()))
        );
    }
}

#[test]
fn writer_answers_rows() {
    // Two batches with the schema [a: Int32]; the first holds 1, the second 2.
    let mut writer = DFQueryResultWriter::create();
    let blocks = vec![
        batch(vec![field("a", DataType::Int32, "Int32")], vec![vec![Cell::Value]]),
        batch(vec![field("a", DataType::Int32, "Int32")], vec![vec![Cell::Value]]),
    ];
    assert_eq!(
        writer.write(Ok((blocks, "ExtraInfo".to_string()))),
        Reply::Rows {
            columns: vec![column("a", ColumnType::Long)],
            operations: vec![
                value(0, 0, 0),
                RowOperation::EndRow,
                value(1, 0, 0),
                RowOperation::EndRow
            ],
            info: "ExtraInfo".to_string()
        }
    );
}

#[test]
fn null_cell_gives_one_null_column() {
    // One batch with the nullable column a, holding 7 and then null.
    let mut writer = DFQueryResultWriter::create();
    let blocks = vec![batch(
        vec![field("a", DataType::Int32, "Int32")],
        vec![vec![Cell::Value], vec![Cell::Null]],
    )];
    assert_eq!(
        writer.write(Ok((blocks, String::new()))),
        Reply::Rows {
            columns: vec![column("a", ColumnType::Long)],
            operations: vec![
                value(0, 0, 0),
                RowOperation::EndRow,
                RowOperation::WriteNull,
                RowOperation::EndRow
            ],
            info: String::new()
        }
    );
}

#[test]
fn every_row_of_every_batch_is_written_once() {
    let fields = || {
        vec![
            field("a", DataType::Utf8, "Utf8"),
            field("b", DataType::Float64, "Float64"),
        ]
    };
    let row = || vec![Cell::Value, Cell::Null];
    let blocks = vec![
        batch(fields(), vec![row()]),
        batch(fields(), vec![]),
        batch(fields(), vec![row(), row(), row()]),
        batch(fields(), vec![row(), row()]),
    ];
    let (operations, failure) = row_operations(&blocks);
    assert_eq!(failure, None);
    let ended = operations.iter().filter(|op| **op == RowOperation::EndRow).count();
    assert_eq!(ended, 6);
    let mut expected = Vec::new();
    for (block, rows) in [(0, 1), (2, 3), (3, 2)] {
        for r in 0..rows {
            expected.push(value(block, r, 0));
            expected.push(RowOperation::WriteNull);
            expected.push(RowOperation::EndRow);
        }
    }
    assert_eq!(operations, expected);
}

#[test]
fn writing_stops_at_the_first_cell_that_cannot_be_written() {
    let fields = || {
        vec![
            field("a", DataType::Int8, "Int8"),
            field("d", DataType::Decimal, "Decimal(10, 2)"),
        ]
    };
    let blocks = vec![batch(
        fields(),
        vec![
            vec![Cell::Value, Cell::Null],
            vec![Cell::Null, Cell::Value],
            vec![Cell::Value, Cell::Value],
        ],
    )];
    let mut writer = DFQueryResultWriter::create();
    assert_eq!(
        writer.write(Ok((blocks, "x".to_string()))),
        Reply::Failed {
            columns: vec![column("a", ColumnType::Long), column("d", ColumnType::Decimal)],
            operations: vec![
                value(0, 0, 0),
                RowOperation::WriteNull,
                RowOperation::EndRow,
                RowOperation::WriteNull
            ],
            error: HetuError::NotImplemented(
                "Unsupported column type:Decimal(10, 2)".to_string()
            ),
        }
    );
}

#[test]
fn batch_of_another_shape_is_an_error() {
    let short_row = vec![batch(
        vec![
            field("a", DataType::Int8, "Int8"),
            field("b", DataType::Int8, "Int8"),
        ],
        vec![vec![Cell::Value, Cell::Value], vec![Cell::Value]],
    )];
    let (operations, failure) = row_operations(&short_row);
    assert_eq!(
        operations,
        vec![value(0, 0, 0), value(0, 0, 1), RowOperation::EndRow]
    );
    assert_eq!(
        failure,
        Some(HetuError::Internal(
            "batch does not match the announced columns".to_string()
        ))
    );
    let other_schema = vec![
        batch(vec![field("a", DataType::Int8, "Int8")], vec![vec![Cell::Null]]),
        batch(vec![], vec![vec![]]),
        batch(vec![field("a", DataType::Int8, "Int8")], vec![vec![Cell::Null]]),
    ];
    let (operations, failure) = row_operations(&other_schema);
    assert_eq!(operations, vec![RowOperation::WriteNull, RowOperation::EndRow]);
    assert!(failure.is_some());
}

#[test]
fn writer_answers_once() {
    let mut writer = DFQueryResultWriter::create();
    assert_eq!(
        writer.write(Ok((vec![], "first".to_string()))),
        Reply::Completed {
            info: "first".to_string()
        }
    );
    assert_eq!(writer.write(Ok((vec![], "second".to_string()))), Reply::Nothing);
    assert_eq!(
        writer.write(Err(HetuError::Internal("late".to_string()))),
        Reply::Nothing
    );
}

#[test]
fn writer_completes_a_result_without_columns() {
    let mut writer = DFQueryResultWriter::create();
    let blocks = vec![Block {
        fields: vec![],
        cells: vec![vec![]; 10],
    }];
    assert_eq!(
        writer.write(Ok((blocks, "ExtraInfo".to_string()))),
        Reply::Completed {
            info: "ExtraInfo".to_string()
        }
    );
}

#[test]
fn writer_answers_errors_with_their_line() {
    let mut writer = DFQueryResultWriter::create();
    assert_eq!(
        writer.write(Err(HetuError::DataFusionError(
            "This feature is not implemented: show tables".to_string()
        ))),
        Reply::Error {
            message: "Data fusion error: This feature is not implemented: show tables"
                .to_string()
        }
    );
    let mut writer = DFQueryResultWriter::create();
    let blocks = vec![Block {
        fields: vec![field("l", DataType::Other, "List(Int8)")],
        cells: vec![vec![Cell::Value]],
    }];
    assert_eq!(
        writer.write(Ok((blocks, String::new()))),
        Reply::Error {
            message: "This feature is not implemented: column type List(Int8)".to_string()
        }
    );
}
