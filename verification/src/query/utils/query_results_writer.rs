//! How the result of a query is answered to a MySQL client: which columns are announced,
//! and whether rows, a bare completion or an error goes out.

use vstd::prelude::*;
use vstd::string::StringExecFns;

use crate::error::{HetuError, HetuErrorView};
use crate::text::concat;

verus! {

/// The unit of a time value.
#[derive(Clone, Copy, Debug, PartialEq, Eq, Structural)]
pub enum TimeUnit {
    Second,
    Millisecond,
    Microsecond,
    Nanosecond,
}

/// The type of the values of a result column.
#[derive(Clone, Copy, Debug, PartialEq, Eq, Structural)]
pub enum DataType {
    Null,
    Boolean,
    Int8,
    Int16,
    Int32,
    Int64,
    UInt8,
    UInt16,
    UInt32,
    UInt64,
    Float16,
    Float32,
    Float64,
    Timestamp(TimeUnit),
    Date32,
    Date64,
    Time32(TimeUnit),
    Time64(TimeUnit),
    Interval,
    Binary,
    Utf8,
    LargeUtf8,
    Decimal,
    /// Every other type: nested, dictionary-encoded, and the like.
    Other,
}

/// The type under which a column is announced to the client.
#[derive(Clone, Copy, Debug, PartialEq, Eq, Structural)]
pub enum ColumnType {
    Decimal,
    Long,
    Float,
    Null,
    Timestamp,
    Date,
    Datetime,
    Varchar,
    Bit,
    Blob,
}

/// A column of a result: its name, its type, and the text under which the type is shown
/// in messages.
#[derive(Debug, Clone, PartialEq, Eq)]
pub struct Field {
    pub name: String,
    pub data_type: DataType,
    pub shown_as: String,
}

/// A column as it is announced to the client. It belongs to no table and carries no flag.
#[derive(Debug, Clone, PartialEq, Eq)]
pub struct Column {
    pub table: String,
    pub column: String,
    pub coltype: ColumnType,
}

/// A cell of a batch, as far as its writing depends on it: whether it is null. The value
/// of a cell that is not null stays with the caller, who finds it by its position.
#[derive(Clone, Copy, Debug, PartialEq, Eq, Structural)]
pub enum Cell {
    Null,
    Value,
}

/// One batch of a result: its columns and its rows, each row a list of cells.
#[derive(Debug, Clone, PartialEq, Eq)]
pub struct Block {
    pub fields: Vec<Field>,
    pub cells: Vec<Vec<Cell>>,
}

/// One step of the writing of rows.
#[derive(Clone, Copy, Debug, PartialEq, Eq, Structural)]
pub enum RowOperation {
    /// Write one NULL column.
    WriteNull,
    /// Write the value of the cell at the given batch, row and column as one column.
    WriteValue { block: usize, row: usize, column: usize },
    /// End the row.
    EndRow,
}

/// The type under which values of a data type are announced, or `None` for a type that
/// cannot be announced.
pub open spec fn column_type_of(data_type: DataType) -> Option<ColumnType> {
    match data_type {
        DataType::Int8 | DataType::Int16 | DataType::Int32 | DataType::Int64 => Some(
            ColumnType::Long,
        ),
        DataType::UInt8 | DataType::UInt16 | DataType::UInt32 | DataType::UInt64 => Some(
            ColumnType::Long,
        ),
        DataType::Float16 | DataType::Float32 | DataType::Float64 => Some(ColumnType::Float),
        DataType::Boolean => Some(ColumnType::Bit),
        DataType::Decimal => Some(ColumnType::Decimal),
        DataType::Date32 | DataType::Date64 => Some(ColumnType::Date),
        DataType::Time32(_) | DataType::Time64(_) => Some(ColumnType::Datetime),
        DataType::Timestamp(_) => Some(ColumnType::Timestamp),
        DataType::Null => Some(ColumnType::Null),
        DataType::Interval => Some(ColumnType::Long),
        DataType::Utf8 | DataType::LargeUtf8 => Some(ColumnType::Varchar),
        DataType::Binary => Some(ColumnType::Blob),
        DataType::Other => None,
    }
}

/// Whether a value of a data type that is not null can be written into a row.
pub open spec fn is_writable(data_type: DataType) -> bool {
    match data_type {
        DataType::Boolean => true,
        DataType::Int8 | DataType::Int16 | DataType::Int32 | DataType::Int64 => true,
        DataType::UInt8 | DataType::UInt16 | DataType::UInt32 | DataType::UInt64 => true,
        DataType::Float16 | DataType::Float32 | DataType::Float64 => true,
        DataType::Utf8 | DataType::Binary => true,
        DataType::Date32 | DataType::Date64 => true,
        DataType::Time32(unit) => unit == TimeUnit::Second || unit == TimeUnit::Millisecond,
        DataType::Time64(unit) => unit == TimeUnit::Microsecond || unit == TimeUnit::Nanosecond,
        DataType::Timestamp(_) => true,
        _ => false,
    }
}

/// The type under which a column is announced. A column whose type cannot be announced is
/// reported as not implemented, with the name of its type.
pub fn convert_field_type(field: &Field) -> (r: Result<ColumnType, HetuError>)
    ensures
        match column_type_of(field.data_type) {
            Some(column_type) => r == Ok::<ColumnType, HetuError>(column_type),
            None => r matches Err(e) && e@ == HetuErrorView::NotImplemented(
                "column type "@ + field.shown_as@,
            ),
        },
{
    match field.data_type {
        DataType::Int8 | DataType::Int16 | DataType::Int32 | DataType::Int64 => Ok(
            ColumnType::Long,
        ),
        DataType::UInt8 | DataType::UInt16 | DataType::UInt32 | DataType::UInt64 => Ok(
            ColumnType::Long,
        ),
        DataType::Float16 | DataType::Float32 | DataType::Float64 => Ok(ColumnType::Float),
        DataType::Boolean => Ok(ColumnType::Bit),
        DataType::Decimal => Ok(ColumnType::Decimal),
        DataType::Date32 | DataType::Date64 => Ok(ColumnType::Date),
        DataType::Time32(_) | DataType::Time64(_) => Ok(ColumnType::Datetime),
        DataType::Timestamp(_) => Ok(ColumnType::Timestamp),
        DataType::Null => Ok(ColumnType::Null),
        DataType::Interval => Ok(ColumnType::Long),
        DataType::Utf8 | DataType::LargeUtf8 => Ok(ColumnType::Varchar),
        DataType::Binary => Ok(ColumnType::Blob),
        DataType::Other => Err(
            HetuError::NotImplemented(concat("column type ", field.shown_as.as_str())),
        ),
    }
}

/// Whether `column` announces `field`: under the field's name, with no table.
pub open spec fn announces(column: Column, field: Field) -> bool {
    &&& column.table@.len() == 0
    &&& column.column@ == field.name@
    &&& Some(column.coltype) == column_type_of(field.data_type)
}

/// The column that announces a field.
pub fn make_column_from_field(field: &Field) -> (r: Result<Column, HetuError>)
    ensures
        match column_type_of(field.data_type) {
            Some(_) => r matches Ok(column) && announces(column, *field),
            None => r matches Err(e) && e@ == HetuErrorView::NotImplemented(
                "column type "@ + field.shown_as@,
            ),
        },
{
    match convert_field_type(field) {
        Ok(coltype) => Ok(Column { table: String::new(), column: field.name.clone(), coltype }),
        Err(e) => Err(e),
    }
}

/// Whether every field of a schema can be announced.
pub open spec fn can_announce(fields: Seq<Field>) -> bool {
    forall|i: int| 0 <= i < fields.len() ==> column_type_of(#[trigger] fields[i].data_type) is Some
}

/// The columns that announce a schema, field by field. Where a field cannot be announced
/// the first such field is reported.
pub fn convert_schema(fields: &Vec<Field>) -> (r: Result<Vec<Column>, HetuError>)
    ensures
        match r {
            Ok(columns) => {
                &&& can_announce(fields@)
                &&& columns@.len() == fields@.len()
                &&& forall|i: int|
                    0 <= i < fields@.len() ==> announces(#[trigger] columns@[i], fields@[i])
            },
            Err(e) => exists|i: int|
                {
                    &&& 0 <= i < fields@.len()
                    &&& column_type_of(#[trigger] fields@[i].data_type) is None
                    &&& forall|j: int| 0 <= j < i ==> column_type_of(fields@[j].data_type) is Some
                    &&& e@ == HetuErrorView::NotImplemented("column type "@ + fields@[i].shown_as@)
                },
        },
{
    let mut columns: Vec<Column> = Vec::new();
    let mut i: usize = 0;
    while i < fields.len()
        invariant
            i <= fields.len(),
            columns@.len() == i,
            forall|j: int| 0 <= j < i ==> column_type_of(#[trigger] fields@[j].data_type) is Some,
            forall|j: int| 0 <= j < i ==> announces(#[trigger] columns@[j], fields@[j]),
        decreases fields.len() - i,
    {
        match make_column_from_field(&fields[i]) {
            Ok(column) => {
                columns.push(column);
            },
            Err(e) => {
                assert(column_type_of(fields@[i as int].data_type) is None);
                return Err(e);
            },
        }
        i += 1;
    }
    Ok(columns)
}

/// Says whether a value of the field's type that is not null can be written into a row.
/// A type that cannot be written is reported as not implemented, with its name.
pub fn check_cell(field: &Field) -> (r: Result<(), HetuError>)
    ensures
        match r {
            Ok(()) => is_writable(field.data_type),
            Err(e) => !is_writable(field.data_type) && e@ == HetuErrorView::NotImplemented(
                "Unsupported column type:"@ + field.shown_as@,
            ),
        },
{
    let writable = match field.data_type {
        DataType::Boolean => true,
        DataType::Int8 | DataType::Int16 | DataType::Int32 | DataType::Int64 => true,
        DataType::UInt8 | DataType::UInt16 | DataType::UInt32 | DataType::UInt64 => true,
        DataType::Float16 | DataType::Float32 | DataType::Float64 => true,
        DataType::Utf8 | DataType::Binary => true,
        DataType::Date32 | DataType::Date64 => true,
        DataType::Time32(unit) => match unit {
            TimeUnit::Second | TimeUnit::Millisecond => true,
            _ => false,
        },
        DataType::Time64(unit) => match unit {
            TimeUnit::Microsecond | TimeUnit::Nanosecond => true,
            _ => false,
        },
        DataType::Timestamp(_) => true,
        _ => false,
    };
    if writable {
        Ok(())
    } else {
        Err(HetuError::NotImplemented(concat("Unsupported column type:", field.shown_as.as_str())))
    }
}

/// What goes out to the client for a result.
#[derive(Debug, Clone, PartialEq, Eq)]
pub enum Reply {
    /// Nothing: the writer has answered before.
    Nothing,
    /// A completion without rows, with the extra information of the result.
    Completed { info: String },
    /// The announced columns, then the row operations in their order, then the end of the
    /// rows with the extra information.
    Rows { columns: Vec<Column>, operations: Vec<RowOperation>, info: String },
    /// The announced columns, then the row operations in their order; then the writing
    /// fails with the error, and the rows are not ended.
    Failed { columns: Vec<Column>, operations: Vec<RowOperation>, error: HetuError },
    /// An error of unknown kind with the given message.
    Error { message: String },
}

/// How far the writing of rows has come: the operations so far and, once a cell or a row
/// could not be written, the error. Nothing is written after an error.
pub struct Written {
    pub operations: Seq<RowOperation>,
    pub failure: Option<HetuErrorView>,
}

/// The writing before the first row.
pub open spec fn nothing_written() -> Written {
    Written { operations: Seq::empty(), failure: None }
}

/// The error for a batch whose shape is not that of the announced columns.
pub open spec fn shape_error() -> HetuErrorView {
    HetuErrorView::Internal("batch does not match the announced columns"@)
}

/// The error for a cell whose type cannot be written.
pub open spec fn cell_error(field: Field) -> HetuErrorView {
    HetuErrorView::NotImplemented("Unsupported column type:"@ + field.shown_as@)
}

/// The writing after one more cell: a null cell gives one NULL column and nothing else; a
/// cell with a value gives its value as one column, or the error of its type where the type
/// cannot be written.
pub open spec fn cell_written(
    w: Written,
    field: Field,
    cell: Cell,
    block: usize,
    row: usize,
    column: usize,
) -> Written {
    if w.failure is Some {
        w
    } else {
        match cell {
            Cell::Null => Written {
                operations: w.operations.push(RowOperation::WriteNull),
                failure: None,
            },
            Cell::Value => if is_writable(field.data_type) {
                Written {
                    operations: w.operations.push(RowOperation::WriteValue { block, row, column }),
                    failure: None,
                }
            } else {
                Written { operations: w.operations, failure: Some(cell_error(field)) }
            },
        }
    }
}

/// The writing after the first `upto` cells of a row, from left to right.
pub open spec fn cells_written(w: Written, batch: Block, block: usize, row: usize, upto: int) -> Written
    decreases upto,
{
    if upto <= 0 {
        w
    } else {
        cell_written(
            cells_written(w, batch, block, row, upto - 1),
            batch.fields@[upto - 1],
            batch.cells@[row as int]@[upto - 1],
            block,
            row,
            (upto - 1) as usize,
        )
    }
}

/// Whether a row of a batch has the shape of the announced columns: the batch has as many
/// fields as were announced, and the row has a cell for each.
pub open spec fn is_regular(batch: Block, row: int, columns: int) -> bool {
    batch.fields@.len() == columns && batch.cells@[row]@.len() == columns
}

/// The writing after one more row: its cells from left to right, then the end of the row.
/// A row of another shape than the announced columns is an error.
pub open spec fn row_written(w: Written, batch: Block, block: usize, row: usize, columns: int) -> Written {
    if w.failure is Some {
        w
    } else if !is_regular(batch, row as int, columns) {
        Written { operations: w.operations, failure: Some(shape_error()) }
    } else {
        let cells = cells_written(w, batch, block, row, columns);
        if cells.failure is Some {
            cells
        } else {
            Written { operations: cells.operations.push(RowOperation::EndRow), failure: None }
        }
    }
}

/// The writing after the first `upto` rows of a batch, from top to bottom.
pub open spec fn rows_written(w: Written, batch: Block, block: usize, columns: int, upto: int) -> Written
    decreases upto,
{
    if upto <= 0 {
        w
    } else {
        row_written(
            rows_written(w, batch, block, columns, upto - 1),
            batch,
            block,
            (upto - 1) as usize,
            columns,
        )
    }
}

/// The writing after the first `upto` batches, in their order: every row of every batch,
/// each batch with as many rows as it holds.
pub open spec fn blocks_written(w: Written, blocks: Seq<Block>, columns: int, upto: int) -> Written
    decreases upto,
{
    if upto <= 0 {
        w
    } else {
        rows_written(
            blocks_written(w, blocks, columns, upto - 1),
            blocks[upto - 1],
            (upto - 1) as usize,
            columns,
            blocks[upto - 1].cells@.len() as int,
        )
    }
}

/// The writing of all rows of a result whose first batch announces the columns.
pub open spec fn all_written(blocks: Seq<Block>) -> Written {
    blocks_written(nothing_written(), blocks, blocks[0].fields@.len() as int, blocks.len() as int)
}

/// The view of an optional error.
pub open spec fn failure_of(error: Option<HetuError>) -> Option<HetuErrorView> {
    match error {
        Some(e) => Some(e@),
        None => None,
    }
}

/// Whether `reply` answers a query that gave `blocks` and the extra information `extra`.
/// A result without batches, or whose first batch has no column, is answered with a
/// completion. A result whose columns cannot all be announced is answered with the line of
/// the error of the first such column. Any other result is answered with the columns of its
/// first batch and the writing of all its rows: ended with the extra information where
/// every row could be written, and failed with the error where one could not.
pub open spec fn is_answer(reply: Reply, blocks: Seq<Block>, extra: Seq<char>) -> bool {
    if blocks.len() == 0 || blocks[0].fields@.len() == 0 {
        reply matches Reply::Completed { info } && info@ == extra
    } else if can_announce(blocks[0].fields@) {
        match all_written(blocks).failure {
            None => {
                &&& reply matches Reply::Rows { columns, operations, info }
                &&& info@ == extra
                &&& operations@ == all_written(blocks).operations
                &&& columns@.len() == blocks[0].fields@.len()
                &&& forall|i: int|
                    0 <= i < columns@.len() ==> announces(
                        #[trigger] columns@[i],
                        blocks[0].fields@[i],
                    )
            },
            Some(failure) => {
                &&& reply matches Reply::Failed { columns, operations, error }
                &&& error@ == failure
                &&& operations@ == all_written(blocks).operations
                &&& columns@.len() == blocks[0].fields@.len()
                &&& forall|i: int|
                    0 <= i < columns@.len() ==> announces(
                        #[trigger] columns@[i],
                        blocks[0].fields@[i],
                    )
            },
        }
    } else {
        exists|i: int|
            {
                &&& 0 <= i < blocks[0].fields@.len()
                &&& column_type_of(#[trigger] blocks[0].fields@[i].data_type) is None
                &&& forall|j: int|
                    0 <= j < i ==> column_type_of(blocks[0].fields@[j].data_type) is Some
                &&& reply matches Reply::Error { message }
                &&& message@ == HetuErrorView::NotImplemented(
                    "column type "@ + blocks[0].fields@[i].shown_as@,
                ).message()
            }
    }
}

/// The number of rows that a list of operations ends.
pub open spec fn ended_rows(operations: Seq<RowOperation>) -> nat
    decreases operations.len(),
{
    if operations.len() == 0 {
        0
    } else if operations.last() == RowOperation::EndRow {
        ended_rows(operations.drop_last()) + 1
    } else {
        ended_rows(operations.drop_last())
    }
}

/// The number of rows in the first `upto` batches.
pub open spec fn rows_in(blocks: Seq<Block>, upto: int) -> nat
    decreases upto,
{
    if upto <= 0 {
        0
    } else {
        rows_in(blocks, upto - 1) + blocks[upto - 1].cells@.len()
    }
}

proof fn cells_end_no_row(w: Written, batch: Block, block: usize, row: usize, upto: int)
    ensures
        ended_rows(cells_written(w, batch, block, row, upto).operations) == ended_rows(
            w.operations,
        ),
        w.failure is Some ==> cells_written(w, batch, block, row, upto).failure is Some,
    decreases upto,
{
    if upto > 0 {
        cells_end_no_row(w, batch, block, row, upto - 1);
        let before = cells_written(w, batch, block, row, upto - 1);
        let after = cells_written(w, batch, block, row, upto);
        if after.operations.len() > before.operations.len() {
            assert(after.operations.drop_last() =~= before.operations);
        }
    }
}

proof fn rows_end_each_row(w: Written, batch: Block, block: usize, columns: int, upto: int)
    requires
        0 <= upto,
        rows_written(w, batch, block, columns, upto).failure is None,
    ensures
        w.failure is None,
        ended_rows(rows_written(w, batch, block, columns, upto).operations) == ended_rows(
            w.operations,
        ) + upto,
    decreases upto,
{
    if upto > 0 {
        let before = rows_written(w, batch, block, columns, upto - 1);
        let row = (upto - 1) as usize;
        let cells = cells_written(before, batch, block, row, columns);
        cells_end_no_row(before, batch, block, row, columns);
        rows_end_each_row(w, batch, block, columns, upto - 1);
        assert(cells.operations.push(RowOperation::EndRow).drop_last() =~= cells.operations);
    }
}

proof fn blocks_end_each_row(w: Written, blocks: Seq<Block>, columns: int, upto: int)
    requires
        0 <= upto,
        blocks_written(w, blocks, columns, upto).failure is None,
    ensures
        w.failure is None,
        ended_rows(blocks_written(w, blocks, columns, upto).operations) == ended_rows(
            w.operations,
        ) + rows_in(blocks, upto),
    decreases upto,
{
    if upto > 0 {
        let before = blocks_written(w, blocks, columns, upto - 1);
        rows_end_each_row(
            before,
            blocks[upto - 1],
            (upto - 1) as usize,
            columns,
            blocks[upto - 1].cells@.len() as int,
        );
        blocks_end_each_row(w, blocks, columns, upto - 1);
    }
}

/// Where all rows of a result can be written, every row of every batch is ended once: the
/// operations end as many rows as the batches hold together, whatever the number of rows
/// of each batch is.
pub proof fn every_row_is_ended(blocks: Seq<Block>)
    requires
        blocks.len() > 0,
        all_written(blocks).failure is None,
    ensures
        ended_rows(all_written(blocks).operations) == rows_in(blocks, blocks.len() as int),
{
    blocks_end_each_row(
        nothing_written(),
        blocks,
        blocks[0].fields@.len() as int,
        blocks.len() as int,
    );
}

/// The writing of one row, continued from the operations and the failure so far.
fn write_row(
    operations: &mut Vec<RowOperation>,
    failure: Option<HetuError>,
    batch: &Block,
    block: usize,
    row: usize,
    columns: usize,
) -> (after: Option<HetuError>)
    requires
        row < batch.cells@.len(),
    ensures
        (Written { operations: final(operations)@, failure: failure_of(after) }) == row_written(
            Written { operations: old(operations)@, failure: failure_of(failure) },
            *batch,
            block,
            row,
            columns as int,
        ),
{
    if failure.is_some() {
        return failure;
    }
    if batch.fields.len() != columns || batch.cells[row].len() != columns {
        return Some(
            HetuError::Internal(String::from_str("batch does not match the announced columns")),
        );
    }
    let ghost start = Written { operations: operations@, failure: None };
    let mut cells: Vec<RowOperation> = Vec::new();
    let mut failed: Option<HetuError> = None;
    let mut column: usize = 0;
    while column < columns
        invariant
            row < batch.cells@.len(),
            batch.fields@.len() == columns,
            batch.cells@[row as int]@.len() == columns,
            column <= columns,
            start.failure is None,
            (Written { operations: start.operations + cells@, failure: failure_of(failed) })
                == cells_written(start, *batch, block, row, column as int),
        decreases columns - column,
    {
        let ghost before = cells@;
        if failed.is_none() {
            match batch.cells[row][column] {
                Cell::Null => {
                    cells.push(RowOperation::WriteNull);
                },
                Cell::Value => {
                    match check_cell(&batch.fields[column]) {
                        Ok(()) => {
                            cells.push(RowOperation::WriteValue { block, row, column });
                        },
                        Err(e) => {
                            failed = Some(e);
                        },
                    }
                },
            }
        }
        proof {
            if cells@.len() > before.len() {
                assert(start.operations + cells@ =~= (start.operations + before).push(
                    cells@[cells@.len() - 1],
                ));
            }
        }
        column += 1;
    }
    let ghost written = start.operations + cells@;
    let mut i: usize = 0;
    while i < cells.len()
        invariant
            i <= cells@.len(),
            operations@ == start.operations + cells@.take(i as int),
        decreases cells@.len() - i,
    {
        operations.push(cells[i]);
        assert(cells@.take(i + 1) =~= cells@.take(i as int).push(cells@[i as int]));
        assert(operations@ =~= start.operations + cells@.take(i + 1));
        i += 1;
    }
    assert(cells@.take(cells@.len() as int) =~= cells@);
    if failed.is_none() {
        operations.push(RowOperation::EndRow);
    }
    failed
}

/// The writing of all rows of a result: the row operations in their order and, where a
/// row or a cell could not be written, the error at which the writing stops.
pub fn row_operations(blocks: &Vec<Block>) -> (r: (Vec<RowOperation>, Option<HetuError>))
    requires
        blocks@.len() > 0,
    ensures
        (Written { operations: r.0@, failure: failure_of(r.1) }) == all_written(blocks@),
{
    let columns = blocks[0].fields.len();
    let mut operations: Vec<RowOperation> = Vec::new();
    let mut failure: Option<HetuError> = None;
    let mut block: usize = 0;
    assert(operations@ =~= Seq::<RowOperation>::empty());
    while block < blocks.len()
        invariant
            block <= blocks@.len(),
            columns == blocks@[0].fields@.len(),
            (Written { operations: operations@, failure: failure_of(failure) }) == blocks_written(
                nothing_written(),
                blocks@,
                columns as int,
                block as int,
            ),
        decreases blocks@.len() - block,
    {
        let batch = &blocks[block];
        let mut row: usize = 0;
        let ghost start = Written { operations: operations@, failure: failure_of(failure) };
        while row < batch.cells.len()
            invariant
                row <= batch.cells@.len(),
                (Written { operations: operations@, failure: failure_of(failure) })
                    == rows_written(start, *batch, block, columns as int, row as int),
            decreases batch.cells@.len() - row,
        {
            failure = write_row(&mut operations, failure, batch, block, row, columns);
            row += 1;
        }
        block += 1;
    }
    (operations, failure)
}

/// The writer of one answer. It answers once; what it is asked after that is dropped.
pub struct DFQueryResultWriter {
    unused: bool,
}

impl DFQueryResultWriter {
    /// Whether the writer has not answered yet.
    pub closed spec fn is_unused(&self) -> bool {
        self.unused
    }

    /// A writer that has not answered yet.
    pub fn create() -> (writer: DFQueryResultWriter)
        ensures
            writer.is_unused(),
    {
        DFQueryResultWriter { unused: true }
    }

    /// Decides the answer to a query. A writer that has answered before gives `Nothing`.
    /// A failed query is answered with the line of its error, and a query that gave a
    /// result with what [`is_answer`] says. After the call the writer has answered.
    pub fn write(&mut self, query_result: Result<(Vec<Block>, String), HetuError>) -> (reply: Reply)
        ensures
            !final(self).is_unused(),
            !old(self).is_unused() ==> reply is Nothing,
            old(self).is_unused() ==> match query_result {
                Err(error) => reply matches Reply::Error { message } && message@
                    == error@.message(),
                Ok((blocks, extra)) => is_answer(reply, blocks@, extra@),
            },
    {
        if !self.unused {
            return Reply::Nothing;
        }
        self.unused = false;
        match query_result {
            Ok((blocks, extra)) => Self::ok(blocks, extra),
            Err(error) => Self::err(&error),
        }
    }

    fn ok(blocks: Vec<Block>, extra: String) -> (reply: Reply)
        ensures
            is_answer(reply, blocks@, extra@),
    {
        if blocks.len() == 0 || blocks[0].fields.len() == 0 {
            return Reply::Completed { info: extra };
        }
        match convert_schema(&blocks[0].fields) {
            Err(error) => Self::err(&error),
            Ok(columns) => {
                let (operations, failure) = row_operations(&blocks);
                match failure {
                    None => Reply::Rows { columns, operations, info: extra },
                    Some(error) => Reply::Failed { columns, operations, error },
                }
            },
        }
    }

    fn err(error: &HetuError) -> (reply: Reply)
        ensures
            reply matches Reply::Error { message } && message@ == error@.message(),
    {
        Reply::Error { message: error.to_string() }
    }
}

} // verus!
