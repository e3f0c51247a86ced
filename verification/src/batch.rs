//! Typed columns, and the batch that a materialization returns.

use crate::schema::{DataType, FieldView, Schema};
use crate::views::{copy_string, view_all};
use vstd::prelude::*;

verus! {

/// One cell of a column.
#[derive(Debug, PartialEq, Eq)]
pub enum Cell {
    Null,
    Utf8(String),
    Int32(i32),
    Int64(i64),
    /// A double, by its bit pattern.
    Float64(u64),
    /// A double, by a decimal floating-point literal that denotes it.
    Float64Literal(String),
    Boolean(bool),
    /// Nanoseconds since the first instant of 1970.
    TimestampNanosecond(i64),
    /// Milliseconds since the first instant of 1970.
    TimestampMillisecond(i64),
    /// Days since the first day of 1970.
    Date32(i32),
}

/// What a `Cell` is in contracts.
pub enum CellView {
    Null,
    Utf8(Seq<char>),
    Int32(i32),
    Int64(i64),
    Float64(u64),
    Float64Literal(Seq<char>),
    Boolean(bool),
    TimestampNanosecond(i64),
    TimestampMillisecond(i64),
    Date32(i32),
}

impl View for Cell {
    type V = CellView;

    open spec fn view(&self) -> CellView {
        match self {
            Cell::Null => CellView::Null,
            Cell::Utf8(s) => CellView::Utf8(s@),
            Cell::Int32(v) => CellView::Int32(*v),
            Cell::Int64(v) => CellView::Int64(*v),
            Cell::Float64(v) => CellView::Float64(*v),
            Cell::Float64Literal(s) => CellView::Float64Literal(s@),
            Cell::Boolean(v) => CellView::Boolean(*v),
            Cell::TimestampNanosecond(v) => CellView::TimestampNanosecond(*v),
            Cell::TimestampMillisecond(v) => CellView::TimestampMillisecond(*v),
            Cell::Date32(v) => CellView::Date32(*v),
        }
    }
}

impl Clone for Cell {
    fn clone(&self) -> (r: Self)
        ensures
            r@ == self@,
    {
        match self {
            Cell::Null => Cell::Null,
            Cell::Utf8(s) => Cell::Utf8(copy_string(s)),
            Cell::Int32(v) => Cell::Int32(*v),
            Cell::Int64(v) => Cell::Int64(*v),
            Cell::Float64(v) => Cell::Float64(*v),
            Cell::Float64Literal(s) => Cell::Float64Literal(copy_string(s)),
            Cell::Boolean(v) => Cell::Boolean(*v),
            Cell::TimestampNanosecond(v) => Cell::TimestampNanosecond(*v),
            Cell::TimestampMillisecond(v) => Cell::TimestampMillisecond(*v),
            Cell::Date32(v) => Cell::Date32(*v),
        }
    }
}

/// The cell is null, or of the kind that a column of type `data_type` holds.
pub open spec fn cell_fits(cell: CellView, data_type: DataType) -> bool {
    match cell {
        CellView::Null => true,
        CellView::Utf8(_) => data_type == DataType::Utf8,
        CellView::Int32(_) => data_type == DataType::Int32,
        CellView::Int64(_) => data_type == DataType::Int64,
        CellView::Float64(_) => data_type == DataType::Float64,
        CellView::Float64Literal(_) => data_type == DataType::Float64,
        CellView::Boolean(_) => data_type == DataType::Boolean,
        CellView::TimestampNanosecond(_) => data_type == DataType::TimestampNanosecond,
        CellView::TimestampMillisecond(_) => data_type == DataType::TimestampMillisecond,
        CellView::Date32(_) => data_type == DataType::Date32,
    }
}

/// One column: its type and its cells, one for each row.
#[derive(Debug, PartialEq, Eq)]
pub struct Column {
    pub data_type: DataType,
    pub cells: Vec<Cell>,
}

/// What a `Column` is in contracts.
pub struct ColumnView {
    pub data_type: DataType,
    pub cells: Seq<CellView>,
}

impl View for Column {
    type V = ColumnView;

    open spec fn view(&self) -> ColumnView {
        ColumnView { data_type: self.data_type, cells: view_all(self.cells@) }
    }
}

impl Clone for Column {
    fn clone(&self) -> (r: Self)
        ensures
            r@ == self@,
    {
        let mut out: Vec<Cell> = Vec::new();
        let mut i: usize = 0;
        while i < self.cells.len()
            invariant
                0 <= i <= self.cells.len(),
                out.len() == i,
                forall|k: int| 0 <= k < i ==> out@[k]@ == self.cells@[k]@,
            decreases self.cells.len() - i,
        {
            out.push(self.cells[i].clone());
            i = i + 1;
        }
        assert(view_all(out@) =~= view_all(self.cells@));
        Column { data_type: self.data_type, cells: out }
    }
}

impl ColumnView {
    /// Every cell is null or of the column's kind.
    pub open spec fn well_typed(self) -> bool {
        forall|i: int| 0 <= i < self.cells.len() ==> cell_fits(#[trigger] self.cells[i], self.data_type)
    }
}

/// A batch of rows, held column by column.
#[derive(Debug, PartialEq, Eq)]
pub struct ColumnarBatch {
    pub schema: Schema,
    pub columns: Vec<Column>,
    pub num_rows: usize,
}

/// What a `ColumnarBatch` is in contracts.
pub struct ColumnarBatchView {
    pub schema: Seq<FieldView>,
    pub columns: Seq<ColumnView>,
    pub num_rows: usize,
}

impl View for ColumnarBatch {
    type V = ColumnarBatchView;

    open spec fn view(&self) -> ColumnarBatchView {
        ColumnarBatchView {
            schema: self.schema@,
            columns: view_all(self.columns@),
            num_rows: self.num_rows,
        }
    }
}

impl Clone for ColumnarBatch {
    fn clone(&self) -> (r: Self)
        ensures
            r@ == self@,
    {
        let mut out: Vec<Column> = Vec::new();
        let mut i: usize = 0;
        while i < self.columns.len()
            invariant
                0 <= i <= self.columns.len(),
                out.len() == i,
                forall|k: int| 0 <= k < i ==> out@[k]@ == self.columns@[k]@,
            decreases self.columns.len() - i,
        {
            out.push(self.columns[i].clone());
            i = i + 1;
        }
        assert(view_all(out@) =~= view_all(self.columns@));
        ColumnarBatch { schema: self.schema.clone(), columns: out, num_rows: self.num_rows }
    }
}

impl ColumnarBatchView {
    /// The batch has one column for each column of its schema, of that
    /// column's type, and every column has one well-typed cell for each row.
    pub open spec fn well_formed(self) -> bool {
        &&& self.columns.len() == self.schema.len()
        &&& forall|i: int|
            0 <= i < self.columns.len() ==> {
                &&& (#[trigger] self.columns[i]).data_type == self.schema[i].data_type
                &&& self.columns[i].cells.len() == self.num_rows
                &&& self.columns[i].well_typed()
            }
    }
}

impl ColumnarBatch {
    /// The number of rows.
    pub fn num_rows(&self) -> (r: usize)
        ensures
            r == self@.num_rows,
    {
        self.num_rows
    }

    /// The number of columns.
    pub fn num_columns(&self) -> (r: usize)
        ensures
            r == self@.columns.len(),
    {
        self.columns.len()
    }
}

} // verus!
