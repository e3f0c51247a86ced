//! Materialization: the rows of a remote response become one batch of typed
//! columns under a given schema.

use crate::batch::{Cell, CellView, Column, ColumnView, ColumnarBatch, ColumnarBatchView};
use crate::error::{CubeError, CubeErrorView};
use crate::number::rounded_within;
use crate::schema::{
    DataType,
    FieldView,
    MemberField,
    MemberFieldView,
    ScalarValue,
    ScalarValueView,
    Schema,
    TimeUnit,
};
use crate::source::{RowSource, ValueObject};
use crate::text::{
    bool_literal,
    bounded_integer,
    is_float_literal,
    is_float_text,
    parse_bool_text,
    parse_i32,
    parse_i64,
};
use crate::time::{
    date_cell,
    date_cell_spec,
    date_days_parsed,
    instant_cell,
    instant_cell_spec,
    parse_date_days,
    parse_timestamp,
    timestamp_parsed,
};
use crate::value::{FieldValue, FieldValueView};
use crate::views::{lemma_view_all_push, result_view, view_all};
use vstd::prelude::*;

verus! {

/// The text of a truth value.
pub open spec fn bool_text(b: bool) -> Seq<char> {
    if b {
        "true"@
    } else {
        "false"@
    }
}

/// The failure of a value to become a cell of a column of type `data_type`.
pub open spec fn unmappable(value: FieldValueView, data_type: DataType) -> CubeErrorView {
    CubeErrorView::UnmappableValue { value, data_type }
}

/// The cell that a string of a row becomes in a column of type `data_type`, or
/// the failure of the whole materialization.
pub open spec fn coerce_string(s: Seq<char>, data_type: DataType) -> Result<CellView, CubeErrorView> {
    match data_type {
        DataType::Utf8 => Ok(CellView::Utf8(s)),
        DataType::Int32 => Ok(
            match bounded_integer(s, i32::MIN as int, i32::MAX as int) {
                Some(v) => CellView::Int32(v as i32),
                None => CellView::Null,
            },
        ),
        DataType::Int64 => Ok(
            match bounded_integer(s, i64::MIN as int, i64::MAX as int) {
                Some(v) => CellView::Int64(v as i64),
                None => CellView::Null,
            },
        ),
        DataType::Float64 => Ok(
            if is_float_literal(s) {
                CellView::Float64Literal(s)
            } else {
                CellView::Null
            },
        ),
        DataType::Boolean => Ok(
            match bool_literal(s) {
                Some(b) => CellView::Boolean(b),
                None => CellView::Null,
            },
        ),
        DataType::TimestampNanosecond => match timestamp_parsed(s) {
            Some(t) => Ok(instant_cell_spec(t, TimeUnit::Nanosecond)),
            None => Err(CubeErrorView::TimestampParse { text: s }),
        },
        DataType::TimestampMillisecond => match timestamp_parsed(s) {
            Some(t) => Ok(instant_cell_spec(t, TimeUnit::Millisecond)),
            None => Err(CubeErrorView::TimestampParse { text: s }),
        },
        DataType::Date32 => Ok(
            match date_days_parsed(s) {
                Some(d) => date_cell_spec(d),
                None => CellView::Null,
            },
        ),
        DataType::Other => Err(unmappable(FieldValueView::String(s), data_type)),
    }
}

/// The cell that a value of a row becomes in a column of type `data_type`, or
/// the failure of the whole materialization. Null becomes a null cell. A
/// string that does not write an integer, a double, a truth value or a date
/// becomes a null cell in a column of that type; one that writes no timestamp
/// fails. A value of a kind that the column has no rule for fails.
pub open spec fn coerce(value: FieldValueView, data_type: DataType) -> Result<
    CellView,
    CubeErrorView,
> {
    match value {
        FieldValueView::Null => Ok(CellView::Null),
        FieldValueView::String(s) => coerce_string(s, data_type),
        FieldValueView::Number(n) => match data_type {
            DataType::Utf8 => Ok(CellView::Utf8(n.text)),
            DataType::Int32 => Ok(
                CellView::Int32(rounded_within(n.bits, i32::MIN as int, i32::MAX as int) as i32),
            ),
            DataType::Int64 => Ok(
                CellView::Int64(rounded_within(n.bits, i64::MIN as int, i64::MAX as int) as i64),
            ),
            DataType::Float64 => Ok(CellView::Float64(n.bits)),
            _ => Err(unmappable(value, data_type)),
        },
        FieldValueView::Bool(b) => match data_type {
            DataType::Utf8 => Ok(CellView::Utf8(bool_text(b))),
            DataType::Boolean => Ok(CellView::Boolean(b)),
            _ => Err(unmappable(value, data_type)),
        },
    }
}

/// The cell that a constant becomes in a column of type `data_type`: the
/// constant must be of the column's kind; an absent constant is a null cell.
pub open spec fn literal_cell(value: ScalarValueView, data_type: DataType) -> Result<
    CellView,
    CubeErrorView,
> {
    match (value, data_type) {
        (ScalarValueView::Utf8(v), DataType::Utf8) => Ok(
            match v {
                Some(s) => CellView::Utf8(s),
                None => CellView::Null,
            },
        ),
        (ScalarValueView::Int32(v), DataType::Int32) => Ok(
            match v {
                Some(x) => CellView::Int32(x),
                None => CellView::Null,
            },
        ),
        (ScalarValueView::Int64(v), DataType::Int64) => Ok(
            match v {
                Some(x) => CellView::Int64(x),
                None => CellView::Null,
            },
        ),
        (ScalarValueView::Float64(v), DataType::Float64) => Ok(
            match v {
                Some(x) => CellView::Float64(x),
                None => CellView::Null,
            },
        ),
        (ScalarValueView::Boolean(v), DataType::Boolean) => Ok(
            match v {
                Some(x) => CellView::Boolean(x),
                None => CellView::Null,
            },
        ),
        (ScalarValueView::TimestampNanosecond(v), DataType::TimestampNanosecond) => Ok(
            match v {
                Some(x) => CellView::TimestampNanosecond(x),
                None => CellView::Null,
            },
        ),
        (ScalarValueView::TimestampMillisecond(v), DataType::TimestampMillisecond) => Ok(
            match v {
                Some(x) => CellView::TimestampMillisecond(x),
                None => CellView::Null,
            },
        ),
        (ScalarValueView::Date32(v), DataType::Date32) => Ok(
            match v {
                Some(x) => CellView::Date32(x),
                None => CellView::Null,
            },
        ),
        _ => Err(CubeErrorView::UnmappableLiteral { value, data_type }),
    }
}

/// The cells that the first `count` rows give a column that reads the field
/// `name`, or the failure of the first row that fails.
pub open spec fn member_cells(
    source: RowSource,
    name: Seq<char>,
    data_type: DataType,
    count: nat,
) -> Result<Seq<CellView>, CubeErrorView>
    decreases count,
{
    if count == 0 {
        Ok(Seq::empty())
    } else {
        match member_cells(source, name, data_type, (count - 1) as nat) {
            Err(e) => Err(e),
            Ok(cells) => match (source.get)(count - 1, name) {
                Err(e) => Err(e),
                Ok(value) => match coerce(value, data_type) {
                    Err(e) => Err(e),
                    Ok(cell) => Ok(cells.push(cell)),
                },
            },
        }
    }
}

/// The cells of the column at index `column`, of type `data_type` and filled
/// by `field`, or the failure of that column.
pub open spec fn column_cells(
    source: RowSource,
    data_type: DataType,
    field: MemberFieldView,
    column: usize,
) -> Result<Seq<CellView>, CubeErrorView> {
    if !data_type.supported() {
        Err(CubeErrorView::UnsupportedType { column })
    } else {
        match source.len {
            Err(e) => Err(e),
            Ok(n) => match field {
                MemberFieldView::Member(name) => member_cells(source, name, data_type, n as nat),
                MemberFieldView::Literal(value) => match literal_cell(value, data_type) {
                    Err(e) => Err(e),
                    Ok(cell) => Ok(Seq::new(n as nat, |i: int| cell)),
                },
            },
        }
    }
}

/// The first `count` columns of the batch, or the failure of the first column
/// that fails.
pub open spec fn columns_upto(
    source: RowSource,
    schema: Seq<FieldView>,
    fields: Seq<MemberFieldView>,
    count: nat,
) -> Result<Seq<ColumnView>, CubeErrorView>
    decreases count,
{
    if count == 0 {
        Ok(Seq::empty())
    } else {
        match columns_upto(source, schema, fields, (count - 1) as nat) {
            Err(e) => Err(e),
            Ok(columns) => match column_cells(
                source,
                schema[count - 1].data_type,
                fields[count - 1],
                (count - 1) as usize,
            ) {
                Err(e) => Err(e),
                Ok(cells) => Ok(
                    columns.push(ColumnView { data_type: schema[count - 1].data_type, cells }),
                ),
            },
        }
    }
}

/// The batch that the rows of `source` make under `schema`, the column at each
/// index filled by the member field at that index; or the failure of the first
/// column, and in it of the first row, that fails.
pub open spec fn materialized(
    source: RowSource,
    schema: Seq<FieldView>,
    fields: Seq<MemberFieldView>,
) -> Result<ColumnarBatchView, CubeErrorView> {
    match columns_upto(source, schema, fields, schema.len()) {
        Err(e) => Err(e),
        Ok(columns) => match source.len {
            Err(e) => Err(e),
            Ok(n) => Ok(ColumnarBatchView { schema, columns, num_rows: n }),
        },
    }
}

/// The cells or the failure that `r` holds, as contracts see them.
pub open spec fn cells_view(r: Result<Vec<Cell>, CubeError>) -> Result<Seq<CellView>, CubeErrorView> {
    match r {
        Ok(cells) => Ok(view_all(cells@)),
        Err(e) => Err(e@),
    }
}

/// The cell that a string of a row becomes in a column of type `data_type`.
pub fn coerce_text(s: String, data_type: DataType) -> (r: Result<Cell, CubeError>)
    ensures
        result_view(r) == coerce_string(s@, data_type),
{
    match data_type {
        DataType::Utf8 => Ok(Cell::Utf8(s)),
        DataType::Int32 => Ok(
            match parse_i32(s.as_str()) {
                Some(v) => Cell::Int32(v),
                None => Cell::Null,
            },
        ),
        DataType::Int64 => Ok(
            match parse_i64(s.as_str()) {
                Some(v) => Cell::Int64(v),
                None => Cell::Null,
            },
        ),
        DataType::Float64 => Ok(
            if is_float_text(s.as_str()) {
                Cell::Float64Literal(s)
            } else {
                Cell::Null
            },
        ),
        DataType::Boolean => Ok(
            match parse_bool_text(s.as_str()) {
                Some(b) => Cell::Boolean(b),
                None => Cell::Null,
            },
        ),
        DataType::TimestampNanosecond => match parse_timestamp(s.as_str()) {
            Some(t) => Ok(instant_cell(t, TimeUnit::Nanosecond)),
            None => Err(CubeError::TimestampParse { text: s }),
        },
        DataType::TimestampMillisecond => match parse_timestamp(s.as_str()) {
            Some(t) => Ok(instant_cell(t, TimeUnit::Millisecond)),
            None => Err(CubeError::TimestampParse { text: s }),
        },
        DataType::Date32 => Ok(
            match parse_date_days(s.as_str()) {
                Some(d) => date_cell(d),
                None => Cell::Null,
            },
        ),
        DataType::Other => Err(
            CubeError::UnmappableValue { value: FieldValue::String(s), data_type },
        ),
    }
}

/// The cell that a value of a row becomes in a column of type `data_type`.
pub fn coerce_value(value: FieldValue, data_type: DataType) -> (r: Result<Cell, CubeError>)
    ensures
        result_view(r) == coerce(value@, data_type),
{
    match value {
        FieldValue::Null => Ok(Cell::Null),
        FieldValue::String(s) => coerce_text(s, data_type),
        FieldValue::Number(n) => match data_type {
            DataType::Utf8 => Ok(Cell::Utf8(n.text)),
            DataType::Int32 => Ok(Cell::Int32(n.round_to_i32())),
            DataType::Int64 => Ok(Cell::Int64(n.round_to_i64())),
            DataType::Float64 => Ok(Cell::Float64(n.bits)),
            _ => Err(CubeError::UnmappableValue { value: FieldValue::Number(n), data_type }),
        },
        FieldValue::Bool(b) => match data_type {
            DataType::Utf8 => Ok(
                Cell::Utf8(
                    if b {
                        "true".to_owned()
                    } else {
                        "false".to_owned()
                    },
                ),
            ),
            DataType::Boolean => Ok(Cell::Boolean(b)),
            _ => Err(CubeError::UnmappableValue { value: FieldValue::Bool(b), data_type }),
        },
    }
}

/// The cell that a constant becomes in a column of type `data_type`.
pub fn literal_to_cell(value: &ScalarValue, data_type: DataType) -> (r: Result<Cell, CubeError>)
    ensures
        result_view(r) == literal_cell(value@, data_type),
{
    match (value, data_type) {
        (ScalarValue::Utf8(v), DataType::Utf8) => Ok(
            match v {
                Some(s) => Cell::Utf8(s.clone()),
                None => Cell::Null,
            },
        ),
        (ScalarValue::Int32(v), DataType::Int32) => Ok(
            match v {
                Some(x) => Cell::Int32(*x),
                None => Cell::Null,
            },
        ),
        (ScalarValue::Int64(v), DataType::Int64) => Ok(
            match v {
                Some(x) => Cell::Int64(*x),
                None => Cell::Null,
            },
        ),
        (ScalarValue::Float64(v), DataType::Float64) => Ok(
            match v {
                Some(x) => Cell::Float64(*x),
                None => Cell::Null,
            },
        ),
        (ScalarValue::Boolean(v), DataType::Boolean) => Ok(
            match v {
                Some(x) => Cell::Boolean(*x),
                None => Cell::Null,
            },
        ),
        (ScalarValue::TimestampNanosecond(v), DataType::TimestampNanosecond) => Ok(
            match v {
                Some(x) => Cell::TimestampNanosecond(*x),
                None => Cell::Null,
            },
        ),
        (ScalarValue::TimestampMillisecond(v), DataType::TimestampMillisecond) => Ok(
            match v {
                Some(x) => Cell::TimestampMillisecond(*x),
                None => Cell::Null,
            },
        ),
        (ScalarValue::Date32(v), DataType::Date32) => Ok(
            match v {
                Some(x) => Cell::Date32(*x),
                None => Cell::Null,
            },
        ),
        _ => Err(CubeError::UnmappableLiteral { value: value.clone(), data_type }),
    }
}

/// The column or the failure that `r` holds, as contracts see them.
pub open spec fn column_view(r: Result<Column, CubeError>) -> Result<ColumnView, CubeErrorView> {
    match r {
        Ok(column) => Ok(column@),
        Err(e) => Err(e@),
    }
}

/// A row that fails makes every longer run of rows fail in the same way.
pub proof fn lemma_member_cells_failure(
    source: RowSource,
    name: Seq<char>,
    data_type: DataType,
    failed: nat,
    count: nat,
)
    requires
        failed <= count,
        member_cells(source, name, data_type, failed) is Err,
    ensures
        member_cells(source, name, data_type, count) == member_cells(
            source,
            name,
            data_type,
            failed,
        ),
    decreases count,
{
    if failed < count {
        lemma_member_cells_failure(source, name, data_type, failed, (count - 1) as nat);
    }
}

/// A column that fails makes every longer run of columns fail in the same way.
pub proof fn lemma_columns_failure(
    source: RowSource,
    schema: Seq<FieldView>,
    fields: Seq<MemberFieldView>,
    failed: nat,
    count: nat,
)
    requires
        failed <= count,
        columns_upto(source, schema, fields, failed) is Err,
    ensures
        columns_upto(source, schema, fields, count) == columns_upto(source, schema, fields, failed),
    decreases count,
{
    if failed < count {
        lemma_columns_failure(source, schema, fields, failed, (count - 1) as nat);
    }
}

/// The cells of a column that reads the field `name` of each of `len` rows.
pub fn member_column<V: ValueObject>(
    response: &mut V,
    name: &str,
    data_type: DataType,
    len: usize,
) -> (r: Result<Vec<Cell>, CubeError>)
    requires
        old(response).rows().len == Ok::<usize, CubeErrorView>(len),
    ensures
        final(response).rows() == old(response).rows(),
        cells_view(r) == member_cells(old(response).rows(), name@, data_type, len as nat),
{
    let ghost source = response.rows();
    let mut cells: Vec<Cell> = Vec::new();
    let mut i: usize = 0;
    proof {
        crate::views::lemma_view_all_empty::<Cell>();
    }
    while i < len
        invariant
            0 <= i <= len,
            response.rows() == source,
            source == old(response).rows(),
            source.len == Ok::<usize, CubeErrorView>(len),
            member_cells(source, name@, data_type, i as nat) == Ok::<Seq<CellView>, CubeErrorView>(
                view_all(cells@),
            ),
        decreases len - i,
    {
        let fetched = response.get(i, name);
        let value = match fetched {
            Ok(v) => v,
            Err(e) => {
                proof {
                    lemma_member_cells_failure(source, name@, data_type, (i + 1) as nat, len as nat);
                }
                return Err(e);
            },
        };
        let cell = match coerce_value(value, data_type) {
            Ok(c) => c,
            Err(e) => {
                proof {
                    lemma_member_cells_failure(source, name@, data_type, (i + 1) as nat, len as nat);
                }
                return Err(e);
            },
        };
        proof {
            lemma_view_all_push(cells@, cell);
        }
        cells.push(cell);
        i = i + 1;
    }
    Ok(cells)
}

/// The cells of a column that holds one constant in each of `len` rows.
pub fn literal_column(value: &ScalarValue, data_type: DataType, len: usize) -> (r: Result<
    Vec<Cell>,
    CubeError,
>)
    ensures
        cells_view(r) == match literal_cell(value@, data_type) {
            Err(e) => Err::<Seq<CellView>, CubeErrorView>(e),
            Ok(cell) => Ok(Seq::new(len as nat, |i: int| cell)),
        },
{
    let cell = match literal_to_cell(value, data_type) {
        Ok(c) => c,
        Err(e) => {
            return Err(e);
        },
    };
    let mut cells: Vec<Cell> = Vec::new();
    let mut i: usize = 0;
    while i < len
        invariant
            0 <= i <= len,
            cells.len() == i,
            forall|k: int| 0 <= k < i ==> cells@[k]@ == cell@,
        decreases len - i,
    {
        cells.push(cell.clone());
        i = i + 1;
    }
    assert(view_all(cells@) =~= Seq::new(len as nat, |i: int| cell@));
    Ok(cells)
}

/// The column at index `column` of a batch: of type `data_type`, filled by
/// `field` from the rows of `response`.
pub fn build_column<V: ValueObject>(
    response: &mut V,
    data_type: DataType,
    field: &MemberField,
    column: usize,
) -> (r: Result<Column, CubeError>)
    ensures
        final(response).rows() == old(response).rows(),
        column_view(r) == match column_cells(old(response).rows(), data_type, field@, column) {
            Err(e) => Err::<ColumnView, CubeErrorView>(e),
            Ok(cells) => Ok(ColumnView { data_type, cells }),
        },
{
    if !data_type.is_supported() {
        return Err(CubeError::UnsupportedType { column });
    }
    let len = match response.len() {
        Ok(n) => n,
        Err(e) => {
            return Err(e);
        },
    };
    let built = match field {
        MemberField::Member(name) => member_column(response, name.as_str(), data_type, len),
        MemberField::Literal(value) => literal_column(value, data_type, len),
    };
    match built {
        Ok(cells) => Ok(Column { data_type, cells }),
        Err(e) => Err(e),
    }
}

/// Materializes the rows of `response` under `schema`: the column at each
/// index is filled by the member field at that index. Returns the batch, or
/// the failure of the first column, and in it of the first row, that fails.
pub fn transform_response<V: ValueObject>(
    response: &mut V,
    schema: Schema,
    member_fields: &Vec<MemberField>,
) -> (r: Result<ColumnarBatch, CubeError>)
    requires
        member_fields.len() >= schema@.len(),
    ensures
        final(response).rows() == old(response).rows(),
        result_view(r) == materialized(old(response).rows(), schema@, view_all(member_fields@)),
        r is Ok ==> {
            &&& r->Ok_0@.well_formed()
            &&& r->Ok_0@.schema == schema@
            &&& old(response).rows().len == Ok::<usize, CubeErrorView>(r->Ok_0@.num_rows)
        },
{
    let ghost source = response.rows();
    let ghost fields = view_all(member_fields@);
    let count = schema.fields.len();
    let mut columns: Vec<Column> = Vec::new();
    let mut i: usize = 0;
    proof {
        crate::views::lemma_view_all_empty::<Column>();
    }
    while i < count
        invariant
            0 <= i <= count,
            count == schema.fields.len(),
            count == schema@.len(),
            member_fields.len() >= count,
            fields == view_all(member_fields@),
            response.rows() == source,
            source == old(response).rows(),
            columns_upto(source, schema@, fields, i as nat) == Ok::<Seq<ColumnView>, CubeErrorView>(
                view_all(columns@),
            ),
        decreases count - i,
    {
        let data_type = schema.fields[i].data_type;
        assert(schema@[i as int].data_type == data_type);
        assert(fields[i as int] == member_fields@[i as int]@);
        let column = match build_column(response, data_type, &member_fields[i], i) {
            Ok(c) => c,
            Err(e) => {
                proof {
                    lemma_columns_failure(source, schema@, fields, (i + 1) as nat, count as nat);
                }
                return Err(e);
            },
        };
        proof {
            lemma_view_all_push(columns@, column);
        }
        columns.push(column);
        i = i + 1;
    }
    let num_rows = match response.len() {
        Ok(n) => n,
        Err(e) => {
            return Err(e);
        },
    };
    proof {
        lemma_materialized_shape(source, schema@, fields);
    }
    Ok(ColumnarBatch { schema, columns, num_rows })
}

/// A cell that a value becomes in a column is null or of the column's kind.
pub proof fn lemma_coerce_fits(value: FieldValueView, data_type: DataType)
    requires
        coerce(value, data_type) is Ok,
    ensures
        crate::batch::cell_fits(coerce(value, data_type)->Ok_0, data_type),
{
}

/// A cell that a constant becomes in a column is null or of the column's kind.
pub proof fn lemma_literal_fits(value: ScalarValueView, data_type: DataType)
    requires
        literal_cell(value, data_type) is Ok,
    ensures
        crate::batch::cell_fits(literal_cell(value, data_type)->Ok_0, data_type),
{
}

/// Null in a row becomes a null cell, whatever the type of the column.
pub proof fn lemma_null_becomes_null(data_type: DataType)
    ensures
        coerce(FieldValueView::Null, data_type) == Ok::<CellView, CubeErrorView>(CellView::Null),
{
}

/// A string in an integer or a floating-point column never fails the
/// materialization: it becomes the number that it writes, or a null cell if
/// it writes none.
pub proof fn lemma_numeric_text(s: Seq<char>)
    ensures
        coerce(FieldValueView::String(s), DataType::Int32) == Ok::<CellView, CubeErrorView>(
            match bounded_integer(s, i32::MIN as int, i32::MAX as int) {
                Some(v) => CellView::Int32(v as i32),
                None => CellView::Null,
            },
        ),
        coerce(FieldValueView::String(s), DataType::Int64) == Ok::<CellView, CubeErrorView>(
            match bounded_integer(s, i64::MIN as int, i64::MAX as int) {
                Some(v) => CellView::Int64(v as i64),
                None => CellView::Null,
            },
        ),
        coerce(FieldValueView::String(s), DataType::Float64) == Ok::<CellView, CubeErrorView>(
            if is_float_literal(s) {
                CellView::Float64Literal(s)
            } else {
                CellView::Null
            },
        ),
{
}

/// A string in a boolean column becomes true for `true` and `1`, false for
/// `false` and `0`, and a null cell for anything else.
pub proof fn lemma_boolean_text(s: Seq<char>)
    ensures
        coerce(FieldValueView::String(s), DataType::Boolean) == Ok::<CellView, CubeErrorView>(
            if s == "true"@ || s == "1"@ {
                CellView::Boolean(true)
            } else if s == "false"@ || s == "0"@ {
                CellView::Boolean(false)
            } else {
                CellView::Null
            },
        ),
{
    reveal_strlit("true");
    reveal_strlit("1");
    reveal_strlit("false");
    reveal_strlit("0");
    assert("true"@ =~= seq!['t', 'r', 'u', 'e']);
    assert("1"@ =~= seq!['1']);
    assert("false"@ =~= seq!['f', 'a', 'l', 's', 'e']);
    assert("0"@ =~= seq!['0']);
}

/// Where the first `count` rows give a column its cells, there is one cell
/// for each row, and the cell at each index is what the value of that row
/// becomes.
pub proof fn lemma_member_cells_each(
    source: RowSource,
    name: Seq<char>,
    data_type: DataType,
    count: nat,
)
    requires
        member_cells(source, name, data_type, count) is Ok,
    ensures
        member_cells(source, name, data_type, count)->Ok_0.len() == count,
        forall|i: int|
            0 <= i < count ==> {
                &&& (#[trigger] (source.get)(i, name)) is Ok
                &&& coerce((source.get)(i, name)->Ok_0, data_type) == Ok::<CellView, CubeErrorView>(
                    member_cells(source, name, data_type, count)->Ok_0[i],
                )
            },
    decreases count,
{
    if count > 0 {
        lemma_member_cells_each(source, name, data_type, (count - 1) as nat);
    }
}

/// A constant that is absent becomes a null cell in a column of its kind.
pub proof fn lemma_absent_literal_is_null(value: ScalarValueView, data_type: DataType)
    requires
        value.is_null(),
        literal_cell(value, data_type) is Ok,
    ensures
        literal_cell(value, data_type) == Ok::<CellView, CubeErrorView>(CellView::Null),
{
}

/// A constant fills its column with one cell for each row, the same in every
/// row, whatever the rows hold: null if the constant is absent.
pub proof fn lemma_literal_column(
    source: RowSource,
    other: RowSource,
    data_type: DataType,
    value: ScalarValueView,
    column: usize,
)
    requires
        data_type.supported(),
        source.len is Ok,
        other.len == source.len,
        literal_cell(value, data_type) is Ok,
    ensures
        column_cells(source, data_type, MemberFieldView::Literal(value), column) is Ok,
        column_cells(source, data_type, MemberFieldView::Literal(value), column)->Ok_0.len()
            == source.len->Ok_0,
        forall|i: int|
            0 <= i < source.len->Ok_0 ==> (#[trigger] column_cells(
                source,
                data_type,
                MemberFieldView::Literal(value),
                column,
            )->Ok_0[i]) == literal_cell(value, data_type)->Ok_0,
        column_cells(other, data_type, MemberFieldView::Literal(value), column) == column_cells(
            source,
            data_type,
            MemberFieldView::Literal(value),
            column,
        ),
{
}

/// Where the first `count` columns are made, each is of its schema column's
/// type and holds one well-typed cell for each row.
pub proof fn lemma_columns_shape(
    source: RowSource,
    schema: Seq<FieldView>,
    fields: Seq<MemberFieldView>,
    count: nat,
)
    requires
        count <= schema.len(),
        columns_upto(source, schema, fields, count) is Ok,
    ensures
        columns_upto(source, schema, fields, count)->Ok_0.len() == count,
        count > 0 ==> source.len is Ok,
        forall|k: int|
            0 <= k < count ==> {
                let column = #[trigger] columns_upto(source, schema, fields, count)->Ok_0[k];
                &&& column.data_type == schema[k].data_type
                &&& column.cells.len() == source.len->Ok_0
                &&& column.well_typed()
            },
    decreases count,
{
    if count > 0 {
        lemma_columns_shape(source, schema, fields, (count - 1) as nat);
        let data_type = schema[count - 1].data_type;
        let n = source.len->Ok_0;
        let cells = column_cells(source, data_type, fields[count - 1], (count - 1) as usize)->Ok_0;
        match fields[count - 1] {
            MemberFieldView::Member(name) => {
                lemma_member_cells_each(source, name, data_type, n as nat);
                assert forall|i: int| 0 <= i < cells.len() implies crate::batch::cell_fits(
                    #[trigger] cells[i],
                    data_type,
                ) by {
                    lemma_coerce_fits((source.get)(i, name)->Ok_0, data_type);
                }
            },
            MemberFieldView::Literal(value) => {
                lemma_literal_fits(value, data_type);
            },
        }
    }
}

/// A batch that a materialization returns has the schema that was asked for,
/// as many rows as the source, and one column for each column of the schema,
/// of that column's type, with one well-typed cell for each row.
pub proof fn lemma_materialized_shape(
    source: RowSource,
    schema: Seq<FieldView>,
    fields: Seq<MemberFieldView>,
)
    requires
        materialized(source, schema, fields) is Ok,
    ensures
        materialized(source, schema, fields)->Ok_0.schema == schema,
        source.len == Ok::<usize, CubeErrorView>(materialized(source, schema, fields)->Ok_0.num_rows),
        materialized(source, schema, fields)->Ok_0.well_formed(),
{
    lemma_columns_shape(source, schema, fields, schema.len());
}

/// A string that writes no timestamp, in any row of a timestamp column that
/// reads a field, fails the whole materialization.
pub proof fn lemma_timestamp_failure_is_fatal(
    source: RowSource,
    schema: Seq<FieldView>,
    fields: Seq<MemberFieldView>,
    column: int,
    row: int,
    name: Seq<char>,
    text: Seq<char>,
)
    requires
        0 <= column < schema.len(),
        schema[column].data_type == DataType::TimestampNanosecond || schema[column].data_type
            == DataType::TimestampMillisecond,
        fields[column] == MemberFieldView::Member(name),
        source.len matches Ok(n) && 0 <= row < n,
        (source.get)(row, name) == Ok::<FieldValueView, CubeErrorView>(FieldValueView::String(text)),
        timestamp_parsed(text) is None,
    ensures
        materialized(source, schema, fields) is Err,
{
    let data_type = schema[column].data_type;
    let n = source.len->Ok_0;
    assert(member_cells(source, name, data_type, (row + 1) as nat) is Err);
    lemma_member_cells_failure(source, name, data_type, (row + 1) as nat, n as nat);
    assert(columns_upto(source, schema, fields, (column + 1) as nat) is Err);
    lemma_columns_failure(source, schema, fields, (column + 1) as nat, schema.len());
}

} // verus!
