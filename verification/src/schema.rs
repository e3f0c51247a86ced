//! The target of a materialization: the columns' types, and what fills each
//! column.

use crate::views::{copy_string, option_view, view_all};
use vstd::prelude::*;

verus! {

/// The type of a column. `Other` stands for every type that a remote response
/// cannot be materialized into.
#[derive(Clone, Copy, Debug, PartialEq, Eq, Structural)]
pub enum DataType {
    Utf8,
    Int32,
    Int64,
    Float64,
    Boolean,
    TimestampNanosecond,
    TimestampMillisecond,
    Date32,
    Other,
}

impl DataType {
    /// The type is one that a remote response can be materialized into.
    pub open spec fn supported(self) -> bool {
        self != DataType::Other
    }

    /// The name of the type.
    pub open spec fn name_spec(self) -> Seq<char> {
        match self {
            DataType::Utf8 => "Utf8"@,
            DataType::Int32 => "Int32"@,
            DataType::Int64 => "Int64"@,
            DataType::Float64 => "Float64"@,
            DataType::Boolean => "Boolean"@,
            DataType::TimestampNanosecond => "Timestamp(Nanosecond, None)"@,
            DataType::TimestampMillisecond => "Timestamp(Millisecond, None)"@,
            DataType::Date32 => "Date32"@,
            DataType::Other => "an unsupported type"@,
        }
    }

    /// The name of the type.
    pub fn name(&self) -> (r: &'static str)
        ensures
            r@ == self.name_spec(),
    {
        match self {
            DataType::Utf8 => "Utf8",
            DataType::Int32 => "Int32",
            DataType::Int64 => "Int64",
            DataType::Float64 => "Float64",
            DataType::Boolean => "Boolean",
            DataType::TimestampNanosecond => "Timestamp(Nanosecond, None)",
            DataType::TimestampMillisecond => "Timestamp(Millisecond, None)",
            DataType::Date32 => "Date32",
            DataType::Other => "an unsupported type",
        }
    }

    /// Tells whether a remote response can be materialized into this type.
    pub fn is_supported(&self) -> (r: bool)
        ensures
            r == self.supported(),
    {
        match self {
            DataType::Other => false,
            _ => true,
        }
    }
}

/// The precision of a timestamp column.
#[derive(Clone, Copy, Debug, PartialEq, Eq, Structural)]
pub enum TimeUnit {
    Nanosecond,
    Millisecond,
}

/// One column of a schema.
#[derive(Debug, PartialEq, Eq)]
pub struct Field {
    pub name: String,
    pub data_type: DataType,
    pub nullable: bool,
}

/// What a `Field` is in contracts.
pub struct FieldView {
    pub name: Seq<char>,
    pub data_type: DataType,
    pub nullable: bool,
}

impl View for Field {
    type V = FieldView;

    open spec fn view(&self) -> FieldView {
        FieldView { name: self.name@, data_type: self.data_type, nullable: self.nullable }
    }
}

impl Clone for Field {
    fn clone(&self) -> (r: Self)
        ensures
            r@ == self@,
    {
        Field { name: copy_string(&self.name), data_type: self.data_type, nullable: self.nullable }
    }
}

impl Field {
    /// A column of the given name and type.
    pub fn new(name: String, data_type: DataType, nullable: bool) -> (r: Field)
        ensures
            r@ == (FieldView { name: name@, data_type, nullable }),
    {
        Field { name, data_type, nullable }
    }
}

/// The columns of a batch, in order.
#[derive(Debug, PartialEq, Eq)]
pub struct Schema {
    pub fields: Vec<Field>,
}

impl View for Schema {
    type V = Seq<FieldView>;

    open spec fn view(&self) -> Seq<FieldView> {
        view_all(self.fields@)
    }
}

impl Clone for Schema {
    fn clone(&self) -> (r: Self)
        ensures
            r@ == self@,
    {
        let mut out: Vec<Field> = Vec::new();
        let mut i: usize = 0;
        while i < self.fields.len()
            invariant
                0 <= i <= self.fields.len(),
                out.len() == i,
                forall|k: int| 0 <= k < i ==> out@[k]@ == self.fields@[k]@,
            decreases self.fields.len() - i,
        {
            out.push(self.fields[i].clone());
            i = i + 1;
        }
        assert(view_all(out@) =~= view_all(self.fields@));
        Schema { fields: out }
    }
}

impl Schema {
    /// A schema of the given columns.
    pub fn new(fields: Vec<Field>) -> (r: Schema)
        ensures
            r@ == view_all(fields@),
    {
        Schema { fields }
    }

    /// The number of columns.
    pub fn len(&self) -> (r: usize)
        ensures
            r == self@.len(),
    {
        self.fields.len()
    }
}

/// A constant of a query. `Other` stands for every constant of a kind that no
/// column of a remote response can hold.
#[derive(Debug, PartialEq, Eq)]
pub enum ScalarValue {
    Utf8(Option<String>),
    Int32(Option<i32>),
    Int64(Option<i64>),
    /// A double, by its bit pattern.
    Float64(Option<u64>),
    Boolean(Option<bool>),
    TimestampNanosecond(Option<i64>),
    TimestampMillisecond(Option<i64>),
    Date32(Option<i32>),
    Other,
}

/// What a `ScalarValue` is in contracts.
pub enum ScalarValueView {
    Utf8(Option<Seq<char>>),
    Int32(Option<i32>),
    Int64(Option<i64>),
    Float64(Option<u64>),
    Boolean(Option<bool>),
    TimestampNanosecond(Option<i64>),
    TimestampMillisecond(Option<i64>),
    Date32(Option<i32>),
    Other,
}

impl View for ScalarValue {
    type V = ScalarValueView;

    open spec fn view(&self) -> ScalarValueView {
        match self {
            ScalarValue::Utf8(v) => ScalarValueView::Utf8(option_view(*v)),
            ScalarValue::Int32(v) => ScalarValueView::Int32(*v),
            ScalarValue::Int64(v) => ScalarValueView::Int64(*v),
            ScalarValue::Float64(v) => ScalarValueView::Float64(*v),
            ScalarValue::Boolean(v) => ScalarValueView::Boolean(*v),
            ScalarValue::TimestampNanosecond(v) => ScalarValueView::TimestampNanosecond(*v),
            ScalarValue::TimestampMillisecond(v) => ScalarValueView::TimestampMillisecond(*v),
            ScalarValue::Date32(v) => ScalarValueView::Date32(*v),
            ScalarValue::Other => ScalarValueView::Other,
        }
    }
}

impl ScalarValueView {
    /// The constant is of a kind that a column can hold, and absent.
    pub open spec fn is_null(self) -> bool {
        match self {
            ScalarValueView::Utf8(v) => v is None,
            ScalarValueView::Int32(v) => v is None,
            ScalarValueView::Int64(v) => v is None,
            ScalarValueView::Float64(v) => v is None,
            ScalarValueView::Boolean(v) => v is None,
            ScalarValueView::TimestampNanosecond(v) => v is None,
            ScalarValueView::TimestampMillisecond(v) => v is None,
            ScalarValueView::Date32(v) => v is None,
            ScalarValueView::Other => false,
        }
    }

    /// The name of the kind of the constant.
    pub open spec fn kind_name(self) -> Seq<char> {
        match self {
            ScalarValueView::Utf8(_) => "a Utf8 constant"@,
            ScalarValueView::Int32(_) => "an Int32 constant"@,
            ScalarValueView::Int64(_) => "an Int64 constant"@,
            ScalarValueView::Float64(_) => "a Float64 constant"@,
            ScalarValueView::Boolean(_) => "a Boolean constant"@,
            ScalarValueView::TimestampNanosecond(_) => "a Timestamp(Nanosecond, None) constant"@,
            ScalarValueView::TimestampMillisecond(_) => "a Timestamp(Millisecond, None) constant"@,
            ScalarValueView::Date32(_) => "a Date32 constant"@,
            ScalarValueView::Other => "a constant of an unsupported type"@,
        }
    }
}

impl ScalarValue {
    /// The name of the kind of the constant.
    pub fn kind_name(&self) -> (r: &'static str)
        ensures
            r@ == self@.kind_name(),
    {
        match self {
            ScalarValue::Utf8(_) => "a Utf8 constant",
            ScalarValue::Int32(_) => "an Int32 constant",
            ScalarValue::Int64(_) => "an Int64 constant",
            ScalarValue::Float64(_) => "a Float64 constant",
            ScalarValue::Boolean(_) => "a Boolean constant",
            ScalarValue::TimestampNanosecond(_) => "a Timestamp(Nanosecond, None) constant",
            ScalarValue::TimestampMillisecond(_) => "a Timestamp(Millisecond, None) constant",
            ScalarValue::Date32(_) => "a Date32 constant",
            ScalarValue::Other => "a constant of an unsupported type",
        }
    }
}

impl Clone for ScalarValue {
    fn clone(&self) -> (r: Self)
        ensures
            r@ == self@,
    {
        match self {
            ScalarValue::Utf8(v) => ScalarValue::Utf8(
                match v {
                    Some(s) => Some(copy_string(s)),
                    None => None,
                },
            ),
            ScalarValue::Int32(v) => ScalarValue::Int32(*v),
            ScalarValue::Int64(v) => ScalarValue::Int64(*v),
            ScalarValue::Float64(v) => ScalarValue::Float64(*v),
            ScalarValue::Boolean(v) => ScalarValue::Boolean(*v),
            ScalarValue::TimestampNanosecond(v) => ScalarValue::TimestampNanosecond(*v),
            ScalarValue::TimestampMillisecond(v) => ScalarValue::TimestampMillisecond(*v),
            ScalarValue::Date32(v) => ScalarValue::Date32(*v),
            ScalarValue::Other => ScalarValue::Other,
        }
    }
}

/// What fills one output column: the field of that name in each row, or one
/// constant for every row.
#[derive(Debug, PartialEq, Eq)]
pub enum MemberField {
    Member(String),
    Literal(ScalarValue),
}

/// What a `MemberField` is in contracts.
pub enum MemberFieldView {
    Member(Seq<char>),
    Literal(ScalarValueView),
}

impl View for MemberField {
    type V = MemberFieldView;

    open spec fn view(&self) -> MemberFieldView {
        match self {
            MemberField::Member(name) => MemberFieldView::Member(name@),
            MemberField::Literal(value) => MemberFieldView::Literal(value@),
        }
    }
}

impl Clone for MemberField {
    fn clone(&self) -> (r: Self)
        ensures
            r@ == self@,
    {
        match self {
            MemberField::Member(name) => MemberField::Member(copy_string(name)),
            MemberField::Literal(value) => MemberField::Literal(value.clone()),
        }
    }
}

/// A copy of a list of member fields.
pub fn copy_member_fields(list: &Vec<MemberField>) -> (r: Vec<MemberField>)
    ensures
        view_all(r@) == view_all(list@),
{
    let mut out: Vec<MemberField> = Vec::new();
    let mut i: usize = 0;
    while i < list.len()
        invariant
            0 <= i <= list.len(),
            out.len() == i,
            forall|k: int| 0 <= k < i ==> out@[k]@ == list@[k]@,
        decreases list.len() - i,
    {
        out.push(list[i].clone());
        i = i + 1;
    }
    assert(view_all(out@) =~= view_all(list@));
    out
}

} // verus!
