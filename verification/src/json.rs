//! The rows of a response as JSON holds them, and the row source over them.

use crate::error::{CubeError, CubeErrorView};
use crate::number::{Number, NumberView};
use crate::source::{RowSource, ValueObject};
use crate::value::{FieldValue, FieldValueView};
use crate::views::{copy_string, view_all};
use vstd::prelude::*;

verus! {

/// What a field of a row holds. Of an array or an object only the kind is
/// kept: a scan reads nothing inside them.
#[derive(Debug, PartialEq, Eq)]
pub enum JsonValue {
    Null,
    Bool(bool),
    Number(Number),
    String(String),
    Array,
    Object,
}

/// What a `JsonValue` is in contracts.
pub enum JsonValueView {
    Null,
    Bool(bool),
    Number(NumberView),
    String(Seq<char>),
    Array,
    Object,
}

impl View for JsonValue {
    type V = JsonValueView;

    open spec fn view(&self) -> JsonValueView {
        match self {
            JsonValue::Null => JsonValueView::Null,
            JsonValue::Bool(b) => JsonValueView::Bool(*b),
            JsonValue::Number(n) => JsonValueView::Number(n@),
            JsonValue::String(s) => JsonValueView::String(s@),
            JsonValue::Array => JsonValueView::Array,
            JsonValue::Object => JsonValueView::Object,
        }
    }
}

/// One named field of a row.
#[derive(Debug, PartialEq, Eq)]
pub struct JsonField {
    pub name: String,
    pub value: JsonValue,
}

/// What a `JsonField` is in contracts.
pub struct JsonFieldView {
    pub name: Seq<char>,
    pub value: JsonValueView,
}

impl View for JsonField {
    type V = JsonFieldView;

    open spec fn view(&self) -> JsonFieldView {
        JsonFieldView { name: self.name@, value: self.value@ }
    }
}

/// One row of a response: an object with named fields, null, or any other
/// JSON value.
#[derive(Debug, PartialEq, Eq)]
pub enum JsonRow {
    Null,
    Object(Vec<JsonField>),
    Other,
}

/// What a `JsonRow` is in contracts.
pub enum JsonRowView {
    Null,
    Object(Seq<JsonFieldView>),
    Other,
}

impl View for JsonRow {
    type V = JsonRowView;

    open spec fn view(&self) -> JsonRowView {
        match self {
            JsonRow::Null => JsonRowView::Null,
            JsonRow::Object(fields) => JsonRowView::Object(view_all(fields@)),
            JsonRow::Other => JsonRowView::Other,
        }
    }
}

impl Clone for JsonValue {
    fn clone(&self) -> (r: Self)
        ensures
            r@ == self@,
    {
        match self {
            JsonValue::Null => JsonValue::Null,
            JsonValue::Bool(b) => JsonValue::Bool(*b),
            JsonValue::Number(n) => JsonValue::Number(n.clone()),
            JsonValue::String(s) => JsonValue::String(copy_string(s)),
            JsonValue::Array => JsonValue::Array,
            JsonValue::Object => JsonValue::Object,
        }
    }
}

impl Clone for JsonField {
    fn clone(&self) -> (r: Self)
        ensures
            r@ == self@,
    {
        JsonField { name: copy_string(&self.name), value: self.value.clone() }
    }
}

impl Clone for JsonRow {
    fn clone(&self) -> (r: Self)
        ensures
            r@ == self@,
    {
        match self {
            JsonRow::Null => JsonRow::Null,
            JsonRow::Other => JsonRow::Other,
            JsonRow::Object(fields) => {
                let mut out: Vec<JsonField> = Vec::new();
                let mut i: usize = 0;
                while i < fields.len()
                    invariant
                        0 <= i <= fields.len(),
                        out.len() == i,
                        forall|k: int| 0 <= k < i ==> out@[k]@ == fields@[k]@,
                    decreases fields.len() - i,
                {
                    out.push(fields[i].clone());
                    i = i + 1;
                }
                assert(view_all(out@) =~= view_all(fields@));
                JsonRow::Object(out)
            },
        }
    }
}

/// What the first field named `name` holds; null if there is none.
pub open spec fn field_of(fields: Seq<JsonFieldView>, name: Seq<char>) -> JsonValueView
    decreases fields.len(),
{
    if fields.len() == 0 {
        JsonValueView::Null
    } else if fields[0].name == name {
        fields[0].value
    } else {
        field_of(fields.skip(1), name)
    }
}

/// What a row source over `rows` answers for the field `name` of the row at
/// `index`: the value if the row is an object and the field holds a string, a
/// number, a boolean or null.
pub open spec fn json_get(rows: Seq<JsonRowView>, index: int, name: Seq<char>) -> Result<
    FieldValueView,
    CubeErrorView,
> {
    match rows[index] {
        JsonRowView::Object(fields) => match field_of(fields, name) {
            JsonValueView::Null => Ok(FieldValueView::Null),
            JsonValueView::Bool(b) => Ok(FieldValueView::Bool(b)),
            JsonValueView::Number(n) => Ok(FieldValueView::Number(n)),
            JsonValueView::String(s) => Ok(FieldValueView::String(s)),
            _ => Err(CubeErrorView::NotPrimitive { index: index as usize, field: name }),
        },
        _ => Err(CubeErrorView::RowNotObject { index: index as usize }),
    }
}

/// What a row source over `rows` answers.
pub open spec fn json_source(rows: Seq<JsonRowView>) -> RowSource {
    RowSource {
        len: Ok(rows.len() as usize),
        get: |index: int, name: Seq<char>| json_get(rows, index, name),
    }
}

/// The row source over the rows of a JSON response.
pub struct JsonValueObject {
    rows: Vec<JsonRow>,
}

impl View for JsonValueObject {
    type V = Seq<JsonRowView>;

    closed spec fn view(&self) -> Seq<JsonRowView> {
        view_all(self.rows@)
    }
}

/// The position of the first field named `name`, if there is one.
fn find_field(fields: &Vec<JsonField>, name: &str) -> (r: Option<usize>)
    ensures
        match r {
            Some(k) => k < fields.len() && field_of(view_all(fields@), name@) == fields@[k as int]@.value,
            None => field_of(view_all(fields@), name@) == JsonValueView::Null,
        },
{
    let ghost all = view_all(fields@);
    let mut i: usize = 0;
    proof {
        assert(all.skip(0) =~= all);
    }
    while i < fields.len()
        invariant
            0 <= i <= fields.len(),
            all == view_all(fields@),
            field_of(all, name@) == field_of(all.skip(i as int), name@),
        decreases fields.len() - i,
    {
        let found = crate::views::same_text(fields[i].name.as_str(), name);
        proof {
            assert(all.skip(i as int)[0] == fields@[i as int]@);
            assert(all.skip(i as int).skip(1) =~= all.skip(i + 1));
        }
        if found {
            return Some(i);
        }
        i = i + 1;
    }
    None
}

impl JsonValueObject {
    /// The row source over `rows`.
    pub fn new(rows: Vec<JsonRow>) -> (r: JsonValueObject)
        ensures
            r@ == view_all(rows@),
    {
        JsonValueObject { rows }
    }
}

impl ValueObject for JsonValueObject {
    open spec fn rows(&self) -> RowSource {
        json_source(self@)
    }

    fn len(&mut self) -> (r: Result<usize, CubeError>) {
        Ok(self.rows.len())
    }

    fn get(&mut self, index: usize, field_name: &str) -> (r: Result<FieldValue, CubeError>) {
        match &self.rows[index] {
            JsonRow::Object(fields) => {
                match find_field(fields, field_name) {
                    None => Ok(FieldValue::Null),
                    Some(k) => match &fields[k].value {
                        JsonValue::Null => Ok(FieldValue::Null),
                        JsonValue::Bool(b) => Ok(FieldValue::Bool(*b)),
                        JsonValue::Number(n) => Ok(FieldValue::Number(n.clone())),
                        JsonValue::String(s) => Ok(FieldValue::String(copy_string(s))),
                        _ => Err(
                            CubeError::NotPrimitive {
                                index,
                                field: crate::views::owned_text(field_name),
                            },
                        ),
                    },
                }
            },
            _ => Err(CubeError::RowNotObject { index }),
        }
    }
}

} // verus!
