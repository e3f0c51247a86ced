//! The values that the fields of a remote row hold.

use crate::number::{Number, NumberView};
use crate::views::copy_string;
use vstd::prelude::*;
use vstd::string::StringExecFns;

verus! {

/// The value of one field of one row: a string, a number, a boolean or null.
#[derive(Debug, PartialEq, Eq)]
pub enum FieldValue {
    String(String),
    Number(Number),
    Bool(bool),
    Null,
}

/// What a `FieldValue` is in contracts.
pub enum FieldValueView {
    String(Seq<char>),
    Number(NumberView),
    Bool(bool),
    Null,
}

impl View for FieldValue {
    type V = FieldValueView;

    open spec fn view(&self) -> FieldValueView {
        match self {
            FieldValue::String(s) => FieldValueView::String(s@),
            FieldValue::Number(n) => FieldValueView::Number(n@),
            FieldValue::Bool(b) => FieldValueView::Bool(*b),
            FieldValue::Null => FieldValueView::Null,
        }
    }
}

impl FieldValueView {
    /// The value written with the name of its kind.
    pub open spec fn describe(self) -> Seq<char> {
        match self {
            FieldValueView::String(s) => "String(\""@ + s + "\")"@,
            FieldValueView::Number(n) => "Number("@ + n.text + ")"@,
            FieldValueView::Bool(b) => if b {
                "Bool(true)"@
            } else {
                "Bool(false)"@
            },
            FieldValueView::Null => "Null"@,
        }
    }
}

impl FieldValue {
    /// The value written with the name of its kind.
    pub fn describe(&self) -> (r: String)
        ensures
            r@ == self@.describe(),
    {
        match self {
            FieldValue::String(s) => String::from_str("String(\"").concat(s.as_str()).concat("\")"),
            FieldValue::Number(n) => String::from_str("Number(").concat(n.text.as_str()).concat(")"),
            FieldValue::Bool(b) => if *b {
                String::from_str("Bool(true)")
            } else {
                String::from_str("Bool(false)")
            },
            FieldValue::Null => String::from_str("Null"),
        }
    }
}

impl Clone for FieldValue {
    fn clone(&self) -> (r: Self)
        ensures
            r@ == self@,
    {
        match self {
            FieldValue::String(s) => FieldValue::String(copy_string(s)),
            FieldValue::Number(n) => FieldValue::Number(n.clone()),
            FieldValue::Bool(b) => FieldValue::Bool(*b),
            FieldValue::Null => FieldValue::Null,
        }
    }
}

} // verus!
