//! The failures of a scan.

use crate::schema::{DataType, ScalarValue, ScalarValueView};
use crate::value::{FieldValue, FieldValueView};
use crate::text::{decimal_digits, decimal_text};
use crate::views::copy_string;
use vstd::prelude::*;
use vstd::string::StringExecFns;

verus! {

/// Why a scan, or a step of it, failed.
#[derive(Debug, PartialEq, Eq)]
#[allow(inconsistent_fields)]
pub enum CubeError {
    /// A failure that the user of the query is told of, in the words given.
    User(String),
    /// A failure inside the engine, in the words given.
    Internal(String),
    /// The row at `index` of a response is not an object.
    RowNotObject { index: usize },
    /// The field `field` of the row at `index` holds an array or an object.
    NotPrimitive { index: usize, field: String },
    /// A value of a row is of a kind that cannot become a cell of the column's type.
    UnmappableValue { value: FieldValue, data_type: DataType },
    /// A constant is of another kind than the column that it is to fill.
    UnmappableLiteral { value: ScalarValue, data_type: DataType },
    /// A string in a timestamp column is in none of the accepted formats.
    TimestampParse { text: String },
    /// The column at `column` is of a type that no remote response is materialized into.
    UnsupportedType { column: usize },
    /// The remote service failed, in the words given.
    Transport(String),
    /// One fetch brought `max_records` rows or more: joining or uniting them
    /// would give wrong results.
    MaxRecordsExceeded { max_records: usize },
    /// The response of the remote service holds no result.
    EmptyResponse,
    /// The worker that made the fallback fetch ended abnormally.
    WorkerFailed,
    /// A wrapped plan holds no remote scan.
    NoCubeScans,
    /// A wrapped plan reached lowering without its member fields.
    MemberFieldsNotSet,
    /// A wrapped plan reached lowering without its pushed-down SQL.
    WrappedSqlNotSet,
    /// A scan has no children that could be replaced.
    ChildrenNotReplaceable,
}

/// What a `CubeError` is in contracts.
#[allow(inconsistent_fields)]
pub enum CubeErrorView {
    User(Seq<char>),
    Internal(Seq<char>),
    RowNotObject { index: usize },
    NotPrimitive { index: usize, field: Seq<char> },
    UnmappableValue { value: FieldValueView, data_type: DataType },
    UnmappableLiteral { value: ScalarValueView, data_type: DataType },
    TimestampParse { text: Seq<char> },
    UnsupportedType { column: usize },
    Transport(Seq<char>),
    MaxRecordsExceeded { max_records: usize },
    EmptyResponse,
    WorkerFailed,
    NoCubeScans,
    MemberFieldsNotSet,
    WrappedSqlNotSet,
    ChildrenNotReplaceable,
}

impl View for CubeError {
    type V = CubeErrorView;

    open spec fn view(&self) -> CubeErrorView {
        match self {
            CubeError::User(m) => CubeErrorView::User(m@),
            CubeError::Internal(m) => CubeErrorView::Internal(m@),
            CubeError::RowNotObject { index } => CubeErrorView::RowNotObject { index: *index },
            CubeError::NotPrimitive { index, field } => CubeErrorView::NotPrimitive {
                index: *index,
                field: field@,
            },
            CubeError::UnmappableValue { value, data_type } => CubeErrorView::UnmappableValue {
                value: value@,
                data_type: *data_type,
            },
            CubeError::UnmappableLiteral { value, data_type } => CubeErrorView::UnmappableLiteral {
                value: value@,
                data_type: *data_type,
            },
            CubeError::TimestampParse { text } => CubeErrorView::TimestampParse { text: text@ },
            CubeError::UnsupportedType { column } => CubeErrorView::UnsupportedType {
                column: *column,
            },
            CubeError::Transport(m) => CubeErrorView::Transport(m@),
            CubeError::MaxRecordsExceeded { max_records } => CubeErrorView::MaxRecordsExceeded {
                max_records: *max_records,
            },
            CubeError::EmptyResponse => CubeErrorView::EmptyResponse,
            CubeError::WorkerFailed => CubeErrorView::WorkerFailed,
            CubeError::NoCubeScans => CubeErrorView::NoCubeScans,
            CubeError::MemberFieldsNotSet => CubeErrorView::MemberFieldsNotSet,
            CubeError::WrappedSqlNotSet => CubeErrorView::WrappedSqlNotSet,
            CubeError::ChildrenNotReplaceable => CubeErrorView::ChildrenNotReplaceable,
        }
    }
}

/// Whom a failure concerns.
#[derive(Clone, Copy, Debug, PartialEq, Eq, Structural)]
pub enum ErrorClass {
    /// The query or the data of its answer: told to the user of the query.
    User,
    /// The wiring of the engine: not expected in a plan that was built well.
    Internal,
    /// The remote service or the worker that asks it.
    Transport,
}

impl CubeErrorView {
    /// Whom the failure concerns.
    pub open spec fn class(self) -> ErrorClass {
        match self {
            CubeErrorView::User(_) => ErrorClass::User,
            CubeErrorView::RowNotObject { .. } => ErrorClass::User,
            CubeErrorView::NotPrimitive { .. } => ErrorClass::User,
            CubeErrorView::UnmappableValue { .. } => ErrorClass::User,
            CubeErrorView::UnmappableLiteral { .. } => ErrorClass::User,
            CubeErrorView::TimestampParse { .. } => ErrorClass::User,
            CubeErrorView::UnsupportedType { .. } => ErrorClass::User,
            CubeErrorView::MaxRecordsExceeded { .. } => ErrorClass::User,
            CubeErrorView::EmptyResponse => ErrorClass::User,
            CubeErrorView::Internal(_) => ErrorClass::Internal,
            CubeErrorView::NoCubeScans => ErrorClass::Internal,
            CubeErrorView::MemberFieldsNotSet => ErrorClass::Internal,
            CubeErrorView::WrappedSqlNotSet => ErrorClass::Internal,
            CubeErrorView::ChildrenNotReplaceable => ErrorClass::Internal,
            CubeErrorView::Transport(_) => ErrorClass::Transport,
            CubeErrorView::WorkerFailed => ErrorClass::Transport,
        }
    }

    /// The words in which the failure is told.
    pub open spec fn message(self) -> Seq<char> {
        match self {
            CubeErrorView::User(m) => m,
            CubeErrorView::Internal(m) => m,
            CubeErrorView::Transport(m) => m,
            CubeErrorView::RowNotObject { index } => "Unexpected response from Cube, row is not an object: row "@
                + decimal_digits(index as nat),
            CubeErrorView::NotPrimitive { index, field } => "Expected primitive value but found an array or an object in field "@
                + field + " of row "@ + decimal_digits(index as nat),
            CubeErrorView::UnmappableValue { value, data_type } => "Unable to map value "@
                + value.describe() + " to "@ + data_type.name_spec(),
            CubeErrorView::UnmappableLiteral { value, data_type } => "Unable to map value "@
                + value.kind_name() + " to "@ + data_type.name_spec(),
            CubeErrorView::TimestampParse { text } => "Can't parse timestamp: '"@ + text + "'"@,
            CubeErrorView::UnsupportedType { column } => "Type of column "@ + decimal_digits(
                column as nat,
            ) + " is not supported in response transformation from Cube"@,
            CubeErrorView::MaxRecordsExceeded { max_records } => "One of the Cube queries exceeded the maximum row limit ("@
                + decimal_digits(max_records as nat)
                + "). JOIN/UNION is not possible as it will produce incorrect results. Try filtering the results more precisely or moving post-processing functions to an outer query."@,
            CubeErrorView::EmptyResponse => "Unable to extract result from Cube.js response"@,
            CubeErrorView::WorkerFailed => "Can't load to stream"@,
            CubeErrorView::NoCubeScans => "No cube scans found in wrapper node"@,
            CubeErrorView::MemberFieldsNotSet => "Member fields are not set for wrapper node. Optimization wasn't performed"@,
            CubeErrorView::WrappedSqlNotSet => "Wrapped SQL is not set for wrapper node. Optimization wasn't performed"@,
            CubeErrorView::ChildrenNotReplaceable => "Children cannot be replaced in CubeScanExecutionPlan"@,
        }
    }
}

impl CubeError {
    /// Whom the failure concerns.
    pub fn class(&self) -> (r: ErrorClass)
        ensures
            r == self@.class(),
    {
        match self {
            CubeError::User(_) => ErrorClass::User,
            CubeError::RowNotObject { .. } => ErrorClass::User,
            CubeError::NotPrimitive { .. } => ErrorClass::User,
            CubeError::UnmappableValue { .. } => ErrorClass::User,
            CubeError::UnmappableLiteral { .. } => ErrorClass::User,
            CubeError::TimestampParse { .. } => ErrorClass::User,
            CubeError::UnsupportedType { .. } => ErrorClass::User,
            CubeError::MaxRecordsExceeded { .. } => ErrorClass::User,
            CubeError::EmptyResponse => ErrorClass::User,
            CubeError::Internal(_) => ErrorClass::Internal,
            CubeError::NoCubeScans => ErrorClass::Internal,
            CubeError::MemberFieldsNotSet => ErrorClass::Internal,
            CubeError::WrappedSqlNotSet => ErrorClass::Internal,
            CubeError::ChildrenNotReplaceable => ErrorClass::Internal,
            CubeError::Transport(_) => ErrorClass::Transport,
            CubeError::WorkerFailed => ErrorClass::Transport,
        }
    }

    /// The words in which the failure is told.
    pub fn message(&self) -> (r: String)
        ensures
            r@ == self@.message(),
    {
        match self {
            CubeError::User(m) => copy_string(m),
            CubeError::Internal(m) => copy_string(m),
            CubeError::Transport(m) => copy_string(m),
            CubeError::RowNotObject { index } => String::from_str(
                "Unexpected response from Cube, row is not an object: row ",
            ).concat(decimal_text(*index).as_str()),
            CubeError::NotPrimitive { index, field } => String::from_str(
                "Expected primitive value but found an array or an object in field ",
            ).concat(field.as_str()).concat(" of row ").concat(decimal_text(*index).as_str()),
            CubeError::UnmappableValue { value, data_type } => String::from_str(
                "Unable to map value ",
            ).concat(value.describe().as_str()).concat(" to ").concat(data_type.name()),
            CubeError::UnmappableLiteral { value, data_type } => String::from_str(
                "Unable to map value ",
            ).concat(value.kind_name()).concat(" to ").concat(data_type.name()),
            CubeError::TimestampParse { text } => String::from_str("Can't parse timestamp: '").concat(
                text.as_str(),
            ).concat("'"),
            CubeError::UnsupportedType { column } => String::from_str("Type of column ").concat(
                decimal_text(*column).as_str(),
            ).concat(" is not supported in response transformation from Cube"),
            CubeError::MaxRecordsExceeded { max_records } => String::from_str(
                "One of the Cube queries exceeded the maximum row limit (",
            ).concat(decimal_text(*max_records).as_str()).concat(
                "). JOIN/UNION is not possible as it will produce incorrect results. Try filtering the results more precisely or moving post-processing functions to an outer query.",
            ),
            CubeError::EmptyResponse => String::from_str(
                "Unable to extract result from Cube.js response",
            ),
            CubeError::WorkerFailed => String::from_str("Can't load to stream"),
            CubeError::NoCubeScans => String::from_str("No cube scans found in wrapper node"),
            CubeError::MemberFieldsNotSet => String::from_str(
                "Member fields are not set for wrapper node. Optimization wasn't performed",
            ),
            CubeError::WrappedSqlNotSet => String::from_str(
                "Wrapped SQL is not set for wrapper node. Optimization wasn't performed",
            ),
            CubeError::ChildrenNotReplaceable => String::from_str(
                "Children cannot be replaced in CubeScanExecutionPlan",
            ),
        }
    }
}

impl Clone for CubeError {
    fn clone(&self) -> (r: Self)
        ensures
            r@ == self@,
    {
        match self {
            CubeError::User(m) => CubeError::User(copy_string(m)),
            CubeError::Internal(m) => CubeError::Internal(copy_string(m)),
            CubeError::RowNotObject { index } => CubeError::RowNotObject { index: *index },
            CubeError::NotPrimitive { index, field } => CubeError::NotPrimitive {
                index: *index,
                field: copy_string(field),
            },
            CubeError::UnmappableValue { value, data_type } => CubeError::UnmappableValue {
                value: value.clone(),
                data_type: *data_type,
            },
            CubeError::UnmappableLiteral { value, data_type } => CubeError::UnmappableLiteral {
                value: value.clone(),
                data_type: *data_type,
            },
            CubeError::TimestampParse { text } => CubeError::TimestampParse {
                text: copy_string(text),
            },
            CubeError::UnsupportedType { column } => CubeError::UnsupportedType { column: *column },
            CubeError::Transport(m) => CubeError::Transport(copy_string(m)),
            CubeError::MaxRecordsExceeded { max_records } => CubeError::MaxRecordsExceeded {
                max_records: *max_records,
            },
            CubeError::EmptyResponse => CubeError::EmptyResponse,
            CubeError::WorkerFailed => CubeError::WorkerFailed,
            CubeError::NoCubeScans => CubeError::NoCubeScans,
            CubeError::MemberFieldsNotSet => CubeError::MemberFieldsNotSet,
            CubeError::WrappedSqlNotSet => CubeError::WrappedSqlNotSet,
            CubeError::ChildrenNotReplaceable => CubeError::ChildrenNotReplaceable,
        }
    }
}

} // verus!
