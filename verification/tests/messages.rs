use cube_scan::error::{CubeError, ErrorClass};
use cube_scan::number::Number;
use cube_scan::schema::{DataType, ScalarValue};
use cube_scan::text::{decimal_text, parse_i64};
use cube_scan::value::FieldValue;

#[test]
fn decimal_text_writes_what_std_writes() {
    for n in [0usize, 1, 9, 10, 11, 99, 100, 12345, 50000, usize::MAX] {
        assert_eq!(decimal_text(n), n.to_string());
    }
}

#[test]
fn decimal_text_is_read_back() {
    for n in [0usize, 7, 10, 4096, 1 << 40] {
        assert_eq!(parse_i64(&decimal_text(n)), Some(n as i64));
    }
}

#[test]
fn values_describe_themselves() {
    assert_eq!(FieldValue::String("x".to_string()).describe(), "String(\"x\")");
    assert_eq!(
        FieldValue::Number(Number::new(5.05_f64.to_bits(), "5.05".to_string())).describe(),
        "Number(5.05)"
    );
    assert_eq!(FieldValue::Bool(true).describe(), "Bool(true)");
    assert_eq!(FieldValue::Bool(false).describe(), "Bool(false)");
    assert_eq!(FieldValue::Null.describe(), "Null");
}

#[test]
fn types_and_constants_have_names() {
    assert_eq!(DataType::Utf8.name(), "Utf8");
    assert_eq!(DataType::TimestampNanosecond.name(), "Timestamp(Nanosecond, None)");
    assert_eq!(DataType::TimestampMillisecond.name(), "Timestamp(Millisecond, None)");
    assert_eq!(DataType::Other.name(), "an unsupported type");
    assert_eq!(ScalarValue::Int32(None).kind_name(), "an Int32 constant");
    assert_eq!(ScalarValue::Other.kind_name(), "a constant of an unsupported type");
    assert!(DataType::Date32.is_supported());
    assert!(!DataType::Other.is_supported());
}

#[test]
fn every_failure_has_its_words() {
    let words = |e: CubeError| e.message();
    assert_eq!(words(CubeError::User("u".to_string())), "u");
    assert_eq!(words(CubeError::Internal("i".to_string())), "i");
    assert_eq!(words(CubeError::Transport("t".to_string())), "t");
    assert_eq!(
        words(CubeError::RowNotObject { index: 12 }),
        "Unexpected response from Cube, row is not an object: row 12"
    );
    assert_eq!(
        words(CubeError::NotPrimitive { index: 3, field: "f".to_string() }),
        "Expected primitive value but found an array or an object in field f of row 3"
    );
    assert_eq!(
        words(CubeError::UnmappableValue {
            value: FieldValue::Bool(true),
            data_type: DataType::Int32
        }),
        "Unable to map value Bool(true) to Int32"
    );
    assert_eq!(
        words(CubeError::UnmappableLiteral {
            value: ScalarValue::Utf8(None),
            data_type: DataType::Date32
        }),
        "Unable to map value a Utf8 constant to Date32"
    );
    assert_eq!(
        words(CubeError::TimestampParse { text: "soon".to_string() }),
        "Can't parse timestamp: 'soon'"
    );
    assert_eq!(
        words(CubeError::UnsupportedType { column: 4 }),
        "Type of column 4 is not supported in response transformation from Cube"
    );
    assert_eq!(
        words(CubeError::MaxRecordsExceeded { max_records: 50000 }),
        "One of the Cube queries exceeded the maximum row limit (50000). JOIN/UNION is not possible as it will produce incorrect results. Try filtering the results more precisely or moving post-processing functions to an outer query."
    );
    assert_eq!(words(CubeError::EmptyResponse), "Unable to extract result from Cube.js response");
    assert_eq!(words(CubeError::WorkerFailed), "Can't load to stream");
    assert_eq!(words(CubeError::NoCubeScans), "No cube scans found in wrapper node");
    assert_eq!(
        words(CubeError::MemberFieldsNotSet),
        "Member fields are not set for wrapper node. Optimization wasn't performed"
    );
    assert_eq!(
        words(CubeError::WrappedSqlNotSet),
        "Wrapped SQL is not set for wrapper node. Optimization wasn't performed"
    );
    assert_eq!(
        words(CubeError::ChildrenNotReplaceable),
        "Children cannot be replaced in CubeScanExecutionPlan"
    );
}

#[test]
fn failures_are_classed() {
    assert_eq!(CubeError::User("u".to_string()).class(), ErrorClass::User);
    assert_eq!(CubeError::MaxRecordsExceeded { max_records: 1 }.class(), ErrorClass::User);
    assert_eq!(CubeError::TimestampParse { text: "x".to_string() }.class(), ErrorClass::User);
    assert_eq!(CubeError::UnsupportedType { column: 0 }.class(), ErrorClass::User);
    assert_eq!(CubeError::RowNotObject { index: 0 }.class(), ErrorClass::User);
    assert_eq!(CubeError::EmptyResponse.class(), ErrorClass::User);
    assert_eq!(CubeError::Internal("i".to_string()).class(), ErrorClass::Internal);
    assert_eq!(CubeError::NoCubeScans.class(), ErrorClass::Internal);
    assert_eq!(CubeError::MemberFieldsNotSet.class(), ErrorClass::Internal);
    assert_eq!(CubeError::WrappedSqlNotSet.class(), ErrorClass::Internal);
    assert_eq!(CubeError::ChildrenNotReplaceable.class(), ErrorClass::Internal);
    assert_eq!(CubeError::Transport("t".to_string()).class(), ErrorClass::Transport);
    assert_eq!(CubeError::WorkerFailed.class(), ErrorClass::Transport);
}
