use cube_scan::batch::{Cell, ColumnarBatch};
use cube_scan::error::CubeError;
use cube_scan::execute::{CubeScanExecutionPlan, ExecutionStart, ScanConfig, Statistics};
use cube_scan::json::{JsonField, JsonRow, JsonValue};
use cube_scan::load::{finish_load, is_no_members_query, load_step, synthesize_rows, LoadResult, LoadStep};
use cube_scan::number::Number;
use cube_scan::request::{
    AuthContext, CubeScanOptions, LoadRequestMeta, RemoteQuery, SqlQuery, TimeDimension,
};
use cube_scan::router::{
    CubeScanMemoryStream, CubeScanOneShotStream, CubeScanStreamRouter, RouterStep,
    STREAM_NOT_IMPLEMENTED,
};
use cube_scan::schema::{DataType, Field, MemberField, ScalarValue, Schema};

const RESPONSE: &str = r#"
    {
        "annotation": {
            "measures": [],
            "dimensions": [],
            "segments": [],
            "timeDimensions": []
        },
        "data": [
            {"KibanaSampleDataEcommerce.count": null, "KibanaSampleDataEcommerce.maxPrice": null, "KibanaSampleDataEcommerce.isBool": null, "KibanaSampleDataEcommerce.orderDate": null},
            {"KibanaSampleDataEcommerce.count": 5, "KibanaSampleDataEcommerce.maxPrice": 5.05, "KibanaSampleDataEcommerce.isBool": true, "KibanaSampleDataEcommerce.orderDate": "2022-01-01 00:00:00.000"},
            {"KibanaSampleDataEcommerce.count": "5", "KibanaSampleDataEcommerce.maxPrice": "5.05", "KibanaSampleDataEcommerce.isBool": false, "KibanaSampleDataEcommerce.orderDate": "2023-01-01 00:00:00.000"},
            {"KibanaSampleDataEcommerce.count": null, "KibanaSampleDataEcommerce.maxPrice": null, "KibanaSampleDataEcommerce.isBool": "true", "KibanaSampleDataEcommerce.orderDate": "9999-12-31 00:00:00.000"},
            {"KibanaSampleDataEcommerce.count": null, "KibanaSampleDataEcommerce.maxPrice": null, "KibanaSampleDataEcommerce.isBool": "false", "KibanaSampleDataEcommerce.orderDate": null}
        ]
    }
"#;

fn json_value(value: &serde_json::Value) -> JsonValue {
    match value {
        serde_json::Value::Null => JsonValue::Null,
        serde_json::Value::Bool(b) => JsonValue::Bool(*b),
        serde_json::Value::Number(n) => {
            let v = n.as_f64().unwrap();
            JsonValue::Number(Number::new(v.to_bits(), v.to_string()))
        }
        serde_json::Value::String(s) => JsonValue::String(s.clone()),
        serde_json::Value::Array(_) => JsonValue::Array,
        serde_json::Value::Object(_) => JsonValue::Object,
    }
}

fn json_row(value: &serde_json::Value) -> JsonRow {
    match value {
        serde_json::Value::Null => JsonRow::Null,
        serde_json::Value::Object(map) => JsonRow::Object(
            map.iter()
                .map(|(name, value)| JsonField { name: name.clone(), value: json_value(value) })
                .collect(),
        ),
        _ => JsonRow::Other,
    }
}

/// What the transport answers in these tests: the rows of `RESPONSE`.
fn fake_load() -> Result<Vec<LoadResult>, String> {
    let response: serde_json::Value = serde_json::from_str(RESPONSE).unwrap();
    let data = response["data"].as_array().unwrap().iter().map(json_row).collect();
    Ok(vec![LoadResult { data }])
}

fn cell_as_f64(cell: &Cell) -> Option<f64> {
    match cell {
        Cell::Null => None,
        Cell::Float64(bits) => Some(f64::from_bits(*bits)),
        Cell::Float64Literal(text) => Some(text.parse::<f64>().unwrap()),
        other => panic!("no double: {:?}", other),
    }
}

fn test_schema() -> Schema {
    Schema::new(vec![
        Field::new("KibanaSampleDataEcommerce.count".to_string(), DataType::Utf8, false),
        Field::new("KibanaSampleDataEcommerce.count".to_string(), DataType::Utf8, false),
        Field::new("KibanaSampleDataEcommerce.maxPrice".to_string(), DataType::Float64, false),
        Field::new(
            "KibanaSampleDataEcommerce.orderDate".to_string(),
            DataType::TimestampNanosecond,
            false,
        ),
        Field::new("KibanaSampleDataEcommerce.isBool".to_string(), DataType::Boolean, false),
        Field::new("KibanaSampleDataEcommerce.is_female".to_string(), DataType::Boolean, false),
    ])
}

fn test_plan() -> CubeScanExecutionPlan {
    let schema = test_schema();
    let member_fields = schema
        .fields
        .iter()
        .map(|f| {
            if f.name == "KibanaSampleDataEcommerce.is_female" {
                MemberField::Literal(ScalarValue::Boolean(None))
            } else {
                MemberField::Member(f.name.to_string())
            }
        })
        .collect();
    CubeScanExecutionPlan {
        schema,
        member_fields,
        request: RemoteQuery {
            measures: Some(vec![
                "KibanaSampleDataEcommerce.count".to_string(),
                "KibanaSampleDataEcommerce.maxPrice".to_string(),
            ]),
            dimensions: Some(vec![
                "KibanaSampleDataEcommerce.isBool".to_string(),
                "KibanaSampleDataEcommerce.orderDate".to_string(),
            ]),
            segments: None,
            time_dimensions: None,
            order: None,
            limit: None,
            offset: None,
            filters: None,
            ungrouped: None,
        },
        wrapped_sql: None,
        auth_context: AuthContext {
            access_token: "access_token".to_string(),
            base_path: "base_path".to_string(),
        },
        options: CubeScanOptions { change_user: None, max_records: None },
        meta: LoadRequestMeta::new(
            "postgres".to_string(),
            "sql".to_string(),
            Some("SQL API Unit Testing".to_string()),
        ),
        span_id: None,
    }
}

fn default_config() -> ScanConfig {
    ScanConfig::from_settings(None, None).unwrap()
}

struct Channel;

fn expected_batch_of(batch: &ColumnarBatch) {
    let text = |s: &str| Cell::Utf8(s.to_string());
    assert_eq!(batch.schema, test_schema());
    assert_eq!(batch.num_rows, 5);
    assert_eq!(batch.columns.len(), 6);
    assert_eq!(
        batch.columns[0].cells,
        vec![Cell::Null, text("5"), text("5"), Cell::Null, Cell::Null]
    );
    assert_eq!(
        batch.columns[1].cells,
        vec![Cell::Null, text("5"), text("5"), Cell::Null, Cell::Null]
    );
    assert_eq!(
        batch.columns[2].cells.iter().map(cell_as_f64).collect::<Vec<_>>(),
        vec![None, Some(5.05), Some(5.05), None, None]
    );
    assert_eq!(
        batch.columns[3].cells,
        vec![
            Cell::Null,
            Cell::TimestampNanosecond(1640995200000000000),
            Cell::TimestampNanosecond(1672531200000000000),
            Cell::Null,
            Cell::Null
        ]
    );
    assert_eq!(
        batch.columns[4].cells,
        vec![
            Cell::Null,
            Cell::Boolean(true),
            Cell::Boolean(false),
            Cell::Boolean(true),
            Cell::Boolean(false)
        ]
    );
    assert_eq!(batch.columns[5].cells, vec![Cell::Null; 5]);
    for (column, field) in batch.columns.iter().zip(batch.schema.fields.iter()) {
        assert_eq!(column.data_type, field.data_type);
    }
}

#[test]
fn test_df_cube_scan_execute() {
    let scan_node = test_plan();
    let start = scan_node.execute(0, &default_config());
    let (step, mut one_shot) = match start {
        ExecutionStart::OneShot { step, one_shot } => (step, one_shot),
        other => panic!("expected a single fetch: {:?}", other),
    };
    assert_eq!(step, LoadStep::Remote);
    assert_eq!(one_shot.request.limit, Some(50000));
    let rows = finish_load(&one_shot.options, fake_load()).unwrap();
    one_shot.load(rows).unwrap();
    let mut router: CubeScanStreamRouter<Channel> =
        CubeScanStreamRouter::new(None, one_shot, scan_node.schema.clone());
    assert!(!router.is_streaming());
    let mut batches = vec![];
    while let Some(item) = router.poll_one_shot() {
        batches.push(item.unwrap());
    }
    assert_eq!(batches.len(), 1);
    expected_batch_of(&batches[0]);
    assert_eq!(router.schema(), test_schema());
}

#[test]
fn config_from_settings() {
    assert_eq!(default_config(), ScanConfig { stream_mode: false, query_limit: 50000 });
    assert_eq!(
        ScanConfig::from_settings(Some("true"), Some("100")),
        Some(ScanConfig { stream_mode: true, query_limit: 100 })
    );
    assert_eq!(
        ScanConfig::from_settings(Some("false"), Some("-1")),
        Some(ScanConfig { stream_mode: false, query_limit: -1 })
    );
    assert_eq!(ScanConfig::from_settings(Some("TRUE"), None), None);
    assert_eq!(ScanConfig::from_settings(Some("1"), None), None);
    assert_eq!(ScanConfig::from_settings(None, Some("many")), None);
    assert_eq!(ScanConfig::from_settings(None, Some("3000000000")), None);
}

#[test]
fn streaming_needs_the_switch_and_a_large_or_absent_limit() {
    let on = ScanConfig { stream_mode: true, query_limit: 100 };
    let off = ScanConfig { stream_mode: false, query_limit: 100 };
    assert!(on.streams(None));
    assert!(on.streams(Some(101)));
    assert!(!on.streams(Some(100)));
    assert!(!on.streams(Some(1)));
    assert!(!off.streams(None));
    assert!(!off.streams(Some(101)));
}

#[test]
fn limit_is_clamped_to_the_configured_limit() {
    let config = ScanConfig { stream_mode: false, query_limit: 100 };
    assert_eq!(config.clamp_limit(None), 100);
    assert_eq!(config.clamp_limit(Some(101)), 100);
    assert_eq!(config.clamp_limit(Some(100)), 100);
    assert_eq!(config.clamp_limit(Some(7)), 7);
    assert_eq!(config.clamp_limit(Some(0)), 0);
    assert_eq!(config.clamp_limit(Some(-5)), -5);
}

#[test]
fn execute_streams_with_a_clamped_request() {
    let mut plan = test_plan();
    plan.request.limit = Some(70000);
    plan.options.change_user = Some("ann".to_string());
    let config = ScanConfig { stream_mode: true, query_limit: 50000 };
    match plan.execute(0, &config) {
        ExecutionStart::Stream { request, meta, one_shot } => {
            let mut expected = plan.request.clone();
            expected.limit = Some(50000);
            assert_eq!(request, expected);
            assert_eq!(meta.change_user, Some("ann".to_string()));
            assert_eq!(meta.protocol, "postgres");
            assert_eq!(one_shot.request, expected);
            assert_eq!(one_shot.meta, meta);
            assert_eq!(one_shot.data, None);
            assert_eq!(one_shot.schema, plan.schema);
            assert_eq!(one_shot.member_fields, plan.member_fields);
            assert_eq!(one_shot.options, plan.options);
            assert_eq!(one_shot.auth_context, plan.auth_context);
        }
        other => panic!("expected a stream: {:?}", other),
    }
    plan.request.limit = Some(10);
    match plan.execute(0, &config) {
        ExecutionStart::OneShot { step, one_shot } => {
            assert_eq!(step, LoadStep::Remote);
            assert_eq!(one_shot.request.limit, Some(10));
        }
        other => panic!("expected a single fetch: {:?}", other),
    }
}

#[test]
fn plan_is_a_leaf_of_one_partition() {
    let plan = test_plan();
    assert_eq!(plan.output_partitioning(), 1);
    assert_eq!(plan.children(), 0);
    assert_eq!(plan.with_new_children(0), Err(CubeError::ChildrenNotReplaceable));
    assert_eq!(
        plan.statistics(),
        Statistics { num_rows: None, total_byte_size: None, is_exact: false }
    );
}

#[test]
fn plan_describes_itself() {
    let mut plan = test_plan();
    assert_eq!(plan.fmt_as("{\"limit\":1}"), "CubeScanExecutionPlan, Request:\n{\"limit\":1}");
    plan.wrapped_sql = Some(SqlQuery { sql: "SELECT 1".to_string(), values: vec![None] });
    assert_eq!(plan.fmt_as("{}"), "CubeScanExecutionPlan, SQL:\nSELECT 1");
}

fn no_members_query(limit: Option<i32>) -> RemoteQuery {
    let mut query = RemoteQuery::new();
    query.limit = limit;
    query
}

#[test]
fn query_without_members_is_answered_locally() {
    assert_eq!(load_step(&no_members_query(Some(3))), LoadStep::Local(vec![JsonRow::Null; 3]));
    assert_eq!(load_step(&no_members_query(None)), LoadStep::Local(vec![JsonRow::Null]));
    assert_eq!(load_step(&no_members_query(Some(0))), LoadStep::Local(vec![]));
    assert_eq!(load_step(&no_members_query(Some(-2))), LoadStep::Local(vec![]));
    assert_eq!(synthesize_rows(&no_members_query(Some(2))), vec![JsonRow::Null; 2]);

    let mut empty_lists = no_members_query(Some(1));
    empty_lists.measures = Some(vec![]);
    empty_lists.dimensions = Some(vec![]);
    empty_lists.segments = Some(vec!["s".to_string()]);
    empty_lists.time_dimensions = Some(vec![TimeDimension {
        dimension: "t".to_string(),
        granularity: None,
        date_range: Some("\"today\"".to_string()),
    }]);
    assert!(is_no_members_query(&empty_lists));
    assert_eq!(load_step(&empty_lists), LoadStep::Local(vec![JsonRow::Null]));
}

#[test]
fn query_with_members_asks_the_remote_service() {
    let mut measures = no_members_query(Some(3));
    measures.measures = Some(vec!["m".to_string()]);
    assert_eq!(load_step(&measures), LoadStep::Remote);

    let mut dimensions = no_members_query(Some(3));
    dimensions.dimensions = Some(vec!["d".to_string()]);
    assert_eq!(load_step(&dimensions), LoadStep::Remote);

    let mut granular = no_members_query(Some(3));
    granular.time_dimensions = Some(vec![
        TimeDimension { dimension: "a".to_string(), granularity: None, date_range: None },
        TimeDimension {
            dimension: "t".to_string(),
            granularity: Some("day".to_string()),
            date_range: None,
        },
    ]);
    assert!(!is_no_members_query(&granular));
    assert_eq!(load_step(&granular), LoadStep::Remote);
}

#[test]
fn degenerate_query_gives_null_rows_without_a_fetch() {
    let mut plan = test_plan();
    plan.request = no_members_query(Some(3));
    plan.schema = Schema::new(vec![Field::new("one".to_string(), DataType::Int64, false)]);
    plan.member_fields = vec![MemberField::Literal(ScalarValue::Int64(Some(1)))];
    match plan.execute(0, &default_config()) {
        ExecutionStart::OneShot { step, mut one_shot } => {
            let rows = match step {
                LoadStep::Local(rows) => rows,
                LoadStep::Remote => panic!("the remote service is not to be asked"),
            };
            assert_eq!(rows, vec![JsonRow::Null; 3]);
            one_shot.load(rows).unwrap();
            let batch = one_shot.poll_next().unwrap().unwrap();
            assert_eq!(batch.num_rows, 3);
            assert_eq!(batch.columns[0].cells, vec![Cell::Int64(1); 3]);
            assert_eq!(one_shot.poll_next(), None);
        }
        other => panic!("expected a single fetch: {:?}", other),
    }
}

fn rows_of(count: usize) -> Result<Vec<LoadResult>, String> {
    Ok(vec![LoadResult { data: vec![JsonRow::Object(vec![]); count] }])
}

#[test]
fn max_records_guard() {
    let options = CubeScanOptions { change_user: None, max_records: Some(3) };
    assert_eq!(
        finish_load(&options, rows_of(3)),
        Err(CubeError::MaxRecordsExceeded { max_records: 3 })
    );
    assert_eq!(
        finish_load(&options, rows_of(4)),
        Err(CubeError::MaxRecordsExceeded { max_records: 3 })
    );
    assert_eq!(finish_load(&options, rows_of(2)), Ok(vec![JsonRow::Object(vec![]); 2]));
    let unlimited = CubeScanOptions { change_user: None, max_records: None };
    assert_eq!(finish_load(&unlimited, rows_of(100)).map(|rows| rows.len()), Ok(100));
    let zero = CubeScanOptions { change_user: None, max_records: Some(0) };
    assert_eq!(
        finish_load(&zero, rows_of(0)),
        Err(CubeError::MaxRecordsExceeded { max_records: 0 })
    );
}

#[test]
fn finish_load_takes_the_last_result() {
    let options = CubeScanOptions { change_user: None, max_records: Some(2) };
    let response = Ok(vec![
        LoadResult { data: vec![JsonRow::Null; 5] },
        LoadResult { data: vec![JsonRow::Other] },
    ]);
    assert_eq!(finish_load(&options, response), Ok(vec![JsonRow::Other]));
    assert_eq!(finish_load(&options, Ok(vec![])), Err(CubeError::EmptyResponse));
    assert_eq!(
        finish_load(&options, Err("connection refused".to_string())),
        Err(CubeError::Transport("connection refused".to_string()))
    );
}

fn streaming_router() -> CubeScanStreamRouter<Channel> {
    let plan = test_plan();
    let config = ScanConfig { stream_mode: true, query_limit: 50000 };
    match plan.execute(0, &config) {
        ExecutionStart::Stream { one_shot, .. } => CubeScanStreamRouter::new(
            Some(CubeScanMemoryStream::new(Channel)),
            one_shot,
            plan.schema.clone(),
        ),
        other => panic!("expected a stream: {:?}", other),
    }
}

fn direct_batch() -> ColumnarBatch {
    let plan = test_plan();
    let mut one_shot = plan.one_shot_stream(&default_config());
    one_shot.load(finish_load(&plan.options, fake_load()).unwrap()).unwrap();
    one_shot.poll_next().unwrap().unwrap()
}

#[test]
fn stream_downgrades_once_and_serves_the_single_fetch() {
    let mut router = streaming_router();
    assert!(router.is_streaming());
    let message = format!("Error: {} for this query", STREAM_NOT_IMPLEMENTED);
    let step = router.on_stream_item::<ColumnarBatch>(Some(Some(Err(message))));
    assert_eq!(step, RouterStep::Downgrade(LoadStep::Remote));
    assert!(!router.is_streaming());
    let rows = finish_load(&router.one_shot_stream.options, fake_load());
    let item = router.on_fallback(rows);
    assert_eq!(item, Some(Ok(direct_batch())));
    expected_batch_of(&item.unwrap().unwrap());
    assert!(!router.is_streaming());
    assert_eq!(router.poll_one_shot(), None);
    assert_eq!(router.poll_one_shot(), None);
    assert!(!router.is_streaming());
}

#[test]
fn stream_yields_what_the_channel_gives() {
    let mut router = streaming_router();
    let batch = direct_batch();
    assert_eq!(
        router.on_stream_item(Some(Some(Ok(batch.clone())))),
        RouterStep::Yield(Some(Ok(batch)))
    );
    assert!(router.is_streaming());
    assert_eq!(
        router.on_stream_item::<ColumnarBatch>(Some(Some(Err("timeout".to_string())))),
        RouterStep::Yield(Some(Err(CubeError::Transport("timeout".to_string()))))
    );
    assert!(router.is_streaming());
    assert_eq!(router.on_stream_item::<ColumnarBatch>(Some(None)), RouterStep::Yield(None));
    assert_eq!(router.on_stream_item::<ColumnarBatch>(None), RouterStep::Yield(None));
    assert!(router.is_streaming());
}

#[test]
fn memory_stream_maps_what_it_receives() {
    let batch = direct_batch();
    assert_eq!(
        CubeScanMemoryStream::<Channel>::poll_next(Some(Some(Ok(batch.clone())))),
        Some(Ok(batch))
    );
    assert_eq!(
        CubeScanMemoryStream::<Channel>::poll_next::<ColumnarBatch>(Some(Some(Err("bad".to_string())))),
        Some(Err(CubeError::Transport("bad".to_string())))
    );
    assert_eq!(CubeScanMemoryStream::<Channel>::poll_next::<ColumnarBatch>(Some(None)), None);
    assert_eq!(CubeScanMemoryStream::<Channel>::poll_next::<ColumnarBatch>(None), None);
}

#[test]
fn downgrade_of_a_query_without_members_stays_local() {
    let mut plan = test_plan();
    plan.request = no_members_query(None);
    plan.schema = Schema::new(vec![Field::new("one".to_string(), DataType::Utf8, false)]);
    plan.member_fields = vec![MemberField::Literal(ScalarValue::Utf8(Some("x".to_string())))];
    let config = ScanConfig { stream_mode: true, query_limit: 2 };
    let one_shot = match plan.execute(0, &config) {
        ExecutionStart::Stream { one_shot, .. } => one_shot,
        other => panic!("expected a stream: {:?}", other),
    };
    let mut router = CubeScanStreamRouter::new(
        Some(CubeScanMemoryStream::new(Channel)),
        one_shot,
        plan.schema.clone(),
    );
    let step = router.on_stream_item::<ColumnarBatch>(Some(Some(Err(STREAM_NOT_IMPLEMENTED.to_string()))));
    assert_eq!(step, RouterStep::Downgrade(LoadStep::Local(vec![JsonRow::Null; 2])));
    let item = router.on_fallback(Ok(vec![JsonRow::Null; 2])).unwrap().unwrap();
    assert_eq!(item.columns[0].cells, vec![Cell::Utf8("x".to_string()); 2]);
}

#[test]
fn failed_fallback_is_an_error_of_the_stream() {
    let mut router = streaming_router();
    router.on_stream_item::<ColumnarBatch>(Some(Some(Err(STREAM_NOT_IMPLEMENTED.to_string()))));
    assert_eq!(router.on_fallback(Err(CubeError::WorkerFailed)), Some(Err(CubeError::WorkerFailed)));
    assert!(!router.is_streaming());
    assert_eq!(router.poll_one_shot(), None);

    let mut router = streaming_router();
    router.on_stream_item::<ColumnarBatch>(Some(Some(Err(STREAM_NOT_IMPLEMENTED.to_string()))));
    assert_eq!(
        router.on_fallback(Ok(vec![JsonRow::Other])),
        Some(Err(CubeError::RowNotObject { index: 0 }))
    );
    assert_eq!(router.poll_one_shot(), None);
}

#[test]
fn one_shot_stream_yields_its_batch_once() {
    let plan = test_plan();
    let mut stream = CubeScanOneShotStream::new(
        plan.schema.clone(),
        plan.member_fields.clone(),
        plan.request.clone(),
        plan.auth_context.clone(),
        plan.meta.clone(),
        plan.options.clone(),
        None,
        None,
    );
    assert_eq!(stream.poll_next(), None);
    assert_eq!(stream.load(vec![JsonRow::Other]), Err(CubeError::RowNotObject { index: 0 }));
    assert_eq!(stream.data, None);
    stream.load(finish_load(&plan.options, fake_load()).unwrap()).unwrap();
    assert_eq!(stream.poll_next(), Some(Ok(direct_batch())));
    assert_eq!(stream.poll_next(), None);
}

#[test]
fn meta_acts_for_the_user_of_the_options() {
    let mut meta = LoadRequestMeta::new("mysql".to_string(), "sql".to_string(), None);
    assert_eq!(meta.change_user, None);
    meta.set_change_user(Some("bob".to_string()));
    assert_eq!(
        meta,
        LoadRequestMeta {
            protocol: "mysql".to_string(),
            api_type: "sql".to_string(),
            app_name: None,
            change_user: Some("bob".to_string()),
        }
    );
    let mut plan = test_plan();
    plan.options.change_user = Some("eve".to_string());
    assert_eq!(plan.outgoing_meta().change_user, Some("eve".to_string()));
    assert_eq!(test_plan().outgoing_meta().change_user, None);
}
