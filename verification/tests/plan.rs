use cube_scan::error::CubeError;
use cube_scan::execute::CubeScanExecutionPlan;
use cube_scan::node::{CubeScanNode, JoinType, WrappedSelectNode, WrappedSelectType};
use cube_scan::planner::{CubeScanExtensionPlanner, CubeScanWrapperNode, LogicalNode};
use cube_scan::request::{
    AuthContext, CubeScanOptions, LoadRequestMeta, RemoteQuery, SpanId, SqlQuery,
};
use cube_scan::schema::{DataType, Field, MemberField, ScalarValue, Schema};

fn schema() -> Schema {
    Schema::new(vec![
        Field::new("a".to_string(), DataType::Utf8, true),
        Field::new("b".to_string(), DataType::Int64, false),
    ])
}

fn scan(token: &str, limit: Option<i32>) -> CubeScanNode {
    let mut request = RemoteQuery::new();
    request.measures = Some(vec!["m".to_string()]);
    request.limit = limit;
    CubeScanNode::new(
        schema(),
        vec![
            MemberField::Member("a".to_string()),
            MemberField::Literal(ScalarValue::Int64(Some(2))),
        ],
        request,
        AuthContext { access_token: token.to_string(), base_path: "base".to_string() },
        CubeScanOptions { change_user: Some(token.to_string()), max_records: Some(10) },
        vec!["cube".to_string()],
        Some(SpanId { span_id: token.to_string(), query_key: "{}".to_string() }),
    )
}

fn meta() -> LoadRequestMeta {
    LoadRequestMeta::new("postgres".to_string(), "sql".to_string(), None)
}

fn strings(list: &[&str]) -> Vec<String> {
    list.iter().map(|s| s.to_string()).collect()
}

fn select() -> WrappedSelectNode<String, u32> {
    WrappedSelectNode::new(
        schema(),
        WrappedSelectType::Aggregate,
        strings(&["p1", "p2"]),
        strings(&["g1"]),
        strings(&["a1", "a2", "a3"]),
        strings(&[]),
        10,
        vec![(11, "j1".to_string(), JoinType::Left), (12, "j2".to_string(), JoinType::Inner)],
        strings(&["f1"]),
        strings(&["h1"]),
        Some(5),
        Some(6),
        strings(&["o1", "o2"]),
        Some("alias".to_string()),
        true,
    )
}

#[test]
fn scan_node_keeps_its_parts() {
    let node = scan("t", Some(3));
    assert_eq!(node.schema(), &schema());
    assert_eq!(node.inputs(), 0);
    assert_eq!(node.expressions(), 0);
    assert_eq!(node.request.limit, Some(3));
    assert_eq!(node.used_cubes, vec!["cube".to_string()]);
    assert_eq!(node.from_template(0, 0), node);
    assert_eq!(node.clone(), node);
    assert_eq!(node.fmt_for_explain("{}"), "CubeScan: request={}");
}

#[test]
fn select_gives_its_expressions_in_order() {
    let node = select();
    let seen: Vec<String> = node.expressions().into_iter().cloned().collect();
    assert_eq!(
        seen,
        strings(&["p1", "p2", "g1", "a1", "a2", "a3", "j1", "j2", "f1", "h1", "o1", "o2"])
    );
    assert_eq!(node.inputs(), vec![&10, &11, &12]);
    assert_eq!(node.schema(), &schema());
}

#[test]
fn select_is_rebuilt_in_its_own_shape() {
    let node = select();
    let exprs = strings(&["P1", "P2", "G1", "A1", "A2", "A3", "J1", "J2", "F1", "H1", "O1", "O2"]);
    let rebuilt = node.from_template(exprs.clone(), vec![20, 21, 22]);
    assert_eq!(
        rebuilt,
        WrappedSelectNode::new(
            schema(),
            WrappedSelectType::Aggregate,
            strings(&["P1", "P2"]),
            strings(&["G1"]),
            strings(&["A1", "A2", "A3"]),
            strings(&[]),
            20,
            vec![(21, "J1".to_string(), JoinType::Left), (22, "J2".to_string(), JoinType::Inner)],
            strings(&["F1"]),
            strings(&["H1"]),
            None,
            None,
            strings(&["O1", "O2"]),
            None,
            true,
        )
    );
    let seen: Vec<String> = rebuilt.expressions().into_iter().cloned().collect();
    assert_eq!(seen, exprs);
    assert_eq!(rebuilt.inputs(), vec![&20, &21, &22]);
}

#[test]
fn select_rebuilt_from_its_own_parts_loses_limit_offset_and_alias() {
    let node = select();
    let exprs: Vec<String> = node.expressions().into_iter().cloned().collect();
    let inputs: Vec<u32> = node.inputs().into_iter().cloned().collect();
    let rebuilt = node.from_template(exprs, inputs);
    assert_eq!(rebuilt.limit, None);
    assert_eq!(rebuilt.offset, None);
    assert_eq!(rebuilt.alias, None);
    let mut expected = select();
    expected.limit = None;
    expected.offset = None;
    expected.alias = None;
    assert_eq!(rebuilt, expected);
}

#[test]
fn select_without_joins_or_expressions() {
    let node: WrappedSelectNode<String, u32> = WrappedSelectNode::new(
        schema(),
        WrappedSelectType::Projection,
        vec![],
        vec![],
        vec![],
        vec![],
        1,
        vec![],
        vec![],
        vec![],
        None,
        None,
        vec![],
        None,
        false,
    );
    assert_eq!(node.expressions(), Vec::<&String>::new());
    assert_eq!(node.inputs(), vec![&1]);
    let rebuilt = node.from_template(vec![], vec![2]);
    assert_eq!(rebuilt.from, 2);
    assert_eq!(rebuilt.select_type, WrappedSelectType::Projection);
    assert!(!rebuilt.ungrouped);
}

#[test]
fn scan_node_is_lowered_unchanged() {
    let node = scan("t", Some(3));
    let planner = CubeScanExtensionPlanner::new(meta());
    let plan = planner.plan_extension(&LogicalNode::CubeScan(node.clone()), 0, 0);
    assert_eq!(
        plan,
        Ok(Some(CubeScanExecutionPlan {
            schema: node.schema.clone(),
            member_fields: node.member_fields.clone(),
            request: node.request.clone(),
            wrapped_sql: None,
            auth_context: node.auth_context.clone(),
            options: node.options.clone(),
            meta: meta(),
            span_id: node.span_id.clone(),
        }))
    );
}

#[test]
fn other_nodes_are_not_lowered() {
    let planner = CubeScanExtensionPlanner::new(meta());
    assert_eq!(planner.plan_extension(&LogicalNode::Other, 2, 2), Ok(None));
}

fn wrapper() -> CubeScanWrapperNode {
    CubeScanWrapperNode {
        schema: Schema::new(vec![Field::new("w".to_string(), DataType::Float64, true)]),
        member_fields: Some(vec![MemberField::Member("w".to_string())]),
        wrapped_sql: Some(SqlQuery {
            sql: "SELECT w FROM t WHERE x = $1".to_string(),
            values: vec![Some("1".to_string()), None],
        }),
        request: None,
        cube_scans: vec![scan("first", Some(1)), scan("second", Some(2))],
    }
}

#[test]
fn wrapper_is_lowered_with_the_first_scan() {
    let planner = CubeScanExtensionPlanner::new(meta());
    let node = wrapper();
    let first = scan("first", Some(1));
    let plan = planner.plan_extension(&LogicalNode::Wrapper(wrapper()), 1, 1);
    assert_eq!(
        plan,
        Ok(Some(CubeScanExecutionPlan {
            schema: node.schema.clone(),
            member_fields: vec![MemberField::Member("w".to_string())],
            request: first.request.clone(),
            wrapped_sql: node.wrapped_sql.clone(),
            auth_context: first.auth_context.clone(),
            options: first.options.clone(),
            meta: meta(),
            span_id: first.span_id.clone(),
        }))
    );

    let mut resolved = wrapper();
    let mut request = RemoteQuery::new();
    request.limit = Some(77);
    resolved.request = Some(request.clone());
    let plan = planner.plan_extension(&LogicalNode::Wrapper(resolved), 0, 0).unwrap().unwrap();
    assert_eq!(plan.request, request);
    assert_eq!(plan.auth_context, first.auth_context);
}

#[test]
fn unresolved_wrapper_fails() {
    let planner = CubeScanExtensionPlanner::new(meta());

    let mut no_scans = wrapper();
    no_scans.cube_scans = vec![];
    no_scans.member_fields = None;
    no_scans.wrapped_sql = None;
    assert_eq!(
        planner.plan_extension(&LogicalNode::Wrapper(no_scans), 0, 0),
        Err(CubeError::NoCubeScans)
    );

    let mut no_fields = wrapper();
    no_fields.member_fields = None;
    no_fields.wrapped_sql = None;
    assert_eq!(
        planner.plan_extension(&LogicalNode::Wrapper(no_fields), 0, 0),
        Err(CubeError::MemberFieldsNotSet)
    );

    let mut no_sql = wrapper();
    no_sql.wrapped_sql = None;
    assert_eq!(
        planner.plan_extension(&LogicalNode::Wrapper(no_sql), 0, 0),
        Err(CubeError::WrappedSqlNotSet)
    );
}
