//! The lowering of a logical scan node into the executable scan.

use crate::error::{CubeError, CubeErrorView};
use crate::execute::{CubeScanExecutionPlan, CubeScanExecutionPlanView};
use crate::node::{CubeScanNode, CubeScanNodeView};
use crate::request::{
    copy_span_id,
    LoadRequestMeta,
    LoadRequestMetaView,
    RemoteQuery,
    RemoteQueryView,
    SqlQuery,
    SqlQueryView,
};
use crate::schema::{copy_member_fields, FieldView, MemberField, MemberFieldView, Schema};
use crate::views::{option_view, view_all};
use vstd::prelude::*;

verus! {

/// A plan wrapped for push-down, as it reaches the lowering: what the
/// rewriter resolved it to, where it did, and the scans that are the leaves
/// of the wrapped plan, in the order in which a search of the plan finds
/// them.
#[derive(Debug, PartialEq, Eq)]
pub struct CubeScanWrapperNode {
    pub schema: Schema,
    pub member_fields: Option<Vec<MemberField>>,
    pub wrapped_sql: Option<SqlQuery>,
    pub request: Option<RemoteQuery>,
    pub cube_scans: Vec<CubeScanNode>,
}

/// What a `CubeScanWrapperNode` is in contracts.
pub struct CubeScanWrapperNodeView {
    pub schema: Seq<FieldView>,
    pub member_fields: Option<Seq<MemberFieldView>>,
    pub wrapped_sql: Option<SqlQueryView>,
    pub request: Option<RemoteQueryView>,
    pub cube_scans: Seq<CubeScanNodeView>,
}

impl View for CubeScanWrapperNode {
    type V = CubeScanWrapperNodeView;

    open spec fn view(&self) -> CubeScanWrapperNodeView {
        CubeScanWrapperNodeView {
            schema: self.schema@,
            member_fields: match self.member_fields {
                Some(fields) => Some(view_all(fields@)),
                None => None,
            },
            wrapped_sql: option_view(self.wrapped_sql),
            request: option_view(self.request),
            cube_scans: view_all(self.cube_scans@),
        }
    }
}

/// A node of a logical plan, as the lowering tells them apart.
#[derive(Debug, PartialEq, Eq)]
pub enum LogicalNode {
    CubeScan(CubeScanNode),
    Wrapper(CubeScanWrapperNode),
    /// Any node that is no scan.
    Other,
}

/// What a `LogicalNode` is in contracts.
pub enum LogicalNodeView {
    CubeScan(CubeScanNodeView),
    Wrapper(CubeScanWrapperNodeView),
    Other,
}

impl View for LogicalNode {
    type V = LogicalNodeView;

    open spec fn view(&self) -> LogicalNodeView {
        match self {
            LogicalNode::CubeScan(node) => LogicalNodeView::CubeScan(node@),
            LogicalNode::Wrapper(node) => LogicalNodeView::Wrapper(node@),
            LogicalNode::Other => LogicalNodeView::Other,
        }
    }
}

/// The lowering of scan nodes, with the metadata that every scan it makes
/// is to carry.
#[derive(Debug, PartialEq, Eq)]
pub struct CubeScanExtensionPlanner {
    pub meta: LoadRequestMeta,
}

/// The executable scan of a scan node: its parts are the node's, unchanged.
pub open spec fn lowered_scan(meta: LoadRequestMetaView, node: CubeScanNodeView) -> CubeScanExecutionPlanView {
    CubeScanExecutionPlanView {
        schema: node.schema,
        member_fields: node.member_fields,
        request: node.request,
        wrapped_sql: None,
        auth_context: node.auth_context,
        options: node.options,
        meta,
        span_id: node.span_id,
    }
}

/// The executable scan of a wrapped plan, or why there is none. The plan
/// must hold a scan, and the rewriter must have resolved its member fields
/// and its SQL. The request is the resolved one, or the first scan's where
/// none was resolved; who asks, the options and the tracing handle are the
/// first scan's.
pub open spec fn lowered_wrapper(meta: LoadRequestMetaView, node: CubeScanWrapperNodeView) -> Result<
    CubeScanExecutionPlanView,
    CubeErrorView,
> {
    if node.cube_scans.len() == 0 {
        Err(CubeErrorView::NoCubeScans)
    } else if node.member_fields is None {
        Err(CubeErrorView::MemberFieldsNotSet)
    } else if node.wrapped_sql is None {
        Err(CubeErrorView::WrappedSqlNotSet)
    } else {
        let scan = node.cube_scans[0];
        Ok(
            CubeScanExecutionPlanView {
                schema: node.schema,
                member_fields: node.member_fields->0,
                request: match node.request {
                    Some(request) => request,
                    None => scan.request,
                },
                wrapped_sql: node.wrapped_sql,
                auth_context: scan.auth_context,
                options: scan.options,
                meta,
                span_id: scan.span_id,
            },
        )
    }
}

/// What the lowering makes of a node: the executable scan of a scan node or
/// of a wrapped plan, nothing of any other node, or the failure of a wrapped
/// plan that was not resolved.
pub open spec fn lowered(meta: LoadRequestMetaView, node: LogicalNodeView) -> Result<
    Option<CubeScanExecutionPlanView>,
    CubeErrorView,
> {
    match node {
        LogicalNodeView::CubeScan(scan) => Ok(Some(lowered_scan(meta, scan))),
        LogicalNodeView::Wrapper(wrapper) => match lowered_wrapper(meta, wrapper) {
            Ok(plan) => Ok(Some(plan)),
            Err(e) => Err(e),
        },
        LogicalNodeView::Other => Ok(None),
    }
}

/// The plan, the absence of one or the failure that `r` holds, as contracts
/// see them.
pub open spec fn plan_view(r: Result<Option<CubeScanExecutionPlan>, CubeError>) -> Result<
    Option<CubeScanExecutionPlanView>,
    CubeErrorView,
> {
    match r {
        Ok(Some(plan)) => Ok(Some(plan@)),
        Ok(None) => Ok(None),
        Err(e) => Err(e@),
    }
}

impl CubeScanExtensionPlanner {
    /// A lowering that gives every scan the metadata `meta`.
    pub fn new(meta: LoadRequestMeta) -> (r: CubeScanExtensionPlanner)
        ensures
            r.meta == meta,
    {
        CubeScanExtensionPlanner { meta }
    }

    /// Lowers `node`, which has `logical_inputs` child plans, of which
    /// `physical_inputs` were lowered. A scan node has no children.
    pub fn plan_extension(
        &self,
        node: &LogicalNode,
        logical_inputs: usize,
        physical_inputs: usize,
    ) -> (r: Result<Option<CubeScanExecutionPlan>, CubeError>)
        requires
            *node is CubeScan ==> logical_inputs == 0 && physical_inputs == 0,
        ensures
            plan_view(r) == lowered(self.meta@, node@),
    {
        match node {
            LogicalNode::CubeScan(scan) => Ok(
                Some(
                    CubeScanExecutionPlan {
                        schema: scan.schema.clone(),
                        member_fields: copy_member_fields(&scan.member_fields),
                        request: scan.request.clone(),
                        wrapped_sql: None,
                        auth_context: scan.auth_context.clone(),
                        options: scan.options.clone(),
                        meta: self.meta.clone(),
                        span_id: copy_span_id(&scan.span_id),
                    },
                ),
            ),
            LogicalNode::Wrapper(wrapper) => {
                if wrapper.cube_scans.len() == 0 {
                    return Err(CubeError::NoCubeScans);
                }
                let scan = &wrapper.cube_scans[0];
                assert(wrapper@.cube_scans[0] == scan@);
                let member_fields = match &wrapper.member_fields {
                    Some(fields) => copy_member_fields(fields),
                    None => {
                        return Err(CubeError::MemberFieldsNotSet);
                    },
                };
                let wrapped_sql = match &wrapper.wrapped_sql {
                    Some(sql) => sql.clone(),
                    None => {
                        return Err(CubeError::WrappedSqlNotSet);
                    },
                };
                let request = match &wrapper.request {
                    Some(request) => request.clone(),
                    None => scan.request.clone(),
                };
                Ok(
                    Some(
                        CubeScanExecutionPlan {
                            schema: wrapper.schema.clone(),
                            member_fields,
                            request,
                            wrapped_sql: Some(wrapped_sql),
                            auth_context: scan.auth_context.clone(),
                            options: scan.options.clone(),
                            meta: self.meta.clone(),
                            span_id: copy_span_id(&scan.span_id),
                        },
                    ),
                )
            },
            LogicalNode::Other => Ok(None),
        }
    }
}

} // verus!
