//! The nodes that stand for a scan in a logical plan: the scan itself, and a
//! select wrapped round plans to be pushed down.

use crate::request::{
    copy_span_id,
    AuthContext,
    AuthContextView,
    CubeScanOptions,
    CubeScanOptionsView,
    RemoteQuery,
    RemoteQueryView,
    SpanId,
    SpanIdView,
};
use crate::schema::{copy_member_fields, FieldView, MemberField, MemberFieldView, Schema};
use crate::views::{copy_strings, option_view, view_all};
use vstd::prelude::*;
use vstd::string::StringExecFns;

verus! {

/// A scan of the remote service: a leaf of a logical plan that carries the
/// whole request.
#[derive(Debug, PartialEq, Eq)]
pub struct CubeScanNode {
    pub schema: Schema,
    pub member_fields: Vec<MemberField>,
    pub request: RemoteQuery,
    pub auth_context: AuthContext,
    pub options: CubeScanOptions,
    pub used_cubes: Vec<String>,
    pub span_id: Option<SpanId>,
}

/// What a `CubeScanNode` is in contracts.
pub struct CubeScanNodeView {
    pub schema: Seq<FieldView>,
    pub member_fields: Seq<MemberFieldView>,
    pub request: RemoteQueryView,
    pub auth_context: AuthContextView,
    pub options: CubeScanOptionsView,
    pub used_cubes: Seq<Seq<char>>,
    pub span_id: Option<SpanIdView>,
}

impl View for CubeScanNode {
    type V = CubeScanNodeView;

    open spec fn view(&self) -> CubeScanNodeView {
        CubeScanNodeView {
            schema: self.schema@,
            member_fields: view_all(self.member_fields@),
            request: self.request@,
            auth_context: self.auth_context@,
            options: self.options@,
            used_cubes: view_all(self.used_cubes@),
            span_id: option_view(self.span_id),
        }
    }
}

impl Clone for CubeScanNode {
    fn clone(&self) -> (r: Self)
        ensures
            r@ == self@,
    {
        CubeScanNode {
            schema: self.schema.clone(),
            member_fields: copy_member_fields(&self.member_fields),
            request: self.request.clone(),
            auth_context: self.auth_context.clone(),
            options: self.options.clone(),
            used_cubes: copy_strings(&self.used_cubes),
            span_id: copy_span_id(&self.span_id),
        }
    }
}

impl CubeScanNode {
    /// A scan node of the given parts.
    pub fn new(
        schema: Schema,
        member_fields: Vec<MemberField>,
        request: RemoteQuery,
        auth_context: AuthContext,
        options: CubeScanOptions,
        used_cubes: Vec<String>,
        span_id: Option<SpanId>,
    ) -> (r: CubeScanNode)
        ensures
            r@ == (CubeScanNodeView {
                schema: schema@,
                member_fields: view_all(member_fields@),
                request: request@,
                auth_context: auth_context@,
                options: options@,
                used_cubes: view_all(used_cubes@),
                span_id: option_view(span_id),
            }),
    {
        CubeScanNode { schema, member_fields, request, auth_context, options, used_cubes, span_id }
    }

    /// The number of child plans: a scan has none.
    pub fn inputs(&self) -> (r: usize)
        ensures
            r == 0,
    {
        0
    }

    /// The schema of the rows that the scan gives.
    pub fn schema(&self) -> (r: &Schema)
        ensures
            r == &self.schema,
    {
        &self.schema
    }

    /// The number of expressions: a scan has none, its request is whole.
    pub fn expressions(&self) -> (r: usize)
        ensures
            r == 0,
    {
        0
    }

    /// One line that names the scan, then its request as `request_json`
    /// writes it.
    pub fn fmt_for_explain(&self, request_json: &str) -> (r: String)
        ensures
            r@ == "CubeScan: request="@ + request_json@,
    {
        String::from_str("CubeScan: request=").concat(request_json)
    }

    /// The node built anew from rewritten expressions and children, of which
    /// a scan has none: a copy of this node.
    pub fn from_template(&self, exprs: usize, inputs: usize) -> (r: CubeScanNode)
        requires
            exprs == 0,
            inputs == 0,
        ensures
            r@ == self@,
    {
        self.clone()
    }
}

/// How two plans are joined.
#[derive(Clone, Copy, Debug, PartialEq, Eq, Structural)]
pub enum JoinType {
    Inner,
    Left,
    Right,
    Full,
    Semi,
    Anti,
}

/// The shape of a wrapped select.
#[derive(Clone, Copy, Debug, PartialEq, Eq, Structural)]
pub enum WrappedSelectType {
    Projection,
    Aggregate,
}

/// A select wrapped round a plan, and round the plans joined to it, that is
/// meant to be pushed down to the remote service. `E` is the type of an
/// expression and `P` that of a plan: the node reads neither.
#[derive(Debug, PartialEq, Eq)]
pub struct WrappedSelectNode<E, P> {
    pub schema: Schema,
    pub select_type: WrappedSelectType,
    pub projection_expr: Vec<E>,
    pub group_expr: Vec<E>,
    pub aggr_expr: Vec<E>,
    pub window_expr: Vec<E>,
    pub from: P,
    pub joins: Vec<(P, E, JoinType)>,
    pub filter_expr: Vec<E>,
    pub having_expr: Vec<E>,
    pub limit: Option<usize>,
    pub offset: Option<usize>,
    pub order_expr: Vec<E>,
    pub alias: Option<String>,
    pub ungrouped: bool,
}

/// The values that a sequence of references points to.
pub open spec fn pointed<T>(refs: Seq<&T>) -> Seq<T> {
    refs.map_values(|r: &T| *r)
}

/// Adds a reference to each item of `list`, in order.
fn push_refs<'a, T>(out: &mut Vec<&'a T>, list: &'a Vec<T>)
    ensures
        pointed(final(out)@) == pointed(old(out)@) + list@,
{
    let ghost before = pointed(out@);
    let mut i: usize = 0;
    assert(list@.take(0) =~= Seq::<T>::empty());
    assert(before + Seq::<T>::empty() =~= before);
    while i < list.len()
        invariant
            0 <= i <= list.len(),
            pointed(out@) == before + list@.take(i as int),
        decreases list.len() - i,
    {
        let ghost prior = out@;
        out.push(&list[i]);
        assert(pointed(out@) =~= pointed(prior).push(list@[i as int]));
        assert(list@.take(i + 1) =~= list@.take(i as int).push(list@[i as int]));
        assert(before + list@.take(i + 1) =~= (before + list@.take(i as int)).push(
            list@[i as int],
        ));
        i = i + 1;
    }
    assert(list@.take(list.len() as int) =~= list@);
}

impl<E, P> WrappedSelectNode<E, P> {
    /// The expressions by which the joined plans are joined, in order.
    pub open spec fn join_exprs(&self) -> Seq<E> {
        self.joins@.map_values(|j: (P, E, JoinType)| j.1)
    }

    /// The joined plans, in order.
    pub open spec fn join_plans(&self) -> Seq<P> {
        self.joins@.map_values(|j: (P, E, JoinType)| j.0)
    }

    /// Every expression of the node: those of the projection, the grouping,
    /// the aggregates and the windows, then those of the joins, the filter,
    /// the having clause and the ordering.
    pub open spec fn all_exprs(&self) -> Seq<E> {
        self.projection_expr@ + self.group_expr@ + self.aggr_expr@ + self.window_expr@
            + self.join_exprs() + self.filter_expr@ + self.having_expr@ + self.order_expr@
    }

    /// Every child plan of the node: the plan selected from, then the joined
    /// plans.
    pub open spec fn all_inputs(&self) -> Seq<P> {
        seq![self.from] + self.join_plans()
    }

    /// A wrapped select of the given parts.
    pub fn new(
        schema: Schema,
        select_type: WrappedSelectType,
        projection_expr: Vec<E>,
        group_expr: Vec<E>,
        aggr_expr: Vec<E>,
        window_expr: Vec<E>,
        from: P,
        joins: Vec<(P, E, JoinType)>,
        filter_expr: Vec<E>,
        having_expr: Vec<E>,
        limit: Option<usize>,
        offset: Option<usize>,
        order_expr: Vec<E>,
        alias: Option<String>,
        ungrouped: bool,
    ) -> (r: WrappedSelectNode<E, P>)
        ensures
            r.schema == schema,
            r.select_type == select_type,
            r.projection_expr == projection_expr,
            r.group_expr == group_expr,
            r.aggr_expr == aggr_expr,
            r.window_expr == window_expr,
            r.from == from,
            r.joins == joins,
            r.filter_expr == filter_expr,
            r.having_expr == having_expr,
            r.limit == limit,
            r.offset == offset,
            r.order_expr == order_expr,
            r.alias == alias,
            r.ungrouped == ungrouped,
    {
        WrappedSelectNode {
            schema,
            select_type,
            projection_expr,
            group_expr,
            aggr_expr,
            window_expr,
            from,
            joins,
            filter_expr,
            having_expr,
            limit,
            offset,
            order_expr,
            alias,
            ungrouped,
        }
    }

    /// The schema of the rows that the select gives.
    pub fn schema(&self) -> (r: &Schema)
        ensures
            r == &self.schema,
    {
        &self.schema
    }

    /// The child plans of the node, in order.
    pub fn inputs(&self) -> (r: Vec<&P>)
        ensures
            pointed(r@) == self.all_inputs(),
    {
        let mut out: Vec<&P> = Vec::new();
        out.push(&self.from);
        assert(pointed(out@) =~= seq![self.from]);
        let mut i: usize = 0;
        while i < self.joins.len()
            invariant
                0 <= i <= self.joins.len(),
                pointed(out@) == seq![self.from] + self.join_plans().take(i as int),
            decreases self.joins.len() - i,
        {
            let ghost prior = out@;
            out.push(&self.joins[i].0);
            assert(pointed(out@) =~= pointed(prior).push(self.joins@[i as int].0));
            assert(seq![self.from] + self.join_plans().take(i + 1) =~= (seq![self.from]
                + self.join_plans().take(i as int)).push(self.joins@[i as int].0));
            i = i + 1;
        }
        assert(self.join_plans().take(self.joins.len() as int) =~= self.join_plans());
        out
    }

    /// The expressions of the node, in order.
    pub fn expressions(&self) -> (r: Vec<&E>)
        ensures
            pointed(r@) == self.all_exprs(),
    {
        let mut out: Vec<&E> = Vec::new();
        assert(pointed(out@) =~= Seq::<E>::empty());
        push_refs(&mut out, &self.projection_expr);
        push_refs(&mut out, &self.group_expr);
        push_refs(&mut out, &self.aggr_expr);
        push_refs(&mut out, &self.window_expr);
        let ghost head = pointed(out@);
        assert(head =~= self.projection_expr@ + self.group_expr@ + self.aggr_expr@
            + self.window_expr@);
        let mut i: usize = 0;
        while i < self.joins.len()
            invariant
                0 <= i <= self.joins.len(),
                pointed(out@) == head + self.join_exprs().take(i as int),
            decreases self.joins.len() - i,
        {
            let ghost prior = out@;
            out.push(&self.joins[i].1);
            assert(pointed(out@) =~= pointed(prior).push(self.joins@[i as int].1));
            assert(head + self.join_exprs().take(i + 1) =~= (head + self.join_exprs().take(
                i as int,
            )).push(self.joins@[i as int].1));
            i = i + 1;
        }
        assert(self.join_exprs().take(self.joins.len() as int) =~= self.join_exprs());
        push_refs(&mut out, &self.filter_expr);
        push_refs(&mut out, &self.having_expr);
        push_refs(&mut out, &self.order_expr);
        out
    }

    /// The node built anew from rewritten expressions and rewritten child
    /// plans, each list in the order in which the node gives its own. The
    /// new node has the shape of this one: as many expressions of each kind,
    /// as many joins and of the same types. Its limit, its offset and its
    /// alias are unset, whatever this node's are.
    pub fn from_template(&self, exprs: Vec<E>, inputs: Vec<P>) -> (r: WrappedSelectNode<E, P>)
        requires
            inputs@.len() == self.all_inputs().len(),
            exprs@.len() == self.all_exprs().len(),
        ensures
            r.schema@ == self.schema@,
            r.select_type == self.select_type,
            r.ungrouped == self.ungrouped,
            r.limit is None,
            r.offset is None,
            r.alias is None,
            r.projection_expr@.len() == self.projection_expr@.len(),
            r.group_expr@.len() == self.group_expr@.len(),
            r.aggr_expr@.len() == self.aggr_expr@.len(),
            r.window_expr@.len() == self.window_expr@.len(),
            r.joins@.len() == self.joins@.len(),
            r.filter_expr@.len() == self.filter_expr@.len(),
            r.having_expr@.len() == self.having_expr@.len(),
            r.order_expr@.len() == self.order_expr@.len(),
            forall|i: int| 0 <= i < r.joins@.len() ==> (#[trigger] r.joins@[i]).2 == self.joins@[i].2,
            r.all_exprs() == exprs@,
            r.all_inputs() == inputs@,
    {
        let ghost all = exprs@;
        let mut rest = exprs;
        let order_expr = take_tail(&mut rest, self.order_expr.len());
        let having_expr = take_tail(&mut rest, self.having_expr.len());
        let filter_expr = take_tail(&mut rest, self.filter_expr.len());
        let join_exprs = take_tail(&mut rest, self.joins.len());
        let window_expr = take_tail(&mut rest, self.window_expr.len());
        let aggr_expr = take_tail(&mut rest, self.aggr_expr.len());
        let group_expr = take_tail(&mut rest, self.group_expr.len());
        let projection_expr = rest;
        let ghost je = join_exprs@;

        let mut first = inputs;
        let plans = take_tail(&mut first, self.joins.len());
        let ghost jp = plans@;
        let from = first.pop().unwrap();
        assert(seq![from] + jp =~= inputs@);

        let joins = self.zip_joins(plans, join_exprs);
        let node = WrappedSelectNode {
            schema: self.schema.clone(),
            select_type: self.select_type,
            projection_expr,
            group_expr,
            aggr_expr,
            window_expr,
            from,
            joins,
            filter_expr,
            having_expr,
            limit: None,
            offset: None,
            order_expr,
            alias: None,
            ungrouped: self.ungrouped,
        };
        assert(node.join_exprs() =~= je);
        assert(node.join_plans() =~= jp);
        node
    }

    /// The joins made of rewritten plans and rewritten expressions, each
    /// joined as the join at its index in this node is.
    fn zip_joins(&self, plans: Vec<P>, exprs: Vec<E>) -> (joins: Vec<(P, E, JoinType)>)
        requires
            plans@.len() == self.joins@.len(),
            exprs@.len() == self.joins@.len(),
        ensures
            joins@.len() == self.joins@.len(),
            forall|i: int|
                0 <= i < joins@.len() ==> #[trigger] joins@[i] == (
                    plans@[i],
                    exprs@[i],
                    self.joins@[i].2,
                ),
    {
        let ghost jp = plans@;
        let ghost je = exprs@;
        let mut plans = plans;
        let mut exprs = exprs;
        let count = self.joins.len();
        let mut joins: Vec<(P, E, JoinType)> = Vec::new();
        let mut k: usize = count;
        while k > 0
            invariant
                0 <= k <= count,
                count == self.joins.len(),
                jp.len() == count,
                je.len() == count,
                plans@ == jp.take(k as int),
                exprs@ == je.take(k as int),
                joins@.len() == count - k,
                forall|i: int|
                    0 <= i < count - k ==> #[trigger] joins@[i] == (
                        jp[k + i],
                        je[k + i],
                        self.joins@[k + i].2,
                    ),
            decreases k,
        {
            let plan = plans.pop().unwrap();
            let expr = exprs.pop().unwrap();
            let join_type = self.joins[k - 1].2;
            let ghost prior = joins@;
            joins.insert(0, (plan, expr, join_type));
            k = k - 1;
            assert(plans@ =~= jp.take(k as int));
            assert(exprs@ =~= je.take(k as int));
            assert forall|i: int| 0 <= i < count - k implies #[trigger] joins@[i] == (
                jp[k + i],
                je[k + i],
                self.joins@[k + i].2,
            ) by {
                if i > 0 {
                    assert(joins@[i] == prior[i - 1]);
                }
            }
        }
        joins
    }
}

/// Takes the last `count` items off a list.
fn take_tail<T>(rest: &mut Vec<T>, count: usize) -> (tail: Vec<T>)
    requires
        count <= old(rest)@.len(),
    ensures
        final(rest)@ + tail@ == old(rest)@,
        tail@.len() == count,
        final(rest)@.len() == old(rest)@.len() - count,
{
    let at = rest.len() - count;
    let tail = rest.split_off(at);
    assert(rest@ + tail@ =~= old(rest)@);
    tail
}

} // verus!
