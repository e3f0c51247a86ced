//! What a scan sends to the remote service: the query, and what goes with it.

use crate::views::{copy_optional_string, copy_string, copy_strings, option_view, view_all};
use vstd::prelude::*;

verus! {

/// The views of the strings of a list that may be absent.
pub open spec fn strings_view(list: Option<Vec<String>>) -> Option<Seq<Seq<char>>> {
    match list {
        Some(v) => Some(view_all(v@)),
        None => None,
    }
}

/// A copy of a list of strings that may be absent.
pub fn copy_optional_strings(list: &Option<Vec<String>>) -> (r: Option<Vec<String>>)
    ensures
        strings_view(r) == strings_view(*list),
{
    match list {
        Some(v) => Some(copy_strings(v)),
        None => None,
    }
}

/// A time dimension of a query. The date range is kept as the JSON text of
/// its value.
#[derive(Debug, PartialEq, Eq)]
pub struct TimeDimension {
    pub dimension: String,
    pub granularity: Option<String>,
    pub date_range: Option<String>,
}

/// What a `TimeDimension` is in contracts.
pub struct TimeDimensionView {
    pub dimension: Seq<char>,
    pub granularity: Option<Seq<char>>,
    pub date_range: Option<Seq<char>>,
}

impl View for TimeDimension {
    type V = TimeDimensionView;

    open spec fn view(&self) -> TimeDimensionView {
        TimeDimensionView {
            dimension: self.dimension@,
            granularity: option_view(self.granularity),
            date_range: option_view(self.date_range),
        }
    }
}

impl Clone for TimeDimension {
    fn clone(&self) -> (r: Self)
        ensures
            r@ == self@,
    {
        TimeDimension {
            dimension: copy_string(&self.dimension),
            granularity: copy_optional_string(&self.granularity),
            date_range: copy_optional_string(&self.date_range),
        }
    }
}

/// The views of the time dimensions of a list that may be absent.
pub open spec fn time_dimensions_view(list: Option<Vec<TimeDimension>>) -> Option<
    Seq<TimeDimensionView>,
> {
    match list {
        Some(v) => Some(view_all(v@)),
        None => None,
    }
}

/// The views of the orderings of a list that may be absent: each ordering is
/// a list of strings.
pub open spec fn order_view(list: Option<Vec<Vec<String>>>) -> Option<Seq<Seq<Seq<char>>>> {
    match list {
        Some(v) => Some(v@.map_values(|item: Vec<String>| view_all(item@))),
        None => None,
    }
}

/// The query that the remote service is asked. Each filter is kept as the
/// JSON text of its value.
#[derive(Debug, PartialEq, Eq)]
pub struct RemoteQuery {
    pub measures: Option<Vec<String>>,
    pub dimensions: Option<Vec<String>>,
    pub segments: Option<Vec<String>>,
    pub time_dimensions: Option<Vec<TimeDimension>>,
    pub order: Option<Vec<Vec<String>>>,
    pub limit: Option<i32>,
    pub offset: Option<i32>,
    pub filters: Option<Vec<String>>,
    pub ungrouped: Option<bool>,
}

/// What a `RemoteQuery` is in contracts.
pub struct RemoteQueryView {
    pub measures: Option<Seq<Seq<char>>>,
    pub dimensions: Option<Seq<Seq<char>>>,
    pub segments: Option<Seq<Seq<char>>>,
    pub time_dimensions: Option<Seq<TimeDimensionView>>,
    pub order: Option<Seq<Seq<Seq<char>>>>,
    pub limit: Option<i32>,
    pub offset: Option<i32>,
    pub filters: Option<Seq<Seq<char>>>,
    pub ungrouped: Option<bool>,
}

impl View for RemoteQuery {
    type V = RemoteQueryView;

    open spec fn view(&self) -> RemoteQueryView {
        RemoteQueryView {
            measures: strings_view(self.measures),
            dimensions: strings_view(self.dimensions),
            segments: strings_view(self.segments),
            time_dimensions: time_dimensions_view(self.time_dimensions),
            order: order_view(self.order),
            limit: self.limit,
            offset: self.offset,
            filters: strings_view(self.filters),
            ungrouped: self.ungrouped,
        }
    }
}

/// A copy of a list of time dimensions that may be absent.
fn copy_time_dimensions(list: &Option<Vec<TimeDimension>>) -> (r: Option<Vec<TimeDimension>>)
    ensures
        time_dimensions_view(r) == time_dimensions_view(*list),
{
    match list {
        None => None,
        Some(v) => {
            let mut out: Vec<TimeDimension> = Vec::new();
            let mut i: usize = 0;
            while i < v.len()
                invariant
                    0 <= i <= v.len(),
                    out.len() == i,
                    forall|k: int| 0 <= k < i ==> out@[k]@ == v@[k]@,
                decreases v.len() - i,
            {
                out.push(v[i].clone());
                i = i + 1;
            }
            assert(view_all(out@) =~= view_all(v@));
            Some(out)
        },
    }
}

/// A copy of a list of orderings that may be absent.
fn copy_order(list: &Option<Vec<Vec<String>>>) -> (r: Option<Vec<Vec<String>>>)
    ensures
        order_view(r) == order_view(*list),
{
    match list {
        None => None,
        Some(v) => {
            let mut out: Vec<Vec<String>> = Vec::new();
            let mut i: usize = 0;
            while i < v.len()
                invariant
                    0 <= i <= v.len(),
                    out.len() == i,
                    forall|k: int| 0 <= k < i ==> view_all(out@[k]@) == view_all(v@[k]@),
                decreases v.len() - i,
            {
                out.push(copy_strings(&v[i]));
                i = i + 1;
            }
            assert(out@.map_values(|item: Vec<String>| view_all(item@)) =~= v@.map_values(
                |item: Vec<String>| view_all(item@),
            ));
            Some(out)
        },
    }
}

impl Clone for RemoteQuery {
    fn clone(&self) -> (r: Self)
        ensures
            r@ == self@,
    {
        RemoteQuery {
            measures: copy_optional_strings(&self.measures),
            dimensions: copy_optional_strings(&self.dimensions),
            segments: copy_optional_strings(&self.segments),
            time_dimensions: copy_time_dimensions(&self.time_dimensions),
            order: copy_order(&self.order),
            limit: self.limit,
            offset: self.offset,
            filters: copy_optional_strings(&self.filters),
            ungrouped: self.ungrouped,
        }
    }
}

impl RemoteQuery {
    /// The query that asks for nothing.
    pub fn new() -> (r: RemoteQuery)
        ensures
            r@ == (RemoteQueryView {
                measures: None,
                dimensions: None,
                segments: None,
                time_dimensions: None,
                order: None,
                limit: None,
                offset: None,
                filters: None,
                ungrouped: None,
            }),
    {
        RemoteQuery {
            measures: None,
            dimensions: None,
            segments: None,
            time_dimensions: None,
            order: None,
            limit: None,
            offset: None,
            filters: None,
            ungrouped: None,
        }
    }
}

/// What goes with every request of a connection: who asks, and on whose
/// behalf.
#[derive(Debug, PartialEq, Eq)]
pub struct LoadRequestMeta {
    pub protocol: String,
    pub api_type: String,
    pub app_name: Option<String>,
    pub change_user: Option<String>,
}

/// What a `LoadRequestMeta` is in contracts.
pub struct LoadRequestMetaView {
    pub protocol: Seq<char>,
    pub api_type: Seq<char>,
    pub app_name: Option<Seq<char>>,
    pub change_user: Option<Seq<char>>,
}

impl View for LoadRequestMeta {
    type V = LoadRequestMetaView;

    open spec fn view(&self) -> LoadRequestMetaView {
        LoadRequestMetaView {
            protocol: self.protocol@,
            api_type: self.api_type@,
            app_name: option_view(self.app_name),
            change_user: option_view(self.change_user),
        }
    }
}

impl Clone for LoadRequestMeta {
    fn clone(&self) -> (r: Self)
        ensures
            r@ == self@,
    {
        LoadRequestMeta {
            protocol: copy_string(&self.protocol),
            api_type: copy_string(&self.api_type),
            app_name: copy_optional_string(&self.app_name),
            change_user: copy_optional_string(&self.change_user),
        }
    }
}

impl LoadRequestMeta {
    /// The metadata of a connection, with nobody to act for.
    pub fn new(protocol: String, api_type: String, app_name: Option<String>) -> (r: LoadRequestMeta)
        ensures
            r@ == (LoadRequestMetaView {
                protocol: protocol@,
                api_type: api_type@,
                app_name: option_view(app_name),
                change_user: None,
            }),
    {
        LoadRequestMeta { protocol, api_type, app_name, change_user: None }
    }

    /// Sets the user on whose behalf the requests are made.
    pub fn set_change_user(&mut self, change_user: Option<String>)
        ensures
            final(self)@ == (LoadRequestMetaView {
                change_user: option_view(change_user),
                ..old(self)@
            }),
    {
        self.change_user = change_user;
    }
}

/// The options of one scan.
#[derive(Debug, PartialEq, Eq)]
pub struct CubeScanOptions {
    /// The user to act for in this query.
    pub change_user: Option<String>,
    /// The number of rows that one fetch may not reach.
    pub max_records: Option<usize>,
}

/// What `CubeScanOptions` are in contracts.
pub struct CubeScanOptionsView {
    pub change_user: Option<Seq<char>>,
    pub max_records: Option<usize>,
}

impl View for CubeScanOptions {
    type V = CubeScanOptionsView;

    open spec fn view(&self) -> CubeScanOptionsView {
        CubeScanOptionsView {
            change_user: option_view(self.change_user),
            max_records: self.max_records,
        }
    }
}

impl Clone for CubeScanOptions {
    fn clone(&self) -> (r: Self)
        ensures
            r@ == self@,
    {
        CubeScanOptions {
            change_user: copy_optional_string(&self.change_user),
            max_records: self.max_records,
        }
    }
}

/// A query in the remote service's own SQL, with the values of its
/// parameters.
#[derive(Debug, PartialEq, Eq)]
pub struct SqlQuery {
    pub sql: String,
    pub values: Vec<Option<String>>,
}

/// What a `SqlQuery` is in contracts.
pub struct SqlQueryView {
    pub sql: Seq<char>,
    pub values: Seq<Option<Seq<char>>>,
}

impl View for SqlQuery {
    type V = SqlQueryView;

    open spec fn view(&self) -> SqlQueryView {
        SqlQueryView {
            sql: self.sql@,
            values: self.values@.map_values(|v: Option<String>| option_view(v)),
        }
    }
}

impl Clone for SqlQuery {
    fn clone(&self) -> (r: Self)
        ensures
            r@ == self@,
    {
        let mut out: Vec<Option<String>> = Vec::new();
        let mut i: usize = 0;
        while i < self.values.len()
            invariant
                0 <= i <= self.values.len(),
                out.len() == i,
                forall|k: int| 0 <= k < i ==> option_view(out@[k]) == option_view(self.values@[k]),
            decreases self.values.len() - i,
        {
            out.push(copy_optional_string(&self.values[i]));
            i = i + 1;
        }
        assert(out@.map_values(|v: Option<String>| option_view(v)) =~= self.values@.map_values(
            |v: Option<String>| option_view(v),
        ));
        SqlQuery { sql: copy_string(&self.sql), values: out }
    }
}

/// Who asks: the credentials of a connection to the remote service.
#[derive(Debug, PartialEq, Eq)]
pub struct AuthContext {
    pub access_token: String,
    pub base_path: String,
}

/// What an `AuthContext` is in contracts.
pub struct AuthContextView {
    pub access_token: Seq<char>,
    pub base_path: Seq<char>,
}

impl View for AuthContext {
    type V = AuthContextView;

    open spec fn view(&self) -> AuthContextView {
        AuthContextView { access_token: self.access_token@, base_path: self.base_path@ }
    }
}

impl Clone for AuthContext {
    fn clone(&self) -> (r: Self)
        ensures
            r@ == self@,
    {
        AuthContext {
            access_token: copy_string(&self.access_token),
            base_path: copy_string(&self.base_path),
        }
    }
}

/// The handle by which the steps of one query are traced. The key of the
/// query is kept as the JSON text of its value.
#[derive(Debug, PartialEq, Eq)]
pub struct SpanId {
    pub span_id: String,
    pub query_key: String,
}

/// What a `SpanId` is in contracts.
pub struct SpanIdView {
    pub span_id: Seq<char>,
    pub query_key: Seq<char>,
}

impl View for SpanId {
    type V = SpanIdView;

    open spec fn view(&self) -> SpanIdView {
        SpanIdView { span_id: self.span_id@, query_key: self.query_key@ }
    }
}

impl Clone for SpanId {
    fn clone(&self) -> (r: Self)
        ensures
            r@ == self@,
    {
        SpanId { span_id: copy_string(&self.span_id), query_key: copy_string(&self.query_key) }
    }
}

/// A copy of a tracing handle that may be absent.
pub fn copy_span_id(span_id: &Option<SpanId>) -> (r: Option<SpanId>)
    ensures
        option_view(r) == option_view(*span_id),
{
    match span_id {
        Some(s) => Some(s.clone()),
        None => None,
    }
}

} // verus!
