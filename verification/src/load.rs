//! One fetch of rows: what can be answered without the remote service, and
//! what is made of the service's answer.

use crate::error::{CubeError, CubeErrorView};
use crate::json::{JsonRow, JsonRowView};
use crate::request::{CubeScanOptions, CubeScanOptionsView, RemoteQuery, RemoteQueryView};
use crate::views::view_all;
use vstd::prelude::*;

verus! {

/// The query names no measure, no dimension and no time dimension with a
/// granularity: there is nothing to ask the remote service for.
pub open spec fn no_members(query: RemoteQueryView) -> bool {
    &&& query.measures matches Some(m) ==> m.len() == 0
    &&& query.dimensions matches Some(d) ==> d.len() == 0
    &&& query.time_dimensions matches Some(t) ==> forall|i: int|
        0 <= i < t.len() ==> (#[trigger] t[i]).granularity is None
}

/// The number of rows that a query without members is answered with: its
/// limit, one if it has none, none if the limit is negative.
pub open spec fn local_row_count(query: RemoteQueryView) -> nat {
    match query.limit {
        None => 1,
        Some(limit) => if limit > 0 {
            limit as nat
        } else {
            0
        },
    }
}

/// The rows that a query without members is answered with: each one null.
pub open spec fn local_rows(query: RemoteQueryView) -> Seq<JsonRowView> {
    Seq::new(local_row_count(query), |i: int| JsonRowView::Null)
}

/// How the rows of a query are had.
#[derive(Debug, PartialEq, Eq)]
pub enum LoadStep {
    /// The rows are these: the remote service is not asked.
    Local(Vec<JsonRow>),
    /// The remote service is to be asked.
    Remote,
}

/// What a `LoadStep` is in contracts.
pub enum LoadStepView {
    Local(Seq<JsonRowView>),
    Remote,
}

impl View for LoadStep {
    type V = LoadStepView;

    open spec fn view(&self) -> LoadStepView {
        match self {
            LoadStep::Local(rows) => LoadStepView::Local(view_all(rows@)),
            LoadStep::Remote => LoadStepView::Remote,
        }
    }
}

/// How the rows of `query` are had: a query without members is answered with
/// null rows, and any other by the remote service.
pub open spec fn load_step_spec(query: RemoteQueryView) -> LoadStepView {
    if no_members(query) {
        LoadStepView::Local(local_rows(query))
    } else {
        LoadStepView::Remote
    }
}

/// One result of a response of the remote service: its rows.
#[derive(Debug, PartialEq, Eq)]
pub struct LoadResult {
    pub data: Vec<JsonRow>,
}

/// The rows of each result of a response.
pub open spec fn results_view(results: Seq<LoadResult>) -> Seq<Seq<JsonRowView>> {
    results.map_values(|r: LoadResult| view_all(r.data@))
}

/// What the remote service answered, as contracts see it: the rows of each
/// result, or the words of its failure.
pub open spec fn response_view(response: Result<Vec<LoadResult>, String>) -> Result<
    Seq<Seq<JsonRowView>>,
    Seq<char>,
> {
    match response {
        Ok(results) => Ok(results_view(results@)),
        Err(message) => Err(message@),
    }
}

/// The rows or the failure that `r` holds, as contracts see them.
pub open spec fn rows_view(r: Result<Vec<JsonRow>, CubeError>) -> Result<
    Seq<JsonRowView>,
    CubeErrorView,
> {
    match r {
        Ok(rows) => Ok(view_all(rows@)),
        Err(e) => Err(e@),
    }
}

/// What is made of the answer of the remote service: its failure is passed
/// on; an answer without results fails; the rows of the last result are
/// refused if they reach the number that the options forbid, and are
/// returned otherwise.
pub open spec fn finished_load(
    options: CubeScanOptionsView,
    response: Result<Seq<Seq<JsonRowView>>, Seq<char>>,
) -> Result<Seq<JsonRowView>, CubeErrorView> {
    match response {
        Err(message) => Err(CubeErrorView::Transport(message)),
        Ok(results) => if results.len() == 0 {
            Err(CubeErrorView::EmptyResponse)
        } else {
            let rows = results.last();
            match options.max_records {
                Some(max_records) => if rows.len() >= max_records {
                    Err(CubeErrorView::MaxRecordsExceeded { max_records })
                } else {
                    Ok(rows)
                },
                None => Ok(rows),
            }
        },
    }
}

/// Tells whether a list that may be absent holds nothing.
fn holds_nothing(list: &Option<Vec<String>>) -> (r: bool)
    ensures
        r == (*list matches Some(v) ==> v@.len() == 0),
{
    match list {
        Some(v) => v.len() == 0,
        None => true,
    }
}

/// Tells whether `query` names no measure, no dimension and no time dimension
/// with a granularity.
pub fn is_no_members_query(query: &RemoteQuery) -> (r: bool)
    ensures
        r == no_members(query@),
{
    if !holds_nothing(&query.measures) || !holds_nothing(&query.dimensions) {
        return false;
    }
    match &query.time_dimensions {
        None => true,
        Some(list) => {
            let ghost views = view_all(list@);
            let mut i: usize = 0;
            while i < list.len()
                invariant
                    0 <= i <= list.len(),
                    views == view_all(list@),
                    query@.time_dimensions == Some(views),
                    forall|k: int| 0 <= k < i ==> (#[trigger] views[k]).granularity is None,
                decreases list.len() - i,
            {
                if list[i].granularity.is_some() {
                    assert(views[i as int].granularity is Some);
                    return false;
                }
                i = i + 1;
            }
            true
        },
    }
}

/// The rows that a query without members is answered with.
pub fn synthesize_rows(query: &RemoteQuery) -> (r: Vec<JsonRow>)
    ensures
        view_all(r@) == local_rows(query@),
{
    let count: usize = match query.limit {
        None => 1,
        Some(limit) => if limit > 0 {
            limit as usize
        } else {
            0
        },
    };
    let mut rows: Vec<JsonRow> = Vec::new();
    let mut i: usize = 0;
    while i < count
        invariant
            0 <= i <= count,
            rows.len() == i,
            forall|k: int| 0 <= k < i ==> rows@[k]@ == JsonRowView::Null,
        decreases count - i,
    {
        rows.push(JsonRow::Null);
        i = i + 1;
    }
    assert(view_all(rows@) =~= local_rows(query@));
    rows
}

/// Decides how the rows of `query` are had.
pub fn load_step(query: &RemoteQuery) -> (r: LoadStep)
    ensures
        r@ == load_step_spec(query@),
{
    if is_no_members_query(query) {
        LoadStep::Local(synthesize_rows(query))
    } else {
        LoadStep::Remote
    }
}

/// Makes the rows of a fetch of the answer of the remote service.
pub fn finish_load(options: &CubeScanOptions, response: Result<Vec<LoadResult>, String>) -> (r:
    Result<Vec<JsonRow>, CubeError>)
    ensures
        rows_view(r) == finished_load(options@, response_view(response)),
{
    match response {
        Err(message) => Err(CubeError::Transport(message)),
        Ok(results) => {
            let mut results = results;
            let ghost all = results@;
            match results.pop() {
                None => Err(CubeError::EmptyResponse),
                Some(last) => {
                    assert(results_view(all).last() == view_all(last.data@));
                    match options.max_records {
                        Some(max_records) => if last.data.len() >= max_records {
                            Err(CubeError::MaxRecordsExceeded { max_records })
                        } else {
                            Ok(last.data)
                        },
                        None => Ok(last.data),
                    }
                },
            }
        },
    }
}

/// A fetch that brings as many rows as the options forbid, or more, fails;
/// one that brings fewer returns its rows.
pub proof fn lemma_max_records_guard(
    options: CubeScanOptionsView,
    results: Seq<Seq<JsonRowView>>,
    max_records: usize,
)
    requires
        results.len() > 0,
        options.max_records == Some(max_records),
    ensures
        results.last().len() >= max_records ==> finished_load(options, Ok(results)) == Err::<
            Seq<JsonRowView>,
            CubeErrorView,
        >(CubeErrorView::MaxRecordsExceeded { max_records }),
        results.last().len() < max_records ==> finished_load(options, Ok(results)) == Ok::<
            Seq<JsonRowView>,
            CubeErrorView,
        >(results.last()),
{
}

/// A query without members and with the limit `limit`, which is not
/// negative, is answered without the remote service, with `limit` rows, each
/// one null.
pub proof fn lemma_no_members_rows(query: RemoteQueryView, limit: i32)
    requires
        no_members(query),
        query.limit == Some(limit),
        limit >= 0,
    ensures
        load_step_spec(query) matches LoadStepView::Local(rows) && rows.len() == limit
            && forall|i: int| 0 <= i < rows.len() ==> rows[i] == JsonRowView::Null,
{
}

} // verus!
