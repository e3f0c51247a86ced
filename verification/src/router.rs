//! The stream of batches that a scan hands to its consumer: a live channel
//! from the remote service, or the one batch of a single fetch, with one way
//! from the first to the second.

use crate::batch::{ColumnarBatch, ColumnarBatchView};
use crate::error::{CubeError, CubeErrorView};
use crate::json::{json_source, JsonRow, JsonRowView, JsonValueObject};
use crate::load::{load_step, load_step_spec, LoadStep, LoadStepView};
use crate::request::{AuthContext, CubeScanOptions, LoadRequestMeta, RemoteQuery, SpanId, SqlQuery};
use crate::schema::{FieldView, MemberField, MemberFieldView, Schema};
use crate::text::{contains_text, text_contains};
use crate::transform::{materialized, transform_response};
use crate::views::{result_view, view_all};
use vstd::prelude::*;

verus! {

/// The words by which the remote service says that it cannot stream a query.
pub const STREAM_NOT_IMPLEMENTED: &'static str = "streamQuery() method is not implemented yet";

/// One element of a stream of batches, or its end.
pub type StreamItem = Option<Result<ColumnarBatch, CubeError>>;

/// What a `StreamItem` is in contracts.
pub open spec fn item_view(item: StreamItem) -> Option<Result<ColumnarBatchView, CubeErrorView>> {
    match item {
        Some(r) => Some(result_view(r)),
        None => None,
    }
}

/// The batch that a single fetch of `rows` gives under `schema` and `fields`,
/// or its failure.
pub open spec fn one_shot_batch(
    rows: Seq<JsonRowView>,
    schema: Seq<FieldView>,
    fields: Seq<MemberFieldView>,
) -> Result<ColumnarBatchView, CubeErrorView> {
    materialized(json_source(rows), schema, fields)
}

/// The stream of a single fetch: it yields the one batch that was loaded into
/// it, and then ends.
#[derive(Debug, PartialEq, Eq)]
pub struct CubeScanOneShotStream {
    pub data: Option<ColumnarBatch>,
    pub schema: Schema,
    pub member_fields: Vec<MemberField>,
    pub request: RemoteQuery,
    pub auth_context: AuthContext,
    pub meta: LoadRequestMeta,
    pub options: CubeScanOptions,
    pub wrapped_sql: Option<SqlQuery>,
    pub span_id: Option<SpanId>,
}

impl CubeScanOneShotStream {
    /// The batch that waits to be yielded, if any.
    pub open spec fn pending(&self) -> Option<ColumnarBatchView> {
        match self.data {
            Some(batch) => Some(batch@),
            None => None,
        }
    }

    /// `other` is this stream but for the batch that waits in it.
    pub open spec fn same_scan(&self, other: &CubeScanOneShotStream) -> bool {
        &&& self.schema == other.schema
        &&& self.member_fields == other.member_fields
        &&& self.request == other.request
        &&& self.auth_context == other.auth_context
        &&& self.meta == other.meta
        &&& self.options == other.options
        &&& self.wrapped_sql == other.wrapped_sql
        &&& self.span_id == other.span_id
    }

    /// A stream for one scan, with no batch loaded yet.
    pub fn new(
        schema: Schema,
        member_fields: Vec<MemberField>,
        request: RemoteQuery,
        auth_context: AuthContext,
        meta: LoadRequestMeta,
        options: CubeScanOptions,
        wrapped_sql: Option<SqlQuery>,
        span_id: Option<SpanId>,
    ) -> (r: CubeScanOneShotStream)
        ensures
            r.data is None,
            r.schema == schema,
            r.member_fields == member_fields,
            r.request == request,
            r.auth_context == auth_context,
            r.meta == meta,
            r.options == options,
            r.wrapped_sql == wrapped_sql,
            r.span_id == span_id,
    {
        CubeScanOneShotStream {
            data: None,
            schema,
            member_fields,
            request,
            auth_context,
            meta,
            options,
            wrapped_sql,
            span_id,
        }
    }

    /// Yields the batch that waits, if any, and leaves none.
    pub fn poll_next(&mut self) -> (r: StreamItem)
        ensures
            final(self).data is None,
            final(self).same_scan(old(self)),
            item_view(r) == match old(self).pending() {
                Some(batch) => Some(Ok::<ColumnarBatchView, CubeErrorView>(batch)),
                None => None,
            },
    {
        match self.data.take() {
            Some(batch) => Some(Ok(batch)),
            None => None,
        }
    }

    /// Materializes `rows` and keeps the batch to be yielded. On failure the
    /// stream is left as it was.
    pub fn load(&mut self, rows: Vec<JsonRow>) -> (r: Result<(), CubeError>)
        requires
            old(self).member_fields.len() >= old(self).schema@.len(),
        ensures
            final(self).same_scan(old(self)),
            match one_shot_batch(
                view_all(rows@),
                old(self).schema@,
                view_all(old(self).member_fields@),
            ) {
                Ok(batch) => r is Ok && final(self).pending() == Some(batch),
                Err(e) => r is Err && r->Err_0@ == e && final(self).data == old(self).data,
            },
    {
        let mut response = JsonValueObject::new(rows);
        match transform_response(&mut response, self.schema.clone(), &self.member_fields) {
            Ok(batch) => {
                self.data = Some(batch);
                Ok(())
            },
            Err(e) => Err(e),
        }
    }
}

/// The live channel from the remote service. The receiving end is held, and
/// released with this stream; it is polled outside.
#[derive(Debug, PartialEq, Eq)]
pub struct CubeScanMemoryStream<R> {
    pub receiver: R,
}

/// What the live channel hands over when polled and ready: an element, which
/// is a batch or the words of a failure; the sender's word that it is done;
/// or nothing, the channel being closed. `B` is the type of a streamed batch,
/// which the router hands on unread.
pub type Received<B> = Option<Option<Result<B, String>>>;

/// One element of the live stream, or its end.
pub type Streamed<B> = Option<Result<B, CubeError>>;

/// What a `Streamed` is in contracts.
pub open spec fn streamed_view<B>(item: Streamed<B>) -> Option<Result<B, CubeErrorView>> {
    match item {
        Some(Ok(batch)) => Some(Ok(batch)),
        Some(Err(e)) => Some(Err(e@)),
        None => None,
    }
}

/// The element of the stream that stands for what the channel handed over: a
/// batch for a batch, a failure of the remote service for a failure, the end
/// for anything else.
pub open spec fn received_item<B>(received: Received<B>) -> Option<Result<B, CubeErrorView>> {
    match received {
        Some(Some(Ok(batch))) => Some(Ok(batch)),
        Some(Some(Err(message))) => Some(Err(CubeErrorView::Transport(message@))),
        _ => None,
    }
}

impl<R> CubeScanMemoryStream<R> {
    /// The stream over the receiving end of a channel.
    pub fn new(receiver: R) -> (r: CubeScanMemoryStream<R>)
        ensures
            r.receiver == receiver,
    {
        CubeScanMemoryStream { receiver }
    }

    /// The element of the stream that stands for what the channel handed over.
    pub fn poll_next<B>(received: Received<B>) -> (r: Streamed<B>)
        ensures
            streamed_view(r) == received_item(received),
    {
        match received {
            Some(Some(Ok(batch))) => Some(Ok(batch)),
            Some(Some(Err(message))) => Some(Err(CubeError::Transport(message))),
            Some(None) => None,
            None => None,
        }
    }
}

/// The element says that the remote service cannot stream this query.
pub open spec fn is_not_implemented<B>(item: Option<Result<B, CubeErrorView>>) -> bool {
    item matches Some(Err(CubeErrorView::Transport(message))) && contains_text(
        message,
        STREAM_NOT_IMPLEMENTED@,
    )
}

/// What the router does with an element of the live channel.
#[derive(Debug, PartialEq, Eq)]
pub enum RouterStep<B> {
    /// The element is handed to the consumer.
    Yield(Streamed<B>),
    /// The live channel is given up. The rows are to be had by a single
    /// fetch, as the step says, and handed to `on_fallback`.
    Downgrade(LoadStep),
}

/// What a `RouterStep` is in contracts.
pub enum RouterStepView<B> {
    Yield(Option<Result<B, CubeErrorView>>),
    Downgrade(LoadStepView),
}

impl<B> View for RouterStep<B> {
    type V = RouterStepView<B>;

    open spec fn view(&self) -> RouterStepView<B> {
        match self {
            RouterStep::Yield(item) => RouterStepView::Yield(streamed_view(*item)),
            RouterStep::Downgrade(step) => RouterStepView::Downgrade(step@),
        }
    }
}

/// What a router is in contracts: whether it holds a live channel, the batch
/// that waits in its single-fetch stream, and what a single fetch of it asks
/// for and materializes under.
pub struct RouterModel {
    pub streaming: bool,
    pub pending: Option<ColumnarBatchView>,
    pub schema: Seq<FieldView>,
    pub fields: Seq<MemberFieldView>,
    pub request: crate::request::RemoteQueryView,
}

/// An element of the live channel arrives at a streaming router: if it says
/// that the remote service cannot stream, the router stops streaming and
/// asks for a single fetch; if not, the element is yielded and the router is
/// as it was.
pub open spec fn after_item<B>(router: RouterModel, item: Option<Result<B, CubeErrorView>>) -> (
    RouterModel,
    RouterStepView<B>,
) {
    if is_not_implemented(item) {
        (
            RouterModel { streaming: false, ..router },
            RouterStepView::Downgrade(load_step_spec(router.request)),
        )
    } else {
        (router, RouterStepView::Yield(item))
    }
}

/// The rows of a single fetch are loaded into a router: their batch waits in
/// it. Rows that cannot be materialized leave the router as it was.
pub open spec fn after_load(router: RouterModel, rows: Seq<JsonRowView>) -> RouterModel {
    match one_shot_batch(rows, router.schema, router.fields) {
        Ok(batch) => RouterModel { pending: Some(batch), ..router },
        Err(_) => router,
    }
}

/// A router that holds no live channel is polled: it yields the batch that
/// waits, or the end, and no batch waits afterwards.
pub open spec fn after_poll(router: RouterModel) -> (
    RouterModel,
    Option<Result<ColumnarBatchView, CubeErrorView>>,
) {
    (
        RouterModel { pending: None, ..router },
        match router.pending {
            Some(batch) => Some(Ok(batch)),
            None => None,
        },
    )
}

/// The single fetch that a downgrade asked for comes back to a router in
/// which no batch waits: the router yields the batch of the rows, or the
/// failure of the fetch or of the materialization, and no batch waits
/// afterwards.
pub open spec fn after_fallback(
    router: RouterModel,
    fetched: Result<Seq<JsonRowView>, CubeErrorView>,
) -> (RouterModel, Option<Result<ColumnarBatchView, CubeErrorView>>) {
    (
        router,
        Some(
            match fetched {
                Ok(rows) => one_shot_batch(rows, router.schema, router.fields),
                Err(e) => Err(e),
            },
        ),
    )
}

/// A streaming router whose channel says that the remote service cannot
/// stream gives up the channel; the fetch that it asks for then yields
/// exactly what a router that never streamed yields once the same rows are
/// loaded into it; and after that the router yields the end, without
/// streaming again.
pub proof fn lemma_downgrade_serves_the_single_fetch<B>(
    router: RouterModel,
    item: Option<Result<B, CubeErrorView>>,
    rows: Seq<JsonRowView>,
)
    requires
        router.streaming,
        router.pending is None,
        is_not_implemented(item),
        one_shot_batch(rows, router.schema, router.fields) is Ok,
    ensures
        ({
            let downgraded = after_item(router, item);
            let served = after_fallback(downgraded.0, Ok(rows));
            let direct = after_poll(after_load(RouterModel { streaming: false, ..router }, rows));
            &&& downgraded.1 == RouterStepView::<B>::Downgrade(load_step_spec(router.request))
            &&& !downgraded.0.streaming
            &&& served.1 == direct.1
            &&& served.1 == Some(one_shot_batch(rows, router.schema, router.fields))
            &&& !served.0.streaming
            &&& after_poll(served.0).1 is None
            &&& !after_poll(served.0).0.streaming
        }),
{
}

/// The router of one execution. It streams while it holds a live channel,
/// and serves the single fetch once it holds none.
#[derive(Debug, PartialEq, Eq)]
pub struct CubeScanStreamRouter<R> {
    pub main_stream: Option<CubeScanMemoryStream<R>>,
    pub one_shot_stream: CubeScanOneShotStream,
    pub schema: Schema,
}

impl<R> CubeScanStreamRouter<R> {
    /// The router holds a live channel.
    pub open spec fn streaming(&self) -> bool {
        self.main_stream is Some
    }

    /// What the router is in contracts.
    pub open spec fn model(&self) -> RouterModel {
        RouterModel {
            streaming: self.streaming(),
            pending: self.one_shot_stream.pending(),
            schema: self.one_shot_stream.schema@,
            fields: view_all(self.one_shot_stream.member_fields@),
            request: self.one_shot_stream.request@,
        }
    }

    /// A router: streaming if it is given a live channel, single-fetch if not.
    pub fn new(
        main_stream: Option<CubeScanMemoryStream<R>>,
        one_shot_stream: CubeScanOneShotStream,
        schema: Schema,
    ) -> (r: CubeScanStreamRouter<R>)
        ensures
            r.main_stream == main_stream,
            r.one_shot_stream == one_shot_stream,
            r.schema == schema,
            r.streaming() == (main_stream is Some),
    {
        CubeScanStreamRouter { main_stream, one_shot_stream, schema }
    }

    /// Tells whether the router holds a live channel.
    pub fn is_streaming(&self) -> (r: bool)
        ensures
            r == self.streaming(),
    {
        self.main_stream.is_some()
    }

    /// The schema of the batches.
    pub fn schema(&self) -> (r: Schema)
        ensures
            r@ == self.schema@,
    {
        self.schema.clone()
    }

    /// Takes what the live channel handed over. An element that says that
    /// the remote service cannot stream this query makes the router give up
    /// the channel for good and ask for a single fetch; any other element,
    /// and the end of the channel, is handed to the consumer.
    pub fn on_stream_item<B>(&mut self, received: Received<B>) -> (r: RouterStep<B>)
        requires
            old(self).streaming(),
        ensures
            (final(self).model(), r@) == after_item(old(self).model(), received_item(received)),
            final(self).one_shot_stream == old(self).one_shot_stream,
            final(self).schema == old(self).schema,
            is_not_implemented(received_item(received)) ==> !final(self).streaming() && r@
                == RouterStepView::<B>::Downgrade(
                load_step_spec(old(self).one_shot_stream.request@),
            ),
            !is_not_implemented(received_item(received)) ==> final(self).main_stream == old(
                self,
            ).main_stream && r@ == RouterStepView::Yield(received_item(received)),
    {
        let item = CubeScanMemoryStream::<R>::poll_next(received);
        let gives_up = match &item {
            Some(Err(CubeError::Transport(message))) => text_contains(
                message.as_str(),
                STREAM_NOT_IMPLEMENTED,
            ),
            _ => false,
        };
        if gives_up {
            self.main_stream = None;
            RouterStep::Downgrade(load_step(&self.one_shot_stream.request))
        } else {
            RouterStep::Yield(item)
        }
    }

    /// Takes the rows of the single fetch that a downgrade asked for, or the
    /// failure of that fetch, and yields what a single-fetch execution would
    /// have yielded: the batch of these rows, or the failure. The router
    /// holds no live channel afterwards, and no batch.
    pub fn on_fallback(&mut self, fetched: Result<Vec<JsonRow>, CubeError>) -> (r: StreamItem)
        requires
            !old(self).streaming(),
            old(self).one_shot_stream.data is None,
            old(self).one_shot_stream.member_fields.len() >= old(self).one_shot_stream.schema@.len(),
        ensures
            (final(self).model(), item_view(r)) == after_fallback(
                old(self).model(),
                crate::load::rows_view(fetched),
            ),
            !final(self).streaming(),
            final(self).schema == old(self).schema,
            final(self).one_shot_stream.same_scan(&old(self).one_shot_stream),
            item_view(r) == Some(
                match fetched {
                    Ok(rows) => one_shot_batch(
                        view_all(rows@),
                        old(self).one_shot_stream.schema@,
                        view_all(old(self).one_shot_stream.member_fields@),
                    ),
                    Err(e) => Err(e@),
                },
            ),
            old(self).one_shot_stream.data is None ==> final(self).one_shot_stream.data is None,
    {
        match fetched {
            Err(e) => Some(Err(e)),
            Ok(rows) => match self.one_shot_stream.load(rows) {
                Ok(()) => self.one_shot_stream.poll_next(),
                Err(e) => Some(Err(e)),
            },
        }
    }

    /// Serves the single fetch: yields its batch if it waits, the end if not.
    pub fn poll_one_shot(&mut self) -> (r: StreamItem)
        requires
            !old(self).streaming(),
        ensures
            (final(self).model(), item_view(r)) == after_poll(old(self).model()),
            !final(self).streaming(),
            final(self).schema == old(self).schema,
            final(self).one_shot_stream.same_scan(&old(self).one_shot_stream),
            final(self).one_shot_stream.data is None,
            item_view(r) == match old(self).one_shot_stream.pending() {
                Some(batch) => Some(Ok::<ColumnarBatchView, CubeErrorView>(batch)),
                None => None,
            },
    {
        self.one_shot_stream.poll_next()
    }
}

} // verus!
