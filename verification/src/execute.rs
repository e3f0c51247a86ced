//! The executable scan: how one execution starts, under the limits that the
//! configuration sets.

use crate::error::CubeError;
use crate::load::{load_step, load_step_spec, LoadStep};
use crate::request::{
    copy_span_id,
    AuthContext,
    CubeScanOptions,
    LoadRequestMeta,
    LoadRequestMetaView,
    RemoteQuery,
    RemoteQueryView,
    SpanId,
    SqlQuery,
};
use crate::router::CubeScanOneShotStream;
use crate::schema::{copy_member_fields, MemberField, Schema};
use crate::text::{bounded_integer, parse_i32};
use crate::views::{copy_optional_string, option_view, same_text, view_all};
use vstd::prelude::*;
use vstd::string::StringExecFns;

verus! {

/// The row limit of a query where the configuration names none.
pub const DEFAULT_QUERY_LIMIT: i32 = 50000;

/// What the configuration sets for every scan: whether streaming is tried at
/// all, and the most rows that one request may ask for.
#[derive(Clone, Copy, Debug, PartialEq, Eq, Structural)]
pub struct ScanConfig {
    pub stream_mode: bool,
    pub query_limit: i32,
}

/// The streaming switch that a setting writes: off where there is no setting,
/// on for `true`, off for `false`, and nothing for any other text.
pub open spec fn stream_mode_setting(setting: Option<Seq<char>>) -> Option<bool> {
    match setting {
        None => Some(false),
        Some(text) => if text == "true"@ {
            Some(true)
        } else if text == "false"@ {
            Some(false)
        } else {
            None
        },
    }
}

/// The row limit that a setting writes: the default where there is no
/// setting, and nothing for a text that writes no 32-bit integer.
pub open spec fn query_limit_setting(setting: Option<Seq<char>>) -> Option<i32> {
    match setting {
        None => Some(DEFAULT_QUERY_LIMIT),
        Some(text) => match bounded_integer(text, i32::MIN as int, i32::MAX as int) {
            Some(v) => Some(v as i32),
            None => None,
        },
    }
}

/// The configuration that two settings write, if both can be read.
pub open spec fn config_of_settings(
    stream_mode: Option<Seq<char>>,
    query_limit: Option<Seq<char>>,
) -> Option<ScanConfig> {
    match (stream_mode_setting(stream_mode), query_limit_setting(query_limit)) {
        (Some(s), Some(l)) => Some(ScanConfig { stream_mode: s, query_limit: l }),
        _ => None,
    }
}

/// An execution streams: streaming is switched on, and the query has no
/// limit or one above the configured limit.
pub open spec fn streams(config: ScanConfig, limit: Option<i32>) -> bool {
    config.stream_mode && match limit {
        None => true,
        Some(l) => l > config.query_limit,
    }
}

/// The limit of the outgoing request: the query's own, unless it has none or
/// one above the configured limit; then the configured limit.
pub open spec fn clamped_limit(config: ScanConfig, limit: Option<i32>) -> i32 {
    match limit {
        None => config.query_limit,
        Some(l) => if l > config.query_limit {
            config.query_limit
        } else {
            l
        },
    }
}

impl ScanConfig {
    /// Reads the configuration from the texts of its two settings, each of
    /// which may be absent.
    pub fn from_settings(stream_mode: Option<&str>, query_limit: Option<&str>) -> (r: Option<
        ScanConfig,
    >)
        ensures
            r == config_of_settings(
                match stream_mode {
                    Some(t) => Some(t@),
                    None => None,
                },
                match query_limit {
                    Some(t) => Some(t@),
                    None => None,
                },
            ),
    {
        let mode = match stream_mode {
            None => false,
            Some(text) => if same_text(text, "true") {
                true
            } else if same_text(text, "false") {
                false
            } else {
                return None;
            },
        };
        let limit = match query_limit {
            None => DEFAULT_QUERY_LIMIT,
            Some(text) => match parse_i32(text) {
                Some(v) => v,
                None => {
                    return None;
                },
            },
        };
        Some(ScanConfig { stream_mode: mode, query_limit: limit })
    }

    /// Tells whether an execution of a query with the limit `limit` streams.
    pub fn streams(&self, limit: Option<i32>) -> (r: bool)
        ensures
            r == streams(*self, limit),
    {
        self.stream_mode && match limit {
            None => true,
            Some(l) => l > self.query_limit,
        }
    }

    /// The limit of the outgoing request of a query with the limit `limit`.
    pub fn clamp_limit(&self, limit: Option<i32>) -> (r: i32)
        ensures
            r == clamped_limit(*self, limit),
    {
        match limit {
            None => self.query_limit,
            Some(l) => if l > self.query_limit {
                self.query_limit
            } else {
                l
            },
        }
    }
}

/// What is known of the size of a scan's result before it runs: nothing.
#[derive(Clone, Copy, Debug, PartialEq, Eq, Structural)]
pub struct Statistics {
    pub num_rows: Option<usize>,
    pub total_byte_size: Option<usize>,
    pub is_exact: bool,
}

/// The executable scan of one query.
#[derive(Debug, PartialEq, Eq)]
pub struct CubeScanExecutionPlan {
    pub schema: Schema,
    pub member_fields: Vec<MemberField>,
    pub request: RemoteQuery,
    pub wrapped_sql: Option<SqlQuery>,
    pub auth_context: AuthContext,
    pub options: CubeScanOptions,
    pub meta: LoadRequestMeta,
    pub span_id: Option<SpanId>,
}

/// What a `CubeScanExecutionPlan` is in contracts.
pub struct CubeScanExecutionPlanView {
    pub schema: Seq<crate::schema::FieldView>,
    pub member_fields: Seq<crate::schema::MemberFieldView>,
    pub request: RemoteQueryView,
    pub wrapped_sql: Option<crate::request::SqlQueryView>,
    pub auth_context: crate::request::AuthContextView,
    pub options: crate::request::CubeScanOptionsView,
    pub meta: LoadRequestMetaView,
    pub span_id: Option<crate::request::SpanIdView>,
}

impl View for CubeScanExecutionPlan {
    type V = CubeScanExecutionPlanView;

    open spec fn view(&self) -> CubeScanExecutionPlanView {
        CubeScanExecutionPlanView {
            schema: self.schema@,
            member_fields: view_all(self.member_fields@),
            request: self.request@,
            wrapped_sql: option_view(self.wrapped_sql),
            auth_context: self.auth_context@,
            options: self.options@,
            meta: self.meta@,
            span_id: option_view(self.span_id),
        }
    }
}

/// How one execution starts.
#[derive(Debug, PartialEq, Eq)]
pub enum ExecutionStart {
    /// A live channel is to be opened with `request` and `meta`, and routed
    /// together with `one_shot`, which stands by for a downgrade.
    Stream { request: RemoteQuery, meta: LoadRequestMeta, one_shot: CubeScanOneShotStream },
    /// The rows are to be had as `step` says, and loaded into `one_shot`.
    OneShot { step: LoadStep, one_shot: CubeScanOneShotStream },
}

impl CubeScanExecutionPlan {
    /// The request that goes out under `config`: this scan's, with its limit
    /// clamped.
    pub open spec fn outgoing_request_spec(&self, config: ScanConfig) -> RemoteQueryView {
        RemoteQueryView { limit: Some(clamped_limit(config, self.request.limit)), ..self.request@ }
    }

    /// The metadata that goes out: this scan's, acting for the user that its
    /// options name.
    pub open spec fn outgoing_meta_spec(&self) -> LoadRequestMetaView {
        LoadRequestMetaView { change_user: option_view(self.options.change_user), ..self.meta@ }
    }

    /// `stream` is the single-fetch stream of this scan under `config`: it
    /// holds no batch, and it fetches with the outgoing request and metadata.
    pub open spec fn is_one_shot_of(&self, config: ScanConfig, stream: CubeScanOneShotStream) -> bool {
        &&& stream.data is None
        &&& stream.schema@ == self.schema@
        &&& view_all(stream.member_fields@) == view_all(self.member_fields@)
        &&& stream.request@ == self.outgoing_request_spec(config)
        &&& stream.auth_context@ == self.auth_context@
        &&& stream.meta@ == self.outgoing_meta_spec()
        &&& stream.options@ == self.options@
        &&& option_view(stream.wrapped_sql) == option_view(self.wrapped_sql)
        &&& option_view(stream.span_id) == option_view(self.span_id)
    }

    /// The number of partitions of the output: always one.
    pub fn output_partitioning(&self) -> (r: usize)
        ensures
            r == 1,
    {
        1
    }

    /// The number of children: a scan is a leaf.
    pub fn children(&self) -> (r: usize)
        ensures
            r == 0,
    {
        0
    }

    /// Refuses to replace the children of a scan, whatever they are.
    pub fn with_new_children(&self, children: usize) -> (r: Result<CubeScanExecutionPlan, CubeError>)
        ensures
            r == Err::<CubeScanExecutionPlan, CubeError>(CubeError::ChildrenNotReplaceable),
    {
        Err(CubeError::ChildrenNotReplaceable)
    }

    /// What is known of the size of the result: nothing.
    pub fn statistics(&self) -> (r: Statistics)
        ensures
            r == (Statistics { num_rows: None, total_byte_size: None, is_exact: false }),
    {
        Statistics { num_rows: None, total_byte_size: None, is_exact: false }
    }

    /// The request that goes out under `config`.
    pub fn outgoing_request(&self, config: &ScanConfig) -> (r: RemoteQuery)
        ensures
            r@ == self.outgoing_request_spec(*config),
    {
        let mut request = self.request.clone();
        request.limit = Some(config.clamp_limit(self.request.limit));
        request
    }

    /// The metadata that goes out.
    pub fn outgoing_meta(&self) -> (r: LoadRequestMeta)
        ensures
            r@ == self.outgoing_meta_spec(),
    {
        let mut meta = self.meta.clone();
        meta.set_change_user(copy_optional_string(&self.options.change_user));
        meta
    }

    /// The single-fetch stream of this scan under `config`.
    pub fn one_shot_stream(&self, config: &ScanConfig) -> (r: CubeScanOneShotStream)
        ensures
            self.is_one_shot_of(*config, r),
    {
        CubeScanOneShotStream::new(
            self.schema.clone(),
            copy_member_fields(&self.member_fields),
            self.outgoing_request(config),
            self.auth_context.clone(),
            self.outgoing_meta(),
            self.options.clone(),
            match &self.wrapped_sql {
                Some(sql) => Some(sql.clone()),
                None => None,
            },
            copy_span_id(&self.span_id),
        )
    }

    /// Starts one execution of the only partition. It streams if the
    /// configuration says so for this query's limit, and fetches once if not;
    /// either way the outgoing request has its limit clamped and the
    /// metadata acts for the user that the options name.
    pub fn execute(&self, partition: usize, config: &ScanConfig) -> (r: ExecutionStart)
        requires
            partition == 0,
        ensures
            match r {
                ExecutionStart::Stream { request, meta, one_shot } => {
                    &&& streams(*config, self.request.limit)
                    &&& request@ == self.outgoing_request_spec(*config)
                    &&& meta@ == self.outgoing_meta_spec()
                    &&& self.is_one_shot_of(*config, one_shot)
                },
                ExecutionStart::OneShot { step, one_shot } => {
                    &&& !streams(*config, self.request.limit)
                    &&& step@ == load_step_spec(self.outgoing_request_spec(*config))
                    &&& self.is_one_shot_of(*config, one_shot)
                },
            },
    {
        let one_shot = self.one_shot_stream(config);
        if config.streams(self.request.limit) {
            ExecutionStart::Stream {
                request: self.outgoing_request(config),
                meta: self.outgoing_meta(),
                one_shot,
            }
        } else {
            let step = load_step(&one_shot.request);
            ExecutionStart::OneShot { step, one_shot }
        }
    }

    /// One line that names the scan, then the pushed-down SQL if there is
    /// one, else the request as `request_json` writes it.
    pub fn fmt_as(&self, request_json: &str) -> (r: String)
        ensures
            r@ == match self.wrapped_sql {
                Some(sql) => "CubeScanExecutionPlan, SQL:\n"@ + sql.sql@,
                None => "CubeScanExecutionPlan, Request:\n"@ + request_json@,
            },
    {
        match &self.wrapped_sql {
            Some(sql) => String::from_str("CubeScanExecutionPlan, SQL:\n").concat(sql.sql.as_str()),
            None => String::from_str("CubeScanExecutionPlan, Request:\n").concat(request_json),
        }
    }
}

} // verus!
