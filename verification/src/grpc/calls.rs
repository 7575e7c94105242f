//! The calls of the gRPC backend: which messages an action sends one after the other, and what
//! their answers mean.

use vstd::prelude::*;

use crate::client::{
    plain_error, AddMetricRequestView, ApiError, ApiErrorView, ApiResponse, ConnectionInfo,
    ConnectionInfoView, EventInfo, GroupInfo, McpErrorCountInfo, McpUsageInfo, McpWorkflowInfo,
    MetricInfo, MetricInfoView, StatusInfo, ValidationResult,
};
use crate::exchange::{failure, mcp_only, Action, ActionView, Event};
use crate::grpc::{
    add_metric_message, bare_location, event_info, event_is, has_age, listed_location,
    listed_metric, located, metric_info, slice_of, AddMetricMessage, EventRecord, GrpcClient,
    MetricMessage, MetricMode, Mode, StackTraceSlice,
};
use crate::lists::reversed;
use crate::mcp::calls::named_metric;
use crate::mcp::McpClient;
use crate::rest::ConnectionMessage;
use crate::text::{cat2, cat4, clone_opt, decimal, num, num_signed, opt_view, signed_decimal};

verus! {

// ---------------------------------------------------------------------------
// Messages
// ---------------------------------------------------------------------------

/// The mathematical counterpart of [`AddMetricMessage`].
pub struct AddMetricMessageView {
    pub name: Seq<char>,
    pub group: Option<Seq<char>>,
    pub file: Seq<char>,
    pub line: u32,
    pub expression: Seq<char>,
    pub language: Option<Seq<char>>,
    pub enabled: bool,
    pub mode: MetricMode,
    pub safety_level: Seq<char>,
    pub connection_id: Seq<char>,
    pub capture_stack_trace: Option<bool>,
    pub stack_trace_ttl: Option<u64>,
    pub stack_trace_slice: Option<StackTraceSlice>,
    pub capture_memory_snapshot: Option<bool>,
    pub snapshot_scope: Option<Seq<char>>,
    pub snapshot_ttl: Option<u64>,
}

impl View for AddMetricMessage {
    type V = AddMetricMessageView;

    open spec fn view(&self) -> AddMetricMessageView {
        AddMetricMessageView {
            name: self.name@,
            group: opt_view(self.group),
            file: self.file@,
            line: self.line,
            expression: self.expression@,
            language: opt_view(self.language),
            enabled: self.enabled,
            mode: self.mode,
            safety_level: self.safety_level@,
            connection_id: self.connection_id@,
            capture_stack_trace: self.capture_stack_trace,
            stack_trace_ttl: self.stack_trace_ttl,
            stack_trace_slice: self.stack_trace_slice,
            capture_memory_snapshot: self.capture_memory_snapshot,
            snapshot_scope: opt_view(self.snapshot_scope),
            snapshot_ttl: self.snapshot_ttl,
        }
    }
}

/// A message to the server.
#[derive(Debug)]
pub enum GrpcRequest {
    GetStatus,
    Wake,
    Sleep,
    CreateConnection {
        host: String,
        port: u32,
        language: String,
        name: String,
        workspace_root: String,
        hostname: String,
        program: Option<String>,
        safe_mode: bool,
    },
    CloseConnection { connection_id: String },
    GetConnection { connection_id: String },
    ListConnections,
    AddMetric { message: AddMetricMessage },
    RemoveMetric { name: String },
    ToggleMetric { metric_id: u64, enabled: bool },
    GetMetric { name: String },
    ListMetrics,
    QueryMetrics { metric_id: u64, limit: u32 },
    EnableGroup { group_name: String },
    DisableGroup { group_name: String },
    ListGroups,
    ValidateExpression { expression: String, language: String },
    InspectFile { file_path: String, line: Option<u32>, find_variable: Option<String> },
    GetConfig,
    UpdateConfig { config_toml: String, merge: bool, persist: bool },
    ValidateConfig { config_toml: String },
    ReloadConfig,
    GetMcpUsage,
}

/// The mathematical counterpart of [`GrpcRequest`].
pub enum GrpcRequestView {
    GetStatus,
    Wake,
    Sleep,
    CreateConnection {
        host: Seq<char>,
        port: u32,
        language: Seq<char>,
        name: Seq<char>,
        workspace_root: Seq<char>,
        hostname: Seq<char>,
        program: Option<Seq<char>>,
        safe_mode: bool,
    },
    CloseConnection(Seq<char>),
    GetConnection(Seq<char>),
    ListConnections,
    AddMetric(AddMetricMessageView),
    RemoveMetric(Seq<char>),
    ToggleMetric(u64, bool),
    GetMetric(Seq<char>),
    ListMetrics,
    QueryMetrics(u64, u32),
    EnableGroup(Seq<char>),
    DisableGroup(Seq<char>),
    ListGroups,
    ValidateExpression(Seq<char>, Seq<char>),
    InspectFile(Seq<char>, Option<u32>, Option<Seq<char>>),
    GetConfig,
    UpdateConfig { config_toml: Seq<char>, merge: bool, persist: bool },
    ValidateConfig(Seq<char>),
    ReloadConfig,
    GetMcpUsage,
}

impl View for GrpcRequest {
    type V = GrpcRequestView;

    open spec fn view(&self) -> GrpcRequestView {
        match self {
            GrpcRequest::GetStatus => GrpcRequestView::GetStatus,
            GrpcRequest::Wake => GrpcRequestView::Wake,
            GrpcRequest::Sleep => GrpcRequestView::Sleep,
            GrpcRequest::CreateConnection {
                host,
                port,
                language,
                name,
                workspace_root,
                hostname,
                program,
                safe_mode,
            } => GrpcRequestView::CreateConnection {
                host: host@,
                port: *port,
                language: language@,
                name: name@,
                workspace_root: workspace_root@,
                hostname: hostname@,
                program: opt_view(*program),
                safe_mode: *safe_mode,
            },
            GrpcRequest::CloseConnection { connection_id } => GrpcRequestView::CloseConnection(
                connection_id@,
            ),
            GrpcRequest::GetConnection { connection_id } => GrpcRequestView::GetConnection(
                connection_id@,
            ),
            GrpcRequest::ListConnections => GrpcRequestView::ListConnections,
            GrpcRequest::AddMetric { message } => GrpcRequestView::AddMetric(message@),
            GrpcRequest::RemoveMetric { name } => GrpcRequestView::RemoveMetric(name@),
            GrpcRequest::ToggleMetric { metric_id, enabled } => GrpcRequestView::ToggleMetric(
                *metric_id,
                *enabled,
            ),
            GrpcRequest::GetMetric { name } => GrpcRequestView::GetMetric(name@),
            GrpcRequest::ListMetrics => GrpcRequestView::ListMetrics,
            GrpcRequest::QueryMetrics { metric_id, limit } => GrpcRequestView::QueryMetrics(
                *metric_id,
                *limit,
            ),
            GrpcRequest::EnableGroup { group_name } => GrpcRequestView::EnableGroup(group_name@),
            GrpcRequest::DisableGroup { group_name } => GrpcRequestView::DisableGroup(
                group_name@,
            ),
            GrpcRequest::ListGroups => GrpcRequestView::ListGroups,
            GrpcRequest::ValidateExpression { expression, language } =>
                GrpcRequestView::ValidateExpression(expression@, language@),
            GrpcRequest::InspectFile { file_path, line, find_variable } =>
                GrpcRequestView::InspectFile(file_path@, *line, opt_view(*find_variable)),
            GrpcRequest::GetConfig => GrpcRequestView::GetConfig,
            GrpcRequest::UpdateConfig { config_toml, merge, persist } =>
                GrpcRequestView::UpdateConfig {
                config_toml: config_toml@,
                merge: *merge,
                persist: *persist,
            },
            GrpcRequest::ValidateConfig { config_toml } => GrpcRequestView::ValidateConfig(
                config_toml@,
            ),
            GrpcRequest::ReloadConfig => GrpcRequestView::ReloadConfig,
            GrpcRequest::GetMcpUsage => GrpcRequestView::GetMcpUsage,
        }
    }
}

/// Usage statistics as the server sends them.
#[derive(Debug)]
pub struct UsageMessage {
    pub total_calls: u64,
    pub total_success: u64,
    pub total_errors: u64,
    /// The share of successful calls in percent, with one decimal.
    pub success_percent: String,
    /// The average latency in milliseconds, with one decimal.
    pub avg_latency: String,
    pub top_errors: Vec<McpErrorCountInfo>,
    pub workflow: Option<McpWorkflowInfo>,
}

/// A message from the server.
#[derive(Debug)]
pub enum GrpcReply {
    Status {
        mode: String,
        uptime_seconds: u64,
        active_connections: u32,
        total_metrics: u32,
        enabled_metrics: u32,
    },
    Text { text: String },
    Created { connection_id: String, status: String, connection: Option<ConnectionMessage> },
    Connection { connection: Option<ConnectionMessage> },
    Connections { connections: Vec<ConnectionMessage> },
    Done,
    MetricId { metric_id: u64 },
    Metric { metric_id: u64, name: String, location: Option<(String, u32)> },
    Metrics { metrics: Vec<MetricMessage> },
    Events { events: Vec<EventRecord> },
    Affected { metrics_affected: u32 },
    Groups { groups: Vec<GroupInfo> },
    Validation { is_safe: bool, violations: Vec<String> },
    Inspected { success: bool, content: String, error: Option<String> },
    Valid { valid: bool },
    Usage { usage: Option<UsageMessage> },
}

/// Why there is no connection to the server.
#[derive(Debug)]
pub enum ConnectFailure {
    InvalidAddress { error: String },
    Refused { error: String },
}

/// What came of a step.
#[derive(Debug)]
pub enum GrpcInput {
    Connected { outcome: Result<(), ConnectFailure> },
    Answered { answer: Result<GrpcReply, String> },
}

/// How a call goes on.
#[derive(Debug)]
pub enum GrpcStep {
    /// Connect to the server.
    Connect,
    /// Send a message over the connection.
    Send(GrpcRequest),
    /// The call is over.
    Finish(Event),
}

// ---------------------------------------------------------------------------
// What is sent
// ---------------------------------------------------------------------------

/// The message that adds a metric at a place.
pub open spec fn add_message(r: AddMetricRequestView, file: Seq<char>, line: u32) -> AddMetricMessageView {
    AddMetricMessageView {
        name: r.name,
        group: r.group,
        file,
        line,
        expression: r.expression,
        language: r.language,
        enabled: r.enabled != Some(false),
        mode: MetricMode { mode: Some(Mode::Stream) },
        safety_level: "strict"@,
        connection_id: r.connection_id,
        capture_stack_trace: r.capture_stack_trace,
        stack_trace_ttl: r.stack_trace_ttl,
        stack_trace_slice: slice_of(
            r.stack_trace_full,
            r.stack_trace_head,
            r.stack_trace_tail,
            r.capture_stack_trace,
        ),
        capture_memory_snapshot: r.capture_memory_snapshot,
        snapshot_scope: r.snapshot_scope,
        snapshot_ttl: r.snapshot_ttl,
    }
}

/// The message of an action that sends one, or the error of an action that cannot be sent; none
/// for an action that sends two, or none at all. `hostname` is the name of this machine.
pub open spec fn message_for(action: ActionView, hostname: Seq<char>) -> Option<
    Result<GrpcRequestView, ApiErrorView>,
> {
    match action {
        ActionView::GetStatus => Some(Ok(GrpcRequestView::GetStatus)),
        ActionView::Wake => Some(Ok(GrpcRequestView::Wake)),
        ActionView::Sleep => Some(Ok(GrpcRequestView::Sleep)),
        ActionView::CreateConnection(host, port, language, program) => Some(
            Ok(
                GrpcRequestView::CreateConnection {
                    host,
                    port: port as u32,
                    language,
                    name: "e2e-test-"@ + language + "-"@ + decimal(port as nat),
                    workspace_root: "/e2e-test"@,
                    hostname,
                    program,
                    safe_mode: false,
                },
            ),
        ),
        ActionView::CloseConnection(id) => Some(Ok(GrpcRequestView::CloseConnection(id))),
        ActionView::GetConnection(id) => Some(Ok(GrpcRequestView::GetConnection(id))),
        ActionView::ListConnections => Some(Ok(GrpcRequestView::ListConnections)),
        ActionView::AddMetric(request) => Some(
            match located(
                request.location,
                "Invalid location format: "@ + bare_location(request.location),
            ) {
                Ok((file, line)) => Ok(
                    GrpcRequestView::AddMetric(add_message(request, file, line)),
                ),
                Err(e) => Err(e),
            },
        ),
        ActionView::RemoveMetric(name) => Some(Ok(GrpcRequestView::RemoveMetric(name))),
        ActionView::GetMetric(name) => Some(Ok(GrpcRequestView::GetMetric(name))),
        ActionView::ListMetrics => Some(Ok(GrpcRequestView::ListMetrics)),
        ActionView::EnableGroup(group) => Some(Ok(GrpcRequestView::EnableGroup(group))),
        ActionView::DisableGroup(group) => Some(Ok(GrpcRequestView::DisableGroup(group))),
        ActionView::ListGroups => Some(Ok(GrpcRequestView::ListGroups)),
        ActionView::ValidateExpression(expression, language) => Some(
            Ok(GrpcRequestView::ValidateExpression(expression, language)),
        ),
        ActionView::InspectFile(path, line, variable) => Some(
            Ok(GrpcRequestView::InspectFile(path, line, variable)),
        ),
        ActionView::GetConfig => Some(Ok(GrpcRequestView::GetConfig)),
        ActionView::UpdateConfig(toml, persist) => Some(
            Ok(GrpcRequestView::UpdateConfig { config_toml: toml, merge: false, persist }),
        ),
        ActionView::ValidateConfig(toml) => Some(Ok(GrpcRequestView::ValidateConfig(toml))),
        ActionView::ReloadConfig => Some(Ok(GrpcRequestView::ReloadConfig)),
        ActionView::GetMcpUsage => Some(Ok(GrpcRequestView::GetMcpUsage)),
        _ => None,
    }
}

/// The view of a message that can be sent, or the error.
pub open spec fn request_view(r: Option<Result<GrpcRequest, ApiError>>) -> Option<
    Result<GrpcRequestView, ApiErrorView>,
> {
    match r {
        Some(Ok(q)) => Some(Ok(q@)),
        Some(Err(e)) => Some(Err(e@)),
        None => None,
    }
}

impl GrpcClient {
    /// The message of an action that sends one, or the error of an action that cannot be sent.
    pub fn message(action: &Action, hostname: &str) -> (r: Option<Result<GrpcRequest, ApiError>>)
        ensures
            request_view(r) == message_for(action@, hostname@),
    {
        match action {
            Action::GetStatus => Some(Ok(GrpcRequest::GetStatus)),
            Action::Wake => Some(Ok(GrpcRequest::Wake)),
            Action::Sleep => Some(Ok(GrpcRequest::Sleep)),
            Action::CreateConnection { host, port, language, program } => Some(
                Ok(
                    GrpcRequest::CreateConnection {
                        host: host.clone(),
                        port: *port as u32,
                        language: language.clone(),
                        name: Self::connection_name(language.as_str(), *port),
                        workspace_root: "/e2e-test".to_owned(),
                        hostname: hostname.to_owned(),
                        program: clone_opt(program),
                        safe_mode: false,
                    },
                ),
            ),
            Action::CloseConnection { id } => Some(
                Ok(GrpcRequest::CloseConnection { connection_id: id.clone() }),
            ),
            Action::GetConnection { id } => Some(
                Ok(GrpcRequest::GetConnection { connection_id: id.clone() }),
            ),
            Action::ListConnections => Some(Ok(GrpcRequest::ListConnections)),
            Action::AddMetric { request } => match add_metric_message(request) {
                Ok(message) => {
                    assert(message@ == add_message(request@, message.file@, message.line));
                    Some(Ok(GrpcRequest::AddMetric { message }))
                },
                Err(e) => Some(Err(e)),
            },
            Action::RemoveMetric { name } => Some(
                Ok(GrpcRequest::RemoveMetric { name: name.clone() }),
            ),
            Action::GetMetric { name } => Some(Ok(GrpcRequest::GetMetric { name: name.clone() })),
            Action::ListMetrics => Some(Ok(GrpcRequest::ListMetrics)),
            Action::EnableGroup { group } => Some(
                Ok(GrpcRequest::EnableGroup { group_name: group.clone() }),
            ),
            Action::DisableGroup { group } => Some(
                Ok(GrpcRequest::DisableGroup { group_name: group.clone() }),
            ),
            Action::ListGroups => Some(Ok(GrpcRequest::ListGroups)),
            Action::ValidateExpression { expression, language } => Some(
                Ok(
                    GrpcRequest::ValidateExpression {
                        expression: expression.clone(),
                        language: language.clone(),
                    },
                ),
            ),
            Action::InspectFile { path, line, variable } => Some(
                Ok(
                    GrpcRequest::InspectFile {
                        file_path: path.clone(),
                        line: *line,
                        find_variable: clone_opt(variable),
                    },
                ),
            ),
            Action::GetConfig => Some(Ok(GrpcRequest::GetConfig)),
            Action::UpdateConfig { toml, persist } => Some(
                Ok(
                    GrpcRequest::UpdateConfig {
                        config_toml: toml.clone(),
                        merge: false,
                        persist: *persist,
                    },
                ),
            ),
            Action::ValidateConfig { toml } => Some(
                Ok(GrpcRequest::ValidateConfig { config_toml: toml.clone() }),
            ),
            Action::ReloadConfig => Some(Ok(GrpcRequest::ReloadConfig)),
            Action::GetMcpUsage => Some(Ok(GrpcRequest::GetMcpUsage)),
            _ => None,
        }
    }
}

// ---------------------------------------------------------------------------
// What comes back
// ---------------------------------------------------------------------------

/// A message from the server is of the kind that answers an action.
pub open spec fn reply_fits(action: ActionView, reply: GrpcReply) -> bool {
    match reply {
        GrpcReply::Status { .. } => action is GetStatus,
        GrpcReply::Text { .. } => action is Wake || action is Sleep || action is GetConfig,
        GrpcReply::Created { .. } => action is CreateConnection,
        GrpcReply::Connection { .. } => action is GetConnection,
        GrpcReply::Connections { .. } => action is ListConnections,
        GrpcReply::Done => action is CloseConnection || action is RemoveMetric
            || action is ToggleMetric || action is UpdateConfig || action is ReloadConfig,
        GrpcReply::MetricId { .. } => action is AddMetric,
        GrpcReply::Metric { .. } => action is GetMetric,
        GrpcReply::Metrics { .. } => action is ListMetrics,
        GrpcReply::Events { .. } => action is QueryEvents,
        GrpcReply::Affected { .. } => action is EnableGroup || action is DisableGroup,
        GrpcReply::Groups { .. } => action is ListGroups,
        GrpcReply::Validation { .. } => action is ValidateExpression,
        GrpcReply::Inspected { .. } => action is InspectFile,
        GrpcReply::Valid { .. } => action is ValidateConfig,
        GrpcReply::Usage { .. } => action is GetMcpUsage,
    }
}

/// The ages of the events of a message can be told.
pub open spec fn ages_known(reply: GrpcReply, now_micros: i64) -> bool {
    reply matches GrpcReply::Events { events } ==> forall|i: int|
        0 <= i < events@.len() ==> has_age(#[trigger] events@[i], now_micros)
}

/// What a connection is known as: its status is the number that the server gives, and of its
/// port only the low 16 bits count. A connection that the server leaves out is an empty one.
pub open spec fn numbered_connection(c: Option<ConnectionMessage>) -> ConnectionInfoView {
    match c {
        Some(c) => ConnectionInfoView {
            connection_id: c.connection_id@,
            host: c.host@,
            port: (c.port % 0x1_0000) as u16,
            language: c.language@,
            status: signed_decimal(c.status as int),
            safe_mode: c.safe_mode,
        },
        None => ConnectionInfoView {
            connection_id: Seq::empty(),
            host: Seq::empty(),
            port: 0,
            language: Seq::empty(),
            status: signed_decimal(0),
            safe_mode: false,
        },
    }
}

/// The error in a message from the server, if it reports one.
pub open spec fn reported_error(reply: GrpcReply) -> Option<ApiErrorView> {
    match reply {
        GrpcReply::Inspected { success, error, .. } => if success {
            None
        } else {
            Some(
                plain_error(
                    match error {
                        Some(m) => m@,
                        None => "Unknown error"@,
                    },
                ),
            )
        },
        GrpcReply::Usage { usage } => match usage {
            None => Some(plain_error("No usage data"@)),
            Some(u) => if u.workflow is None {
                Some(plain_error("No workflow data"@))
            } else {
                None
            },
        },
        _ => None,
    }
}

/// An event is what a message from the server without an error means.
pub open spec fn answered(reply: GrpcReply, now_micros: i64, event: Event) -> bool {
    match reply {
        GrpcReply::Status {
            mode,
            uptime_seconds,
            active_connections,
            total_metrics,
            enabled_metrics,
        } => event matches Event::Status(Ok(r)) && r == (ApiResponse {
            data: StatusInfo {
                mode,
                uptime_seconds,
                active_connections: active_connections as usize,
                total_metrics: total_metrics as usize,
                enabled_metrics: enabled_metrics as usize,
            },
            raw_response: None,
        }),
        GrpcReply::Text { text } => event matches Event::Text(Ok(r)) && r == (ApiResponse {
            data: text,
            raw_response: None,
        }),
        GrpcReply::Created { connection_id, status, connection } =>
            event matches Event::Connection(Ok(r)) && r.raw_response is None && r.data@ == (
        ConnectionInfoView {
            connection_id: connection_id@,
            status: status@,
            ..numbered_connection(connection)
        }),
        GrpcReply::Connection { connection } => event matches Event::Connection(Ok(r))
            && r.raw_response is None && r.data@ == numbered_connection(connection),
        GrpcReply::Connections { connections } => event matches Event::Connections(Ok(r))
            && r.raw_response is None && r.data@.len() == connections@.len() && forall|i: int|
            0 <= i < connections@.len() ==> (#[trigger] r.data@[i])@ == numbered_connection(
                Some(connections@[i]),
            ),
        GrpcReply::Done => event matches Event::Done(Ok(r)) && r.raw_response is None,
        GrpcReply::MetricId { metric_id } => event matches Event::Text(Ok(r))
            && r.raw_response is None && r.data@ == decimal(metric_id as nat),
        GrpcReply::Metric { metric_id, name, location } => event matches Event::Metric(Ok(r))
            && opt_view(r.raw_response) == Some(decimal(metric_id as nat)) && r.data@ == (
        MetricInfoView { location: listed_location("@"@, location), ..named_metric(name@) }),
        GrpcReply::Metrics { metrics } => event matches Event::Metrics(Ok(r))
            && r.raw_response is None && r.data@.len() == metrics@.len() && forall|i: int|
            0 <= i < metrics@.len() ==> (#[trigger] r.data@[i])@ == listed_metric(
                "@"@,
                metrics@[i],
            ),
        GrpcReply::Events { events } => event matches Event::Events(Ok(r))
            && r.raw_response is None && r.data@.len() == events@.len() && forall|i: int|
            0 <= i < events@.len() ==> event_is(#[trigger] r.data@[i], events@[i], now_micros),
        GrpcReply::Affected { metrics_affected } => event matches Event::Count(Ok(r)) && r == (
        ApiResponse { data: metrics_affected as usize, raw_response: None }),
        GrpcReply::Groups { groups } => event matches Event::Groups(Ok(r)) && r == (ApiResponse {
            data: groups,
            raw_response: None,
        }),
        GrpcReply::Validation { is_safe, violations } => event matches Event::Validation(Ok(r))
            && r == (ApiResponse {
            data: ValidationResult { is_safe, issues: violations },
            raw_response: None,
        }),
        GrpcReply::Inspected { content, .. } => event matches Event::Text(Ok(r)) && r == (
        ApiResponse { data: content, raw_response: None }),
        GrpcReply::Valid { valid } => event matches Event::Valid(Ok(r)) && r == (ApiResponse {
            data: valid,
            raw_response: None,
        }),
        GrpcReply::Usage { usage } => event matches Event::Usage(Ok(r)) && usage matches Some(u)
            && u.workflow matches Some(workflow) && r == (ApiResponse {
            data: McpUsageInfo {
                total_calls: u.total_calls,
                total_success: u.total_success,
                total_errors: u.total_errors,
                success_percent: u.success_percent,
                avg_latency: u.avg_latency,
                top_errors: u.top_errors,
                workflow,
            },
            raw_response: None,
        }),
    }
}

fn take_connection(c: Option<ConnectionMessage>) -> (r: ConnectionInfo)
    ensures
        r@ == numbered_connection(c),
{
    match c {
        Some(c) => ConnectionInfo {
            connection_id: c.connection_id,
            host: c.host,
            port: (c.port % 0x1_0000) as u16,
            language: c.language,
            status: num_signed(c.status as i64),
            safe_mode: c.safe_mode,
        },
        None => {
            let r: ConnectionInfo = ConnectionInfo {
                connection_id: String::new(),
                host: String::new(),
                port: 0,
                language: String::new(),
                status: num_signed(0),
                safe_mode: false,
            };
            r
        },
    }
}

fn take_connections(connections: Vec<ConnectionMessage>) -> (r: Vec<ConnectionInfo>)
    ensures
        r@.len() == connections@.len(),
        forall|i: int|
            0 <= i < connections@.len() ==> (#[trigger] r@[i])@ == numbered_connection(
                Some(connections@[i]),
            ),
{
    let ghost all = connections@;
    let mut rest: Vec<ConnectionMessage> = connections;
    let mut back: Vec<ConnectionInfo> = Vec::new();
    while rest.len() > 0
        invariant
            rest@ == all.subrange(0, rest@.len() as int),
            rest@.len() + back@.len() == all.len(),
            forall|i: int|
                0 <= i < back@.len() ==> (#[trigger] back@[i])@ == numbered_connection(
                    Some(all[all.len() - 1 - i]),
                ),
        decreases rest.len(),
    {
        match rest.pop() {
            Some(c) => {
                assert(c == all[rest@.len() as int]);
                back.push(take_connection(Some(c)));
                assert(rest@ =~= all.subrange(0, rest@.len() as int));
            },
            None => {},
        }
    }
    reversed(back)
}

/// What listed metrics are known as; `prefix` stands in front of their locations.
pub fn take_metrics(prefix: &str, metrics: Vec<MetricMessage>) -> (r: Vec<MetricInfo>)
    ensures
        r@.len() == metrics@.len(),
        forall|i: int|
            0 <= i < metrics@.len() ==> (#[trigger] r@[i])@ == listed_metric(prefix@, metrics@[i]),
{
    let ghost all = metrics@;
    let mut rest: Vec<MetricMessage> = metrics;
    let mut back: Vec<MetricInfo> = Vec::new();
    while rest.len() > 0
        invariant
            rest@ == all.subrange(0, rest@.len() as int),
            rest@.len() + back@.len() == all.len(),
            forall|i: int|
                0 <= i < back@.len() ==> (#[trigger] back@[i])@ == listed_metric(
                    prefix@,
                    all[all.len() - 1 - i],
                ),
        decreases rest.len(),
    {
        match rest.pop() {
            Some(m) => {
                assert(m == all[rest@.len() as int]);
                back.push(metric_info(prefix, m));
                assert(rest@ =~= all.subrange(0, rest@.len() as int));
            },
            None => {},
        }
    }
    reversed(back)
}

fn take_events(events: Vec<EventRecord>, now_micros: i64) -> (r: Vec<EventInfo>)
    requires
        forall|i: int| 0 <= i < events@.len() ==> has_age(#[trigger] events@[i], now_micros),
    ensures
        r@.len() == events@.len(),
        forall|i: int|
            0 <= i < events@.len() ==> event_is(#[trigger] r@[i], events@[i], now_micros),
{
    let ghost all = events@;
    let mut rest: Vec<EventRecord> = events;
    let mut back: Vec<EventInfo> = Vec::new();
    while rest.len() > 0
        invariant
            forall|i: int| 0 <= i < all.len() ==> has_age(#[trigger] all[i], now_micros),
            rest@ == all.subrange(0, rest@.len() as int),
            rest@.len() + back@.len() == all.len(),
            forall|i: int|
                0 <= i < back@.len() ==> event_is(
                    #[trigger] back@[i],
                    all[all.len() - 1 - i],
                    now_micros,
                ),
        decreases rest.len(),
    {
        match rest.pop() {
            Some(e) => {
                assert(e == all[rest@.len() as int]);
                back.push(event_info(e, now_micros));
                assert(rest@ =~= all.subrange(0, rest@.len() as int));
            },
            None => {},
        }
    }
    reversed(back)
}

/// What a message from the server means: an event, or the error that it reports.
pub fn read_reply(reply: GrpcReply, now_micros: i64) -> (r: Result<Event, ApiError>)
    requires
        ages_known(reply, now_micros),
    ensures
        match r {
            Ok(event) => reported_error(reply) is None && answered(reply, now_micros, event),
            Err(e) => reported_error(reply) == Some(e@),
        },
{
    match reply {
        GrpcReply::Status {
            mode,
            uptime_seconds,
            active_connections,
            total_metrics,
            enabled_metrics,
        } => Ok(
            Event::Status(
                Ok(
                    ApiResponse::new(
                        StatusInfo {
                            mode,
                            uptime_seconds,
                            active_connections: active_connections as usize,
                            total_metrics: total_metrics as usize,
                            enabled_metrics: enabled_metrics as usize,
                        },
                    ),
                ),
            ),
        ),
        GrpcReply::Text { text } => Ok(Event::Text(Ok(ApiResponse::new(text)))),
        GrpcReply::Created { connection_id, status, connection } => {
            let mut info: ConnectionInfo = take_connection(connection);
            info.connection_id = connection_id;
            info.status = status;
            Ok(Event::Connection(Ok(ApiResponse::new(info))))
        },
        GrpcReply::Connection { connection } => Ok(
            Event::Connection(Ok(ApiResponse::new(take_connection(connection)))),
        ),
        GrpcReply::Connections { connections } => Ok(
            Event::Connections(Ok(ApiResponse::new(take_connections(connections)))),
        ),
        GrpcReply::Done => Ok(Event::Done(Ok(ApiResponse::new(())))),
        GrpcReply::MetricId { metric_id } => Ok(
            Event::Text(Ok(ApiResponse::new(num(metric_id)))),
        ),
        GrpcReply::Metric { metric_id, name, location } => {
            let mut info: MetricInfo = McpClient::known_metric(name.as_str());
            match &location {
                Some((file, line)) => {
                    info.location = cat4("@", file.as_str(), "#", num(*line as u64).as_str());
                },
                None => {},
            }
            Ok(Event::Metric(Ok(ApiResponse::new(info).with_raw(num(metric_id)))))
        },
        GrpcReply::Metrics { metrics } => Ok(
            Event::Metrics(Ok(ApiResponse::new(take_metrics("@", metrics)))),
        ),
        GrpcReply::Events { events } => Ok(
            Event::Events(Ok(ApiResponse::new(take_events(events, now_micros)))),
        ),
        GrpcReply::Affected { metrics_affected } => Ok(
            Event::Count(Ok(ApiResponse::new(metrics_affected as usize))),
        ),
        GrpcReply::Groups { groups } => Ok(Event::Groups(Ok(ApiResponse::new(groups)))),
        GrpcReply::Validation { is_safe, violations } => Ok(
            Event::Validation(
                Ok(ApiResponse::new(ValidationResult { is_safe, issues: violations })),
            ),
        ),
        GrpcReply::Inspected { success, content, error } => match GrpcClient::inspect_outcome(
            success,
            content,
            error,
        ) {
            Ok(text) => Ok(Event::Text(Ok(ApiResponse::new(text)))),
            Err(e) => Err(e),
        },
        GrpcReply::Valid { valid } => Ok(Event::Valid(Ok(ApiResponse::new(valid)))),
        GrpcReply::Usage { usage } => match usage {
            None => Err(ApiError::new("No usage data".to_owned())),
            Some(u) => match u.workflow {
                None => Err(ApiError::new("No workflow data".to_owned())),
                Some(workflow) => Ok(
                    Event::Usage(
                        Ok(
                            ApiResponse::new(
                                McpUsageInfo {
                                    total_calls: u.total_calls,
                                    total_success: u.total_success,
                                    total_errors: u.total_errors,
                                    success_percent: u.success_percent,
                                    avg_latency: u.avg_latency,
                                    top_errors: u.top_errors,
                                    workflow,
                                },
                            ),
                        ),
                    ),
                ),
            },
        },
    }
}

// ---------------------------------------------------------------------------
// Calls
// ---------------------------------------------------------------------------

/// Where a call stands.
#[derive(Debug, Clone, Copy, PartialEq, Eq, Structural)]
pub enum GrpcPhase {
    /// It connects.
    Opening,
    /// It connects once more, to look a metric up.
    OpeningLookup,
    /// It looks up the number of the metric that the action names.
    LookingUp,
    /// It connects once more, to ask for the events of the metric with the number.
    OpeningCall(u64),
    /// It has sent the message that the action is about.
    Calling,
    Over,
}

/// An action that is performed over gRPC.
#[derive(Debug)]
pub struct GrpcCall {
    pub action: Action,
    /// The name of this machine.
    pub hostname: String,
    pub phase: GrpcPhase,
}

/// The mathematical counterpart of [`GrpcCall`].
pub struct CallView {
    pub action: ActionView,
    pub hostname: Seq<char>,
    pub phase: GrpcPhase,
}

impl View for GrpcCall {
    type V = CallView;

    open spec fn view(&self) -> CallView {
        CallView { action: self.action@, hostname: self.hostname@, phase: self.phase }
    }
}

/// How a call goes on.
pub enum CallNext {
    Connect,
    Send(GrpcRequestView),
    /// It ends with an error.
    Fail(ApiErrorView),
    /// It ends without events.
    NoEvents,
    /// It ends with what a message from the server means.
    Answer(GrpcReply),
}

/// One turn of a call: its state, and how it goes on.
pub struct CallTurn {
    pub state: CallView,
    pub next: CallNext,
}

/// The action can be performed over gRPC, if only to be refused. Health is asked for over HTTP.
pub open spec fn goes_over_grpc(action: ActionView) -> bool {
    action.is_call() && !(action is Health)
}

/// The error of an action that gRPC does not offer.
pub open spec fn refused(action: ActionView) -> Option<ApiErrorView> {
    match action {
        ActionView::Observe(_) => Some(
            plain_error("observe tool is only supported on MCP backend, not "@ + "gRPC"@),
        ),
        ActionView::EnableFromDiff(_) => Some(
            plain_error("enable_from_diff tool is only supported on MCP backend, not "@ + "gRPC"@),
        ),
        ActionView::QuerySystemEvents(..) | ActionView::AcknowledgeSystemEvents(_) => Some(
            plain_error("System events are not available via gRPC API. Use MCP instead."@),
        ),
        _ => None,
    }
}

/// The error of a connection that could not be made.
pub open spec fn connect_error(failure: ConnectFailure) -> ApiErrorView {
    match failure {
        ConnectFailure::InvalidAddress { error } => plain_error("Invalid URI: "@ + error@),
        ConnectFailure::Refused { error } => plain_error(
            "Failed to connect to gRPC server: "@ + error@,
        ),
    }
}

/// The number by which a metric is asked for: the one that the server gave, as far as it can be
/// read as a signed number, or 0.
pub open spec fn lookup_id(metric_id: u64) -> u64 {
    if metric_id <= i64::MAX {
        metric_id
    } else {
        0
    }
}

impl CallView {
    /// The phase is one that a call of the action can be in.
    pub open spec fn wf(self) -> bool {
        &&& goes_over_grpc(self.action)
        &&& match self.phase {
            GrpcPhase::Opening | GrpcPhase::Calling => refused(self.action) is None,
            GrpcPhase::OpeningLookup => self.action is ToggleMetric,
            GrpcPhase::LookingUp => self.action is ToggleMetric || self.action is QueryEvents,
            GrpcPhase::OpeningCall(id) => self.action is QueryEvents && id != 0,
            GrpcPhase::Over => true,
        }
    }

    /// The call goes on in a phase.
    pub open spec fn goes_on(self, phase: GrpcPhase, next: CallNext) -> CallTurn {
        CallTurn { state: CallView { phase, ..self }, next }
    }

    /// The call fails.
    pub open spec fn fails(self, error: ApiErrorView) -> CallTurn {
        self.goes_on(GrpcPhase::Over, CallNext::Fail(error))
    }
}

/// How a call begins: an action that gRPC does not offer is refused, and every other one
/// connects.
pub open spec fn begun(action: ActionView, hostname: Seq<char>) -> CallTurn {
    let s = CallView { action, hostname, phase: GrpcPhase::Opening };
    match refused(action) {
        Some(e) => s.fails(e),
        None => s.goes_on(GrpcPhase::Opening, CallNext::Connect),
    }
}

/// How a call goes on once it is connected. Toggling a metric and asking for its events begin
/// with looking up its number; everything else is one message.
pub open spec fn on_connected(s: CallView) -> CallTurn {
    match s.phase {
        GrpcPhase::OpeningCall(id) => match s.action {
            ActionView::QueryEvents(_, limit) => s.goes_on(
                GrpcPhase::Calling,
                CallNext::Send(GrpcRequestView::QueryMetrics(id, limit)),
            ),
            _ => s.goes_on(s.phase, CallNext::Connect),
        },
        _ => match s.action {
            ActionView::ToggleMetric(name, _) => if s.phase is Opening {
                s.goes_on(GrpcPhase::OpeningLookup, CallNext::Connect)
            } else {
                s.goes_on(GrpcPhase::LookingUp, CallNext::Send(GrpcRequestView::GetMetric(name)))
            },
            ActionView::QueryEvents(name, _) => s.goes_on(
                GrpcPhase::LookingUp,
                CallNext::Send(GrpcRequestView::GetMetric(name)),
            ),
            _ => match message_for(s.action, s.hostname) {
                Some(Ok(request)) => s.goes_on(GrpcPhase::Calling, CallNext::Send(request)),
                Some(Err(e)) => s.fails(e),
                None => s.goes_on(s.phase, CallNext::Connect),
            },
        },
    }
}

/// How a call goes on with the number of the metric that was looked up. A metric without a
/// number has no events.
pub open spec fn on_lookup(s: CallView, metric_id: u64) -> CallTurn {
    match s.action {
        ActionView::ToggleMetric(_, enabled) => s.goes_on(
            GrpcPhase::Calling,
            CallNext::Send(GrpcRequestView::ToggleMetric(lookup_id(metric_id), enabled)),
        ),
        _ => if lookup_id(metric_id) == 0 {
            s.goes_on(GrpcPhase::Over, CallNext::NoEvents)
        } else {
            s.goes_on(GrpcPhase::OpeningCall(lookup_id(metric_id)), CallNext::Connect)
        },
    }
}

/// How a call goes on with a message from the server.
pub open spec fn on_answer(s: CallView, reply: GrpcReply) -> CallTurn {
    match (s.phase, reply) {
        (GrpcPhase::LookingUp, GrpcReply::Metric { metric_id, .. }) => on_lookup(s, metric_id),
        _ => match reported_error(reply) {
            Some(e) => s.fails(e),
            None => s.goes_on(GrpcPhase::Over, CallNext::Answer(reply)),
        },
    }
}

/// How a call goes on with what came of its last step.
pub open spec fn on_input(s: CallView, input: GrpcInput) -> CallTurn {
    match input {
        GrpcInput::Connected { outcome: Err(failure) } => s.fails(connect_error(failure)),
        GrpcInput::Connected { outcome: Ok(_) } => on_connected(s),
        GrpcInput::Answered { answer: Err(e) } => s.fails(plain_error("gRPC error: "@ + e@)),
        GrpcInput::Answered { answer: Ok(reply) } => on_answer(s, reply),
    }
}

/// What came of a step is of the kind that the call waits for.
pub open spec fn call_accepts(s: CallView, input: GrpcInput, now_micros: i64) -> bool {
    match input {
        GrpcInput::Connected { .. } => s.phase is Opening || s.phase is OpeningLookup
            || s.phase is OpeningCall,
        GrpcInput::Answered { answer } => match s.phase {
            GrpcPhase::LookingUp => answer matches Ok(reply) ==> reply is Metric,
            GrpcPhase::Calling => answer matches Ok(reply) ==> reply_fits(s.action, reply)
                && ages_known(reply, now_micros),
            _ => false,
        },
    }
}

/// A step is how a call goes on.
pub open spec fn step_is(step: GrpcStep, turn: CallTurn, now_micros: i64) -> bool {
    match turn.next {
        CallNext::Connect => step is Connect,
        CallNext::Send(request) => step matches GrpcStep::Send(q) && q@ == request,
        CallNext::Fail(error) => step matches GrpcStep::Finish(event) && event.spec_kind()
            == turn.state.action.answer() && event.error() is Some && event.error()->0@ == error,
        CallNext::NoEvents => step matches GrpcStep::Finish(event)
            && event matches Event::Events(Ok(r)) && r.data@.len() == 0 && r.raw_response is None,
        CallNext::Answer(reply) => step matches GrpcStep::Finish(event) && answered(
            reply,
            now_micros,
            event,
        ),
    }
}

/// Whether the ages of all events can be told.
pub fn all_ages_known(events: &Vec<EventRecord>, now_micros: i64) -> (r: bool)
    ensures
        r == (forall|i: int|
            0 <= i < events@.len() ==> has_age(#[trigger] events@[i], now_micros)),
{
    let mut i: usize = 0;
    while i < events.len()
        invariant
            i <= events.len(),
            forall|j: int| 0 <= j < i ==> has_age(#[trigger] events@[j], now_micros),
        decreases events.len() - i,
    {
        if now_micros.checked_sub(events[i].timestamp).is_none() {
            assert(!has_age(events@[i as int], now_micros));
            return false;
        }
        i = i + 1;
    }
    true
}

fn fits(action: &Action, reply: &GrpcReply) -> (r: bool)
    ensures
        r == reply_fits(action@, *reply),
{
    match reply {
        GrpcReply::Status { .. } => matches!(action, Action::GetStatus),
        GrpcReply::Text { .. } => matches!(action, Action::Wake | Action::Sleep | Action::GetConfig),
        GrpcReply::Created { .. } => matches!(action, Action::CreateConnection { .. }),
        GrpcReply::Connection { .. } => matches!(action, Action::GetConnection { .. }),
        GrpcReply::Connections { .. } => matches!(action, Action::ListConnections),
        GrpcReply::Done => matches!(
            action,
            Action::CloseConnection { .. } | Action::RemoveMetric { .. } | Action::ToggleMetric { .. }
            | Action::UpdateConfig { .. } | Action::ReloadConfig
        ),
        GrpcReply::MetricId { .. } => matches!(action, Action::AddMetric { .. }),
        GrpcReply::Metric { .. } => matches!(action, Action::GetMetric { .. }),
        GrpcReply::Metrics { .. } => matches!(action, Action::ListMetrics),
        GrpcReply::Events { .. } => matches!(action, Action::QueryEvents { .. }),
        GrpcReply::Affected { .. } => matches!(
            action,
            Action::EnableGroup { .. } | Action::DisableGroup { .. }
        ),
        GrpcReply::Groups { .. } => matches!(action, Action::ListGroups),
        GrpcReply::Validation { .. } => matches!(action, Action::ValidateExpression { .. }),
        GrpcReply::Inspected { .. } => matches!(action, Action::InspectFile { .. }),
        GrpcReply::Valid { .. } => matches!(action, Action::ValidateConfig { .. }),
        GrpcReply::Usage { .. } => matches!(action, Action::GetMcpUsage),
    }
}

/// The error of a connection that could not be made.
pub fn connection_error(failure: ConnectFailure) -> (r: ApiError)
    ensures
        r@ == connect_error(failure),
{
    match failure {
        ConnectFailure::InvalidAddress { error } => ApiError::new(
            cat2("Invalid URI: ", error.as_str()),
        ),
        ConnectFailure::Refused { error } => ApiError::new(
            cat2("Failed to connect to gRPC server: ", error.as_str()),
        ),
    }
}

/// The error of a stream that could not be opened.
pub fn stream_error(error: &str) -> (r: ApiError)
    ensures
        r@ == plain_error("gRPC stream error: "@ + error@),
{
    ApiError::new(cat2("gRPC stream error: ", error))
}

/// Whether an action can be performed over gRPC, if only to be refused.
pub fn can_start(action: &Action) -> (r: bool)
    ensures
        r == goes_over_grpc(action@),
{
    !matches!(
        action,
        Action::Health | Action::Pause { .. } | Action::CheckTimer { .. } | Action::RestartDebugger
        | Action::Burst { .. }
    )
}

fn ended(action: &Action, error: ApiError) -> (r: GrpcStep)
    requires
        action@.is_call(),
    ensures
        r matches GrpcStep::Finish(event) && event.spec_kind() == action@.answer()
            && event.error() == Some(error),
{
    match failure(action, error) {
        Some(event) => GrpcStep::Finish(event),
        None => GrpcStep::Connect,
    }
}

impl GrpcCall {
    /// Begins to perform an action; `hostname` is the name of this machine.
    pub fn start(action: Action, hostname: String) -> (r: (GrpcCall, GrpcStep))
        requires
            goes_over_grpc(action@),
        ensures
            r.0@ == begun(action@, hostname@).state,
            r.0@.wf(),
            step_is(r.1, begun(action@, hostname@), 0),
    {
        let error: Option<ApiError> = match mcp_only(&action, "gRPC") {
            Some(e) => Some(e),
            None => match &action {
                Action::QuerySystemEvents { .. } | Action::AcknowledgeSystemEvents { .. } => Some(
                    GrpcClient::system_events_unsupported(),
                ),
                _ => None,
            },
        };
        match error {
            Some(e) => {
                let step: GrpcStep = ended(&action, e);
                (GrpcCall { action, hostname, phase: GrpcPhase::Over }, step)
            },
            None => (GrpcCall { action, hostname, phase: GrpcPhase::Opening }, GrpcStep::Connect),
        }
    }

    /// Whether what came of a step is of the kind that the call waits for.
    pub fn accepts(&self, input: &GrpcInput, now_micros: i64) -> (r: bool)
        ensures
            r == call_accepts(self@, *input, now_micros),
    {
        match input {
            GrpcInput::Connected { .. } => match self.phase {
                GrpcPhase::Opening | GrpcPhase::OpeningLookup | GrpcPhase::OpeningCall(_) => true,
                _ => false,
            },
            GrpcInput::Answered { answer } => match self.phase {
                GrpcPhase::LookingUp => match answer {
                    Ok(GrpcReply::Metric { .. }) => true,
                    Ok(_) => false,
                    Err(_) => true,
                },
                GrpcPhase::Calling => match answer {
                    Ok(reply) => fits(&self.action, reply) && match reply {
                        GrpcReply::Events { events } => all_ages_known(events, now_micros),
                        _ => true,
                    },
                    Err(_) => true,
                },
                _ => false,
            },
        }
    }

    fn connected(&mut self) -> (r: GrpcStep)
        requires
            old(self)@.wf(),
            old(self).phase is Opening || old(self).phase is OpeningLookup
                || old(self).phase is OpeningCall,
        ensures
            final(self)@ == on_connected(old(self)@).state,
            final(self)@.wf(),
            step_is(r, on_connected(old(self)@), 0),
            !(on_connected(old(self)@).next is Answer),
    {
        match self.phase {
            GrpcPhase::OpeningCall(metric_id) => match &self.action {
                Action::QueryEvents { limit, .. } => {
                    let request: GrpcRequest = GrpcRequest::QueryMetrics {
                        metric_id,
                        limit: *limit,
                    };
                    self.phase = GrpcPhase::Calling;
                    GrpcStep::Send(request)
                },
                _ => GrpcStep::Connect,
            },
            _ => {
                let lookup: Option<GrpcRequest> = match &self.action {
                    Action::ToggleMetric { name, .. } => {
                        if let GrpcPhase::Opening = self.phase {
                            self.phase = GrpcPhase::OpeningLookup;
                            return GrpcStep::Connect;
                        }
                        Some(GrpcRequest::GetMetric { name: name.clone() })
                    },
                    Action::QueryEvents { name, .. } => Some(
                        GrpcRequest::GetMetric { name: name.clone() },
                    ),
                    _ => None,
                };
                match lookup {
                    Some(request) => {
                        self.phase = GrpcPhase::LookingUp;
                        GrpcStep::Send(request)
                    },
                    None => match GrpcClient::message(&self.action, self.hostname.as_str()) {
                        Some(Ok(request)) => {
                            self.phase = GrpcPhase::Calling;
                            GrpcStep::Send(request)
                        },
                        Some(Err(e)) => {
                            self.phase = GrpcPhase::Over;
                            ended(&self.action, e)
                        },
                        None => GrpcStep::Connect,
                    },
                }
            },
        }
    }

    fn looked_up(&mut self, metric_id: u64) -> (r: GrpcStep)
        requires
            old(self)@.wf(),
            old(self).phase is LookingUp,
        ensures
            final(self)@ == on_lookup(old(self)@, metric_id).state,
            final(self)@.wf(),
            step_is(r, on_lookup(old(self)@, metric_id), 0),
    {
        let id: u64 = if metric_id <= i64::MAX as u64 {
            metric_id
        } else {
            0
        };
        match &self.action {
            Action::ToggleMetric { enabled, .. } => {
                let request: GrpcRequest = GrpcRequest::ToggleMetric {
                    metric_id: id,
                    enabled: *enabled,
                };
                self.phase = GrpcPhase::Calling;
                GrpcStep::Send(request)
            },
            _ => if id == 0 {
                self.phase = GrpcPhase::Over;
                GrpcStep::Finish(Event::Events(Ok(ApiResponse::new(Vec::new()))))
            } else {
                self.phase = GrpcPhase::OpeningCall(id);
                GrpcStep::Connect
            },
        }
    }

    /// Takes what came of the last step.
    pub fn resume(&mut self, input: GrpcInput, now_micros: i64) -> (r: GrpcStep)
        requires
            old(self)@.wf(),
            call_accepts(old(self)@, input, now_micros),
        ensures
            final(self)@ == on_input(old(self)@, input).state,
            final(self)@.wf(),
            step_is(r, on_input(old(self)@, input), now_micros),
    {
        match input {
            GrpcInput::Connected { outcome } => match outcome {
                Ok(_) => self.connected(),
                Err(f) => {
                    self.phase = GrpcPhase::Over;
                    ended(&self.action, connection_error(f))
                },
            },
            GrpcInput::Answered { answer } => match answer {
                Err(e) => {
                    self.phase = GrpcPhase::Over;
                    ended(&self.action, GrpcClient::call_error(e.as_str()))
                },
                Ok(reply) => {
                    if let GrpcPhase::LookingUp = self.phase {
                        if let GrpcReply::Metric { metric_id, .. } = reply {
                            return self.looked_up(metric_id);
                        }
                        GrpcStep::Connect
                    } else {
                        self.phase = GrpcPhase::Over;
                        match read_reply(reply, now_micros) {
                            Ok(event) => GrpcStep::Finish(event),
                            Err(e) => ended(&self.action, e),
                        }
                    }
                },
            },
        }
    }
}

/// The number of steps that a call can still take.
pub open spec fn steps_left(s: CallView) -> nat {
    match s.phase {
        GrpcPhase::Opening => 5,
        GrpcPhase::OpeningLookup => 4,
        GrpcPhase::LookingUp => 3,
        GrpcPhase::OpeningCall(_) => 2,
        GrpcPhase::Calling => 1,
        GrpcPhase::Over => 0,
    }
}

/// A call always comes to its end: every input brings it closer, and it has ended exactly when
/// it no longer connects or sends.
pub proof fn law_call_ends(s: CallView, input: GrpcInput, now_micros: i64)
    requires
        s.wf(),
        call_accepts(s, input, now_micros),
    ensures
        ({
            let turn = on_input(s, input);
            &&& turn.state.wf()
            &&& steps_left(turn.state) < steps_left(s)
            &&& turn.state.phase is Over <==> !(turn.next is Connect || turn.next is Send)
        }),
{
}

/// Whatever ends a call, the event is of the kind that answers its action.
pub proof fn law_call_answers_its_action(
    s: CallView,
    input: GrpcInput,
    now_micros: i64,
    event: Event,
)
    requires
        s.wf(),
        call_accepts(s, input, now_micros),
        step_is(GrpcStep::Finish(event), on_input(s, input), now_micros),
    ensures
        event.spec_kind() == s.action.answer(),
{
}

} // verus!
