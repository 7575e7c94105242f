//! Requests, responses and errors that all API backends share.

use vstd::prelude::*;

use crate::json::Json;
use crate::text::{cat2, clone_opt, opt_view, same_text, views};

pub mod laws;

verus! {

// ---------------------------------------------------------------------------
// Responses
// ---------------------------------------------------------------------------

/// The data of a successful call, with the raw response where the backend keeps it.
#[derive(Debug)]
pub struct ApiResponse<T> {
    pub data: T,
    pub raw_response: Option<String>,
}

impl<T> ApiResponse<T> {
    /// A response without raw text.
    pub fn new(data: T) -> (r: Self)
        ensures
            r == (ApiResponse { data, raw_response: None::<String> }),
    {
        Self { data, raw_response: None }
    }

    /// The response with its raw text.
    pub fn with_raw(self, raw: String) -> (r: Self)
        ensures
            r == (ApiResponse { data: self.data, raw_response: Some(raw) }),
    {
        Self { data: self.data, raw_response: Some(raw) }
    }
}

/// A debugger connection as an API reports it.
#[derive(Debug, Clone)]
pub struct ConnectionInfo {
    pub connection_id: String,
    pub host: String,
    pub port: u16,
    pub language: String,
    pub status: String,
    pub safe_mode: bool,
}

/// The mathematical counterpart of [`ConnectionInfo`].
pub struct ConnectionInfoView {
    pub connection_id: Seq<char>,
    pub host: Seq<char>,
    pub port: u16,
    pub language: Seq<char>,
    pub status: Seq<char>,
    pub safe_mode: bool,
}

impl View for ConnectionInfo {
    type V = ConnectionInfoView;

    open spec fn view(&self) -> ConnectionInfoView {
        ConnectionInfoView {
            connection_id: self.connection_id@,
            host: self.host@,
            port: self.port,
            language: self.language@,
            status: self.status@,
            safe_mode: self.safe_mode,
        }
    }
}

/// A metric as an API reports it. `expressions` lists everything that the metric captures;
/// `expression` is the first of them.
#[derive(Debug, Clone)]
pub struct MetricInfo {
    pub name: String,
    pub location: String,
    pub expression: String,
    pub expressions: Vec<String>,
    pub group: Option<String>,
    pub enabled: bool,
    pub mode: Option<String>,
}

/// The mathematical counterpart of [`MetricInfo`].
pub struct MetricInfoView {
    pub name: Seq<char>,
    pub location: Seq<char>,
    pub expression: Seq<char>,
    pub expressions: Seq<Seq<char>>,
    pub group: Option<Seq<char>>,
    pub enabled: bool,
    pub mode: Option<Seq<char>>,
}

impl View for MetricInfo {
    type V = MetricInfoView;

    open spec fn view(&self) -> MetricInfoView {
        MetricInfoView {
            name: self.name@,
            location: self.location@,
            expression: self.expression@,
            expressions: views(self.expressions@),
            group: opt_view(self.group),
            enabled: self.enabled,
            mode: opt_view(self.mode),
        }
    }
}

/// The position of the first metric with the name; the number of metrics where there is none.
pub open spec fn metric_index(list: Seq<MetricInfo>, name: Seq<char>) -> nat
    decreases list.len(),
{
    if list.len() == 0 || list[0].name@ == name {
        0
    } else {
        1 + metric_index(list.drop_first(), name)
    }
}

proof fn lemma_metric_index_is(list: Seq<MetricInfo>, name: Seq<char>, k: nat)
    requires
        k <= list.len(),
        k < list.len() ==> list[k as int].name@ == name,
        forall|j: int| 0 <= j < k ==> (#[trigger] list[j]).name@ != name,
    ensures
        metric_index(list, name) == k,
    decreases list.len(),
{
    if k > 0 {
        assert(list[0].name@ != name);
        let t = list.drop_first();
        assert forall|j: int| 0 <= j < k - 1 implies (#[trigger] t[j]).name@ != name by {
            assert(t[j] == list[j + 1]);
        }
        lemma_metric_index_is(t, name, (k - 1) as nat);
    }
}

/// The position of the first metric with the name; the number of metrics where there is none.
pub fn find_metric(list: &Vec<MetricInfo>, name: &str) -> (r: usize)
    ensures
        r <= list.len(),
        r == metric_index(list@, name@),
        r < list.len() ==> list@[r as int].name@ == name@,
{
    let mut i: usize = 0;
    while i < list.len()
        invariant
            i <= list.len(),
            forall|j: int| 0 <= j < i ==> (#[trigger] list@[j]).name@ != name@,
        decreases list.len() - i,
    {
        if same_text(list[i].name.as_str(), name) {
            proof {
                lemma_metric_index_is(list@, name@, i as nat);
            }
            return i;
        }
        i = i + 1;
    }
    proof {
        lemma_metric_index_is(list@, name@, i as nat);
    }
    i
}

/// One frame of a captured stack trace.
#[derive(Debug, Clone)]
pub struct StackFrame {
    pub name: String,
    pub file: Option<String>,
    pub line: Option<u32>,
}

/// A captured stack trace.
#[derive(Debug, Clone)]
pub struct CapturedStackTrace {
    pub frames: Vec<StackFrame>,
}

/// A variable in a memory snapshot.
#[derive(Debug, Clone)]
pub struct SnapshotVariable {
    pub name: String,
    pub value: String,
}

/// A captured memory snapshot.
#[derive(Debug, Clone)]
pub struct MemorySnapshot {
    pub locals: Vec<SnapshotVariable>,
    pub globals: Vec<SnapshotVariable>,
}

/// An event of a metric. `values` holds one JSON value per captured expression.
#[derive(Debug)]
pub struct EventInfo {
    pub metric_name: String,
    pub value: String,
    pub values: Vec<Json>,
    pub timestamp_iso: String,
    pub age_seconds: i64,
    pub is_error: bool,
    pub stack_trace: Option<CapturedStackTrace>,
    pub memory_snapshot: Option<MemorySnapshot>,
    /// Further members of the event as it was sent, by their names; no name occurs twice.
    pub extra: Vec<(String, Json)>,
}

/// The state of the daemon.
#[derive(Debug, Clone)]
pub struct StatusInfo {
    pub mode: String,
    pub uptime_seconds: u64,
    pub active_connections: usize,
    pub total_metrics: usize,
    pub enabled_metrics: usize,
}

/// The mathematical counterpart of [`StatusInfo`].
pub struct StatusInfoView {
    pub mode: Seq<char>,
    pub uptime_seconds: u64,
    pub active_connections: usize,
    pub total_metrics: usize,
    pub enabled_metrics: usize,
}

impl View for StatusInfo {
    type V = StatusInfoView;

    open spec fn view(&self) -> StatusInfoView {
        StatusInfoView {
            mode: self.mode@,
            uptime_seconds: self.uptime_seconds,
            active_connections: self.active_connections,
            total_metrics: self.total_metrics,
            enabled_metrics: self.enabled_metrics,
        }
    }
}

/// The finding on an expression.
#[derive(Debug, Clone)]
pub struct ValidationResult {
    pub is_safe: bool,
    pub issues: Vec<String>,
}

/// The mathematical counterpart of [`ValidationResult`].
pub struct ValidationResultView {
    pub is_safe: bool,
    pub issues: Seq<Seq<char>>,
}

impl View for ValidationResult {
    type V = ValidationResultView;

    open spec fn view(&self) -> ValidationResultView {
        ValidationResultView {
            is_safe: self.is_safe,
            issues: views(self.issues@),
        }
    }
}

/// A metric group.
#[derive(Debug, Clone)]
pub struct GroupInfo {
    pub name: String,
    pub metric_count: u32,
    pub enabled_count: u32,
}

/// The mathematical counterpart of [`GroupInfo`].
pub struct GroupInfoView {
    pub name: Seq<char>,
    pub metric_count: u32,
    pub enabled_count: u32,
}

impl View for GroupInfo {
    type V = GroupInfoView;

    open spec fn view(&self) -> GroupInfoView {
        GroupInfoView {
            name: self.name@,
            metric_count: self.metric_count,
            enabled_count: self.enabled_count,
        }
    }
}

/// How often an error code occurred in MCP calls.
#[derive(Debug, Clone)]
pub struct McpErrorCountInfo {
    pub code: String,
    pub count: u64,
}

/// How MCP sessions followed the recommended workflow.
#[derive(Debug, Clone)]
pub struct McpWorkflowInfo {
    pub correct_workflows: u64,
    pub skipped_inspect: u64,
    pub no_connection: u64,
    /// The share of correct workflows in percent, with one decimal.
    pub adherence_percent: String,
}

/// Statistics of MCP tool usage. Rates come as text, as they are shown.
#[derive(Debug, Clone)]
pub struct McpUsageInfo {
    pub total_calls: u64,
    pub total_success: u64,
    pub total_errors: u64,
    /// The share of successful calls in percent, with one decimal.
    pub success_percent: String,
    /// The average latency in milliseconds, with one decimal.
    pub avg_latency: String,
    pub top_errors: Vec<McpErrorCountInfo>,
    pub workflow: McpWorkflowInfo,
}

/// An event of the daemon itself.
#[derive(Debug)]
pub struct SystemEventInfo {
    pub id: Option<i64>,
    pub event_type: String,
    pub timestamp_iso: String,
    pub age_seconds: i64,
    pub connection_id: Option<String>,
    pub metric_id: Option<i64>,
    pub metric_name: Option<String>,
    pub details: Option<Json>,
    pub acknowledged: bool,
    pub timestamp_us: i64,
}

/// The event types that concern a connection.
pub open spec fn connection_event_type(t: Seq<char>) -> bool {
    t == "connection_created"@ || t == "connection_closed"@ || t == "connection_lost"@ || t
        == "connection_restored"@
}

/// The event types after which a connection is gone.
pub open spec fn disconnection_event_type(t: Seq<char>) -> bool {
    t == "connection_closed"@ || t == "connection_lost"@ || t == "debugger_crash"@
}

/// The event types that concern a metric.
pub open spec fn metric_event_type(t: Seq<char>) -> bool {
    t == "metric_added"@ || t == "metric_removed"@ || t == "metric_toggled"@
}

/// The event type of a crashed debugger.
pub open spec fn crash_event_type(t: Seq<char>) -> bool {
    t == "debugger_crash"@
}

impl SystemEventInfo {
    fn is_type(&self, event_type: &str) -> (r: bool)
        ensures
            r == (self.event_type@ == event_type@),
    {
        self.event_type == event_type.to_owned()
    }

    /// Whether the event concerns a connection.
    pub fn is_connection_event(&self) -> (r: bool)
        ensures
            r == connection_event_type(self.event_type@),
    {
        self.is_type("connection_created") || self.is_type("connection_closed") || self.is_type(
            "connection_lost",
        ) || self.is_type("connection_restored")
    }

    /// Whether a connection is gone after the event.
    pub fn is_disconnection_event(&self) -> (r: bool)
        ensures
            r == disconnection_event_type(self.event_type@),
    {
        self.is_type("connection_closed") || self.is_type("connection_lost") || self.is_type(
            "debugger_crash",
        )
    }

    /// Whether the event concerns a metric.
    pub fn is_metric_event(&self) -> (r: bool)
        ensures
            r == metric_event_type(self.event_type@),
    {
        self.is_type("metric_added") || self.is_type("metric_removed") || self.is_type(
            "metric_toggled",
        )
    }

    /// Whether the event is a crash of the debugger.
    pub fn is_crash_event(&self) -> (r: bool)
        ensures
            r == crash_event_type(self.event_type@),
    {
        self.is_type("debugger_crash")
    }
}

/// A crash takes the connection with it, and no event is both about a connection or a crash
/// and about a metric.
pub proof fn law_event_classes(t: Seq<char>)
    ensures
        crash_event_type(t) ==> disconnection_event_type(t),
        disconnection_event_type(t) && !crash_event_type(t) ==> connection_event_type(t),
        metric_event_type(t) ==> !connection_event_type(t) && !disconnection_event_type(t),
{
    reveal_strlit("metric_added");
    reveal_strlit("metric_removed");
    reveal_strlit("metric_toggled");
    reveal_strlit("connection_created");
    reveal_strlit("connection_closed");
    reveal_strlit("connection_lost");
    reveal_strlit("connection_restored");
    reveal_strlit("debugger_crash");
    assert("metric_added"@[0] == 'm');
    assert("metric_removed"@[0] == 'm');
    assert("metric_toggled"@[0] == 'm');
    assert("connection_created"@[0] == 'c');
    assert("connection_closed"@[0] == 'c');
    assert("connection_lost"@[0] == 'c');
    assert("connection_restored"@[0] == 'c');
    assert("debugger_crash"@[0] == 'd');
}

// ---------------------------------------------------------------------------
// Adding a metric
// ---------------------------------------------------------------------------

/// The request to add a metric. The connection is required: a metric belongs to exactly one
/// debugger connection.
#[derive(Debug, Clone)]
pub struct AddMetricRequest {
    pub name: String,
    pub location: String,
    /// What the metric captures first.
    pub expression: String,
    /// Everything that the metric captures.
    pub expressions: Vec<String>,
    pub connection_id: String,
    pub language: Option<String>,
    pub group: Option<String>,
    pub mode: Option<String>,
    pub enabled: Option<bool>,
    pub sample_rate: Option<u32>,
    pub sample_interval_seconds: Option<u32>,
    pub max_per_second: Option<u32>,
    pub capture_stack_trace: Option<bool>,
    pub stack_trace_ttl: Option<u64>,
    pub stack_trace_full: Option<bool>,
    pub stack_trace_head: Option<u32>,
    pub stack_trace_tail: Option<u32>,
    pub capture_memory_snapshot: Option<bool>,
    pub snapshot_scope: Option<String>,
    pub snapshot_ttl: Option<u64>,
}

/// The mathematical counterpart of [`AddMetricRequest`].
pub struct AddMetricRequestView {
    pub name: Seq<char>,
    pub location: Seq<char>,
    pub expression: Seq<char>,
    pub expressions: Seq<Seq<char>>,
    pub connection_id: Seq<char>,
    pub language: Option<Seq<char>>,
    pub group: Option<Seq<char>>,
    pub mode: Option<Seq<char>>,
    pub enabled: Option<bool>,
    pub sample_rate: Option<u32>,
    pub sample_interval_seconds: Option<u32>,
    pub max_per_second: Option<u32>,
    pub capture_stack_trace: Option<bool>,
    pub stack_trace_ttl: Option<u64>,
    pub stack_trace_full: Option<bool>,
    pub stack_trace_head: Option<u32>,
    pub stack_trace_tail: Option<u32>,
    pub capture_memory_snapshot: Option<bool>,
    pub snapshot_scope: Option<Seq<char>>,
    pub snapshot_ttl: Option<u64>,
}

impl View for AddMetricRequest {
    type V = AddMetricRequestView;

    open spec fn view(&self) -> AddMetricRequestView {
        AddMetricRequestView {
            name: self.name@,
            location: self.location@,
            expression: self.expression@,
            expressions: views(self.expressions@),
            connection_id: self.connection_id@,
            language: opt_view(self.language),
            group: opt_view(self.group),
            mode: opt_view(self.mode),
            enabled: self.enabled,
            sample_rate: self.sample_rate,
            sample_interval_seconds: self.sample_interval_seconds,
            max_per_second: self.max_per_second,
            capture_stack_trace: self.capture_stack_trace,
            stack_trace_ttl: self.stack_trace_ttl,
            stack_trace_full: self.stack_trace_full,
            stack_trace_head: self.stack_trace_head,
            stack_trace_tail: self.stack_trace_tail,
            capture_memory_snapshot: self.capture_memory_snapshot,
            snapshot_scope: opt_view(self.snapshot_scope),
            snapshot_ttl: self.snapshot_ttl,
        }
    }
}

/// The request that gives the required fields and leaves every other one to the daemon.
pub open spec fn bare_request(
    name: Seq<char>,
    location: Seq<char>,
    expressions: Seq<Seq<char>>,
    connection_id: Seq<char>,
) -> AddMetricRequestView {
    AddMetricRequestView {
        name,
        location,
        expression: if expressions.len() > 0 {
            expressions[0]
        } else {
            Seq::empty()
        },
        expressions,
        connection_id,
        language: None,
        group: None,
        mode: None,
        enabled: None,
        sample_rate: None,
        sample_interval_seconds: None,
        max_per_second: None,
        capture_stack_trace: None,
        stack_trace_ttl: None,
        stack_trace_full: None,
        stack_trace_head: None,
        stack_trace_tail: None,
        capture_memory_snapshot: None,
        snapshot_scope: None,
        snapshot_ttl: None,
    }
}

impl AddMetricRequest {
    /// A request for one expression.
    pub fn new(name: &str, location: &str, expression: &str, connection_id: &str) -> (r: Self)
        ensures
            r@ == bare_request(name@, location@, seq![expression@], connection_id@),
    {
        let mut expressions: Vec<String> = Vec::new();
        expressions.push(expression.to_owned());
        assert(views(expressions@) =~= seq![expression@]);
        Self::new_multi(name, location, expressions, connection_id)
    }

    /// A request for several expressions on one line.
    pub fn new_multi(
        name: &str,
        location: &str,
        expressions: Vec<String>,
        connection_id: &str,
    ) -> (r: Self)
        ensures
            r@ == bare_request(name@, location@, views(expressions@), connection_id@),
    {
        let expression: String = if expressions.len() > 0 {
            expressions[0].clone()
        } else {
            String::new()
        };
        Self {
            name: name.to_owned(),
            location: location.to_owned(),
            expression,
            expressions,
            connection_id: connection_id.to_owned(),
            language: None,
            group: None,
            mode: None,
            enabled: None,
            sample_rate: None,
            sample_interval_seconds: None,
            max_per_second: None,
            capture_stack_trace: None,
            stack_trace_ttl: None,
            stack_trace_full: None,
            stack_trace_head: None,
            stack_trace_tail: None,
            capture_memory_snapshot: None,
            snapshot_scope: None,
            snapshot_ttl: None,
        }
    }

    /// Sets the language of the metric.
    pub fn with_language(self, language: &str) -> (r: Self)
        ensures
            r@ == (AddMetricRequestView { language: Some(language@), ..self@ }),
    {
        let mut r = self;
        r.language = Some(language.to_owned());
        r
    }

    /// Puts the metric in a group.
    pub fn with_group(self, group: &str) -> (r: Self)
        ensures
            r@ == (AddMetricRequestView { group: Some(group@), ..self@ }),
    {
        let mut r = self;
        r.group = Some(group.to_owned());
        r
    }

    /// Sets the capture mode.
    pub fn with_mode(self, mode: &str) -> (r: Self)
        ensures
            r@ == (AddMetricRequestView { mode: Some(mode@), ..self@ }),
    {
        let mut r = self;
        r.mode = Some(mode.to_owned());
        r
    }

    /// Sets whether the metric starts enabled.
    pub fn with_enabled(self, enabled: bool) -> (r: Self)
        ensures
            r@ == (AddMetricRequestView { enabled: Some(enabled), ..self@ }),
    {
        let mut r = self;
        r.enabled = Some(enabled);
        r
    }

    /// Lets the metric start disabled.
    pub fn disabled(self) -> (r: Self)
        ensures
            r@ == (AddMetricRequestView { enabled: Some(false), ..self@ }),
    {
        let mut r = self;
        r.enabled = Some(false);
        r
    }

    /// A request for one expression, in a group.
    pub fn new_with_group(
        name: &str,
        location: &str,
        expression: &str,
        connection_id: &str,
        group: &str,
    ) -> (r: Self)
        ensures
            r@ == (AddMetricRequestView {
                group: Some(group@),
                ..bare_request(name@, location@, seq![expression@], connection_id@)
            }),
    {
        Self::new(name, location, expression, connection_id).with_group(group)
    }

    /// Captures stack traces.
    pub fn with_stack_trace(self) -> (r: Self)
        ensures
            r@ == (AddMetricRequestView { capture_stack_trace: Some(true), ..self@ }),
    {
        let mut r = self;
        r.capture_stack_trace = Some(true);
        r
    }

    /// Captures stack traces for a number of seconds.
    pub fn with_stack_trace_ttl(self, ttl_seconds: u64) -> (r: Self)
        ensures
            r@ == (AddMetricRequestView {
                capture_stack_trace: Some(true),
                stack_trace_ttl: Some(ttl_seconds),
                ..self@
            }),
    {
        let mut r = self;
        r.capture_stack_trace = Some(true);
        r.stack_trace_ttl = Some(ttl_seconds);
        r
    }

    /// Captures whole stack traces.
    pub fn with_full_stack_trace(self) -> (r: Self)
        ensures
            r@ == (AddMetricRequestView {
                capture_stack_trace: Some(true),
                stack_trace_full: Some(true),
                ..self@
            }),
    {
        let mut r = self;
        r.capture_stack_trace = Some(true);
        r.stack_trace_full = Some(true);
        r
    }

    /// Captures the first and the last frames of stack traces.
    pub fn with_stack_trace_slice(self, head: u32, tail: u32) -> (r: Self)
        ensures
            r@ == (AddMetricRequestView {
                capture_stack_trace: Some(true),
                stack_trace_head: Some(head),
                stack_trace_tail: Some(tail),
                ..self@
            }),
    {
        let mut r = self;
        r.capture_stack_trace = Some(true);
        r.stack_trace_head = Some(head);
        r.stack_trace_tail = Some(tail);
        r
    }

    /// Captures memory snapshots.
    pub fn with_memory_snapshot(self) -> (r: Self)
        ensures
            r@ == (AddMetricRequestView { capture_memory_snapshot: Some(true), ..self@ }),
    {
        let mut r = self;
        r.capture_memory_snapshot = Some(true);
        r
    }

    /// Captures memory snapshots for a number of seconds.
    pub fn with_memory_snapshot_ttl(self, ttl_seconds: u64) -> (r: Self)
        ensures
            r@ == (AddMetricRequestView {
                capture_memory_snapshot: Some(true),
                snapshot_ttl: Some(ttl_seconds),
                ..self@
            }),
    {
        let mut r = self;
        r.capture_memory_snapshot = Some(true);
        r.snapshot_ttl = Some(ttl_seconds);
        r
    }

    /// Captures memory snapshots of a scope.
    pub fn with_memory_snapshot_scope(self, scope: &str) -> (r: Self)
        ensures
            r@ == (AddMetricRequestView {
                capture_memory_snapshot: Some(true),
                snapshot_scope: Some(scope@),
                ..self@
            }),
    {
        let mut r = self;
        r.capture_memory_snapshot = Some(true);
        r.snapshot_scope = Some(scope.to_owned());
        r
    }

    /// Captures stack traces and memory snapshots.
    pub fn with_introspection(self) -> (r: Self)
        ensures
            r@ == (AddMetricRequestView {
                capture_stack_trace: Some(true),
                capture_memory_snapshot: Some(true),
                ..self@
            }),
    {
        let mut r = self;
        r.capture_stack_trace = Some(true);
        r.capture_memory_snapshot = Some(true);
        r
    }
}

// ---------------------------------------------------------------------------
// Observing
// ---------------------------------------------------------------------------

/// The request of the observe tool, which finds line, connection and name by itself where they
/// are left open.
#[derive(Debug, Clone)]
pub struct ObserveRequest {
    pub file: String,
    pub expression: String,
    pub expressions: Vec<String>,
    pub line: Option<u32>,
    pub connection_id: Option<String>,
    pub name: Option<String>,
    pub find_variable: Option<String>,
    pub group: Option<String>,
    pub capture_stack_trace: Option<bool>,
    pub capture_memory_snapshot: Option<bool>,
    pub ttl_seconds: Option<i64>,
}

/// The mathematical counterpart of [`ObserveRequest`].
pub struct ObserveRequestView {
    pub file: Seq<char>,
    pub expression: Seq<char>,
    pub expressions: Seq<Seq<char>>,
    pub line: Option<u32>,
    pub connection_id: Option<Seq<char>>,
    pub name: Option<Seq<char>>,
    pub find_variable: Option<Seq<char>>,
    pub group: Option<Seq<char>>,
    pub capture_stack_trace: Option<bool>,
    pub capture_memory_snapshot: Option<bool>,
    pub ttl_seconds: Option<i64>,
}

impl View for ObserveRequest {
    type V = ObserveRequestView;

    open spec fn view(&self) -> ObserveRequestView {
        ObserveRequestView {
            file: self.file@,
            expression: self.expression@,
            expressions: views(self.expressions@),
            line: self.line,
            connection_id: opt_view(self.connection_id),
            name: opt_view(self.name),
            find_variable: opt_view(self.find_variable),
            group: opt_view(self.group),
            capture_stack_trace: self.capture_stack_trace,
            capture_memory_snapshot: self.capture_memory_snapshot,
            ttl_seconds: self.ttl_seconds,
        }
    }
}

/// The observe request that gives file and expression only.
pub open spec fn bare_observe(file: Seq<char>, expression: Seq<char>) -> ObserveRequestView {
    ObserveRequestView {
        file,
        expression,
        expressions: seq![expression],
        line: None,
        connection_id: None,
        name: None,
        find_variable: None,
        group: None,
        capture_stack_trace: None,
        capture_memory_snapshot: None,
        ttl_seconds: None,
    }
}

impl ObserveRequest {
    /// A request with file and expression only.
    pub fn new(file: &str, expression: &str) -> (r: Self)
        ensures
            r@ == bare_observe(file@, expression@),
    {
        let mut expressions: Vec<String> = Vec::new();
        expressions.push(expression.to_owned());
        let r = Self {
            file: file.to_owned(),
            expression: expression.to_owned(),
            expressions,
            line: None,
            connection_id: None,
            name: None,
            find_variable: None,
            group: None,
            capture_stack_trace: None,
            capture_memory_snapshot: None,
            ttl_seconds: None,
        };
        assert(r@.expressions =~= seq![expression@]);
        r
    }

    /// Fixes the line.
    pub fn with_line(self, line: u32) -> (r: Self)
        ensures
            r@ == (ObserveRequestView { line: Some(line), ..self@ }),
    {
        let mut r = self;
        r.line = Some(line);
        r
    }

    /// Fixes the connection.
    pub fn with_connection_id(self, connection_id: &str) -> (r: Self)
        ensures
            r@ == (ObserveRequestView { connection_id: Some(connection_id@), ..self@ }),
    {
        let mut r = self;
        r.connection_id = Some(connection_id.to_owned());
        r
    }

    /// Fixes the name.
    pub fn with_name(self, name: &str) -> (r: Self)
        ensures
            r@ == (ObserveRequestView { name: Some(name@), ..self@ }),
    {
        let mut r = self;
        r.name = Some(name.to_owned());
        r
    }

    /// Sets the variable by which the line is found.
    pub fn with_find_variable(self, var: &str) -> (r: Self)
        ensures
            r@ == (ObserveRequestView { find_variable: Some(var@), ..self@ }),
    {
        let mut r = self;
        r.find_variable = Some(var.to_owned());
        r
    }

    /// Puts the metric in a group.
    pub fn with_group(self, group: &str) -> (r: Self)
        ensures
            r@ == (ObserveRequestView { group: Some(group@), ..self@ }),
    {
        let mut r = self;
        r.group = Some(group.to_owned());
        r
    }

    /// Captures stack traces.
    pub fn with_stack_trace(self) -> (r: Self)
        ensures
            r@ == (ObserveRequestView { capture_stack_trace: Some(true), ..self@ }),
    {
        let mut r = self;
        r.capture_stack_trace = Some(true);
        r
    }

    /// Captures memory snapshots.
    pub fn with_memory_snapshot(self) -> (r: Self)
        ensures
            r@ == (ObserveRequestView { capture_memory_snapshot: Some(true), ..self@ }),
    {
        let mut r = self;
        r.capture_memory_snapshot = Some(true);
        r
    }

    /// Captures stack traces and memory snapshots.
    pub fn with_introspection(self) -> (r: Self)
        ensures
            r@ == (ObserveRequestView {
                capture_stack_trace: Some(true),
                capture_memory_snapshot: Some(true),
                ..self@
            }),
    {
        let mut r = self;
        r.capture_stack_trace = Some(true);
        r.capture_memory_snapshot = Some(true);
        r
    }

    /// Limits the lifetime of introspection data.
    pub fn with_ttl(self, seconds: i64) -> (r: Self)
        ensures
            r@ == (ObserveRequestView { ttl_seconds: Some(seconds), ..self@ }),
    {
        let mut r = self;
        r.ttl_seconds = Some(seconds);
        r
    }
}

/// The answer of the observe tool.
#[derive(Debug, Clone)]
pub struct ObserveResponse {
    pub success: bool,
    pub metric_id: i64,
    pub metric_name: String,
    pub file: String,
    pub line: u32,
    pub expression: String,
    pub line_source: String,
    pub connection_id: String,
    pub alternatives: Vec<(u32, String)>,
    pub warnings: Vec<String>,
}

/// The mathematical counterpart of [`ObserveResponse`].
pub struct ObserveResponseView {
    pub success: bool,
    pub metric_id: i64,
    pub metric_name: Seq<char>,
    pub file: Seq<char>,
    pub line: u32,
    pub expression: Seq<char>,
    pub line_source: Seq<char>,
    pub connection_id: Seq<char>,
    pub alternatives: Seq<(u32, Seq<char>)>,
    pub warnings: Seq<Seq<char>>,
}

impl View for ObserveResponse {
    type V = ObserveResponseView;

    open spec fn view(&self) -> ObserveResponseView {
        ObserveResponseView {
            success: self.success,
            metric_id: self.metric_id,
            metric_name: self.metric_name@,
            file: self.file@,
            line: self.line,
            expression: self.expression@,
            line_source: self.line_source@,
            connection_id: self.connection_id@,
            alternatives: self.alternatives@.map_values(|a: (u32, String)| (a.0, a.1@)),
            warnings: views(self.warnings@),
        }
    }
}

// ---------------------------------------------------------------------------
// Metrics from a diff
// ---------------------------------------------------------------------------

/// The request of the enable_from_diff tool, which turns the print statements that a diff adds
/// into metrics.
#[derive(Debug, Clone)]
pub struct EnableFromDiffRequest {
    pub diff: String,
    pub connection_id: Option<String>,
    pub group: Option<String>,
    pub ttl_seconds: Option<i64>,
}

/// The mathematical counterpart of [`EnableFromDiffRequest`].
pub struct EnableFromDiffRequestView {
    pub diff: Seq<char>,
    pub connection_id: Option<Seq<char>>,
    pub group: Option<Seq<char>>,
    pub ttl_seconds: Option<i64>,
}

impl View for EnableFromDiffRequest {
    type V = EnableFromDiffRequestView;

    open spec fn view(&self) -> EnableFromDiffRequestView {
        EnableFromDiffRequestView {
            diff: self.diff@,
            connection_id: opt_view(self.connection_id),
            group: opt_view(self.group),
            ttl_seconds: self.ttl_seconds,
        }
    }
}

impl EnableFromDiffRequest {
    /// A request with the diff only.
    pub fn new(diff: &str) -> (r: Self)
        ensures
            r@ == (EnableFromDiffRequestView {
                diff: diff@,
                connection_id: None,
                group: None,
                ttl_seconds: None,
            }),
    {
        Self { diff: diff.to_owned(), connection_id: None, group: None, ttl_seconds: None }
    }

    /// Fixes the connection.
    pub fn with_connection_id(self, id: &str) -> (r: Self)
        ensures
            r@ == (EnableFromDiffRequestView { connection_id: Some(id@), ..self@ }),
    {
        let mut r = self;
        r.connection_id = Some(id.to_owned());
        r
    }

    /// Puts the metrics in a group.
    pub fn with_group(self, group: &str) -> (r: Self)
        ensures
            r@ == (EnableFromDiffRequestView { group: Some(group@), ..self@ }),
    {
        let mut r = self;
        r.group = Some(group.to_owned());
        r
    }

    /// Limits the lifetime of the metrics.
    pub fn with_ttl(self, seconds: i64) -> (r: Self)
        ensures
            r@ == (EnableFromDiffRequestView { ttl_seconds: Some(seconds), ..self@ }),
    {
        let mut r = self;
        r.ttl_seconds = Some(seconds);
        r
    }
}

/// A metric that a diff gave.
#[derive(Debug, Clone)]
pub struct DiffMetricAdded {
    pub name: String,
    pub file: String,
    pub line: u32,
    pub id: i64,
}

/// The mathematical counterpart of [`DiffMetricAdded`].
pub struct DiffMetricAddedView {
    pub name: Seq<char>,
    pub file: Seq<char>,
    pub line: u32,
    pub id: i64,
}

impl View for DiffMetricAdded {
    type V = DiffMetricAddedView;

    open spec fn view(&self) -> DiffMetricAddedView {
        DiffMetricAddedView {
            name: self.name@,
            file: self.file@,
            line: self.line,
            id: self.id,
        }
    }
}

/// A statement of a diff that could not become a metric.
#[derive(Debug, Clone)]
pub struct DiffMetricFailed {
    pub file: String,
    pub line: u32,
    pub statement: String,
    pub error: String,
}

/// The mathematical counterpart of [`DiffMetricFailed`].
pub struct DiffMetricFailedView {
    pub file: Seq<char>,
    pub line: u32,
    pub statement: Seq<char>,
    pub error: Seq<char>,
}

impl View for DiffMetricFailed {
    type V = DiffMetricFailedView;

    open spec fn view(&self) -> DiffMetricFailedView {
        DiffMetricFailedView {
            file: self.file@,
            line: self.line,
            statement: self.statement@,
            error: self.error@,
        }
    }
}

/// A statement of a diff that a person has to look at.
#[derive(Debug, Clone)]
pub struct DiffMetricNeedsReview {
    pub file: String,
    pub line: u32,
    pub statement: String,
    pub suggested_expression: String,
}

/// The mathematical counterpart of [`DiffMetricNeedsReview`].
pub struct DiffMetricNeedsReviewView {
    pub file: Seq<char>,
    pub line: u32,
    pub statement: Seq<char>,
    pub suggested_expression: Seq<char>,
}

impl View for DiffMetricNeedsReview {
    type V = DiffMetricNeedsReviewView;

    open spec fn view(&self) -> DiffMetricNeedsReviewView {
        DiffMetricNeedsReviewView {
            file: self.file@,
            line: self.line,
            statement: self.statement@,
            suggested_expression: self.suggested_expression@,
        }
    }
}

/// The answer of the enable_from_diff tool.
#[derive(Debug, Clone)]
pub struct EnableFromDiffResponse {
    pub success: bool,
    pub added: Vec<DiffMetricAdded>,
    pub failed: Vec<DiffMetricFailed>,
    pub needs_review: Vec<DiffMetricNeedsReview>,
    pub connection_id: String,
}

/// The mathematical counterpart of [`EnableFromDiffResponse`].
pub struct EnableFromDiffResponseView {
    pub success: bool,
    pub added: Seq<DiffMetricAddedView>,
    pub failed: Seq<DiffMetricFailedView>,
    pub needs_review: Seq<DiffMetricNeedsReviewView>,
    pub connection_id: Seq<char>,
}

impl View for EnableFromDiffResponse {
    type V = EnableFromDiffResponseView;

    open spec fn view(&self) -> EnableFromDiffResponseView {
        EnableFromDiffResponseView {
            success: self.success,
            added: self.added@.map_values(|m: DiffMetricAdded| m@),
            failed: self.failed@.map_values(|m: DiffMetricFailed| m@),
            needs_review: self.needs_review@.map_values(|m: DiffMetricNeedsReview| m@),
            connection_id: self.connection_id@,
        }
    }
}

// ---------------------------------------------------------------------------
// Errors
// ---------------------------------------------------------------------------

/// The error of an API call.
#[derive(Debug, Clone)]
pub struct ApiError {
    pub message: String,
    pub code: Option<String>,
    pub raw_response: Option<String>,
}

/// The mathematical counterpart of [`ApiError`].
pub struct ApiErrorView {
    pub message: Seq<char>,
    pub code: Option<Seq<char>>,
    pub raw_response: Option<Seq<char>>,
}

impl View for ApiError {
    type V = ApiErrorView;

    open spec fn view(&self) -> ApiErrorView {
        ApiErrorView {
            message: self.message@,
            code: opt_view(self.code),
            raw_response: opt_view(self.raw_response),
        }
    }
}

/// An error with a message only.
pub open spec fn plain_error(message: Seq<char>) -> ApiErrorView {
    ApiErrorView { message, code: None, raw_response: None }
}

impl ApiError {
    /// An error with a message only.
    pub fn new(message: String) -> (r: Self)
        ensures
            r == (ApiError { message, code: None::<String>, raw_response: None::<String> }),
    {
        Self { message, code: None, raw_response: None }
    }

    /// The error with the raw response.
    pub fn with_raw(self, raw: String) -> (r: Self)
        ensures
            r == (ApiError { raw_response: Some(raw), ..self }),
    {
        Self { message: self.message, code: self.code, raw_response: Some(raw) }
    }

    /// A copy of the error.
    pub fn duplicate(&self) -> (r: Self)
        ensures
            r == *self,
    {
        Self {
            message: self.message.clone(),
            code: clone_opt(&self.code),
            raw_response: clone_opt(&self.raw_response),
        }
    }

    /// The text that the error is displayed as: its message.
    pub fn to_text(&self) -> (r: String)
        ensures
            r@ == self.message@,
    {
        self.message.clone()
    }
}

pub type ApiResult<T> = Result<ApiResponse<T>, ApiError>;

/// The error of a backend that does not offer the observe tool.
pub fn observe_unsupported(api_type: &str) -> (r: ApiError)
    ensures
        r@ == plain_error("observe tool is only supported on MCP backend, not "@ + api_type@),
{
    ApiError::new(cat2("observe tool is only supported on MCP backend, not ", api_type))
}

/// The error of a backend that does not offer the enable_from_diff tool.
pub fn enable_from_diff_unsupported(api_type: &str) -> (r: ApiError)
    ensures
        r@ == plain_error(
            "enable_from_diff tool is only supported on MCP backend, not "@ + api_type@,
        ),
{
    ApiError::new(cat2("enable_from_diff tool is only supported on MCP backend, not ", api_type))
}

} // verus!
