//! The REST backend: addresses, request bodies, and what answers mean.

use vstd::prelude::*;

pub mod calls;
pub mod laws;

use crate::client::{
    plain_error, AddMetricRequest, AddMetricRequestView, ApiError, ApiErrorView, ConnectionInfo,
    ConnectionInfoView, EventInfo, MetricInfo, StatusInfo,
};
use crate::exchange::{Action, ActionView};
use crate::grpc::{
    bare_location, has_age, listed_metric, located, located_view, metric_info, split_bare_location,
    strip_at, EventRecord, EventResult, MetricMessage,
};
use crate::json::{
    number_view, opt_number_json, opt_str_json, with_entry, Json, JsonObject, JsonView,
};
use crate::mcp::{opt_u32_int, opt_u64_int};
use crate::text::{
    cat2, cat3, cat4, cat5, cat7, clone_opt, decimal, num, num_signed, opt_view, same_text,
    signed_decimal,
};
use crate::times::{age_seconds, format_micros, rfc3339_micros, seconds_between};

verus! {

/// The address of a REST server.
#[derive(Debug)]
pub struct RestClient {
    pub base_url: String,
}

impl RestClient {
    /// The server on a port of this machine.
    pub fn new(http_port: u16) -> (r: Self)
        ensures
            r.base_url@ == "http://127.0.0.1:"@ + decimal(http_port as nat),
    {
        RestClient { base_url: cat2("http://127.0.0.1:", num(http_port as u64).as_str()) }
    }

    /// A server at a given address.
    pub fn with_base_url(base_url: String) -> (r: Self)
        ensures
            r.base_url == base_url,
    {
        RestClient { base_url }
    }
}

// ---------------------------------------------------------------------------
// Requests
// ---------------------------------------------------------------------------

/// The methods of HTTP that are in use.
#[derive(Debug, Clone, Copy, PartialEq, Eq, Structural)]
pub enum HttpMethod {
    Get,
    Post,
    Put,
    Delete,
}

/// An HTTP request.
#[derive(Debug)]
pub struct HttpRequest {
    pub method: HttpMethod,
    pub url: String,
    pub body: Option<Json>,
}

/// The mathematical counterpart of [`HttpRequest`].
pub struct HttpRequestView {
    pub method: HttpMethod,
    pub url: Seq<char>,
    pub body: Option<JsonView>,
}

impl View for HttpRequest {
    type V = HttpRequestView;

    open spec fn view(&self) -> HttpRequestView {
        HttpRequestView {
            method: self.method,
            url: self.url@,
            body: crate::json::opt_json_view(self.body),
        }
    }
}

/// A request without a body.
pub open spec fn bodiless(method: HttpMethod, url: Seq<char>) -> Option<HttpRequestView> {
    Some(HttpRequestView { method, url, body: None })
}

/// A request with a body.
pub open spec fn with_body(
    method: HttpMethod,
    url: Seq<char>,
    entries: Seq<(Seq<char>, JsonView)>,
) -> Option<HttpRequestView> {
    Some(HttpRequestView { method, url, body: Some(JsonView::Object(entries)) })
}

/// The request of an action; none for what needs a lookup first or is not offered.
pub open spec fn request_of(base: Seq<char>, action: ActionView) -> Option<HttpRequestView> {
    match action {
        ActionView::Health => bodiless(HttpMethod::Get, base + "/health"@),
        ActionView::GetStatus => bodiless(HttpMethod::Get, base + "/api/v1/status"@),
        ActionView::Wake => bodiless(HttpMethod::Post, base + "/api/v1/wake"@),
        ActionView::Sleep => bodiless(HttpMethod::Post, base + "/api/v1/sleep"@),
        ActionView::CreateConnection(host, port, language, program) => with_body(
            HttpMethod::Post,
            base + "/api/v1/connections"@,
            with_entry(
                seq![
                    ("host"@, JsonView::Str(host)),
                    ("port"@, number_view(port as int)),
                    ("language"@, JsonView::Str(language)),
                    ("safeMode"@, JsonView::Bool(false)),
                ],
                "program"@,
                opt_str_json(program),
            ),
        ),
        ActionView::CloseConnection(id) => bodiless(
            HttpMethod::Delete,
            base + "/api/v1/connections/"@ + id,
        ),
        ActionView::GetConnection(id) => bodiless(
            HttpMethod::Get,
            base + "/api/v1/connections/"@ + id,
        ),
        ActionView::ListConnections => bodiless(HttpMethod::Get, base + "/api/v1/connections"@),
        ActionView::ListMetrics => bodiless(HttpMethod::Get, base + "/api/v1/metrics"@),
        ActionView::QueryEvents(name, limit) => bodiless(
            HttpMethod::Get,
            base + "/api/v1/events?metric_name="@ + name + "&limit="@ + decimal(limit as nat),
        ),
        ActionView::EnableGroup(group) => bodiless(
            HttpMethod::Post,
            base + "/api/v1/groups/"@ + group + "/enable"@,
        ),
        ActionView::DisableGroup(group) => bodiless(
            HttpMethod::Post,
            base + "/api/v1/groups/"@ + group + "/disable"@,
        ),
        ActionView::ListGroups => bodiless(HttpMethod::Get, base + "/api/v1/groups"@),
        ActionView::ValidateExpression(expression, language) => with_body(
            HttpMethod::Post,
            base + "/api/v1/validate_expression"@,
            seq![
                ("expression"@, JsonView::Str(expression)),
                ("language"@, JsonView::Str(language)),
                ("safetyLevel"@, JsonView::Str("strict"@)),
            ],
        ),
        ActionView::InspectFile(path, line, variable) => with_body(
            HttpMethod::Post,
            base + "/api/v1/inspect_file"@,
            with_entry(
                with_entry(
                    seq![("filePath"@, JsonView::Str(path))],
                    "line"@,
                    opt_number_json(opt_u32_int(line)),
                ),
                "findVariable"@,
                opt_str_json(variable),
            ),
        ),
        ActionView::GetConfig => bodiless(HttpMethod::Get, base + "/api/v1/config"@),
        ActionView::UpdateConfig(toml, persist) => with_body(
            HttpMethod::Put,
            base + "/api/v1/config"@,
            seq![
                ("configToml"@, JsonView::Str(toml)),
                ("merge"@, JsonView::Bool(false)),
                ("persist"@, JsonView::Bool(persist)),
            ],
        ),
        ActionView::ValidateConfig(toml) => with_body(
            HttpMethod::Post,
            base + "/api/v1/config/validate"@,
            seq![("configToml"@, JsonView::Str(toml))],
        ),
        ActionView::ReloadConfig => with_body(
            HttpMethod::Post,
            base + "/api/v1/config/reload"@,
            Seq::empty(),
        ),
        ActionView::GetMcpUsage => bodiless(HttpMethod::Get, base + "/api/v1/mcp/usage"@),
        _ => None,
    }
}

fn bodiless_exec(method: HttpMethod, url: String) -> (r: Option<HttpRequest>)
    ensures
        r is Some,
        Some(r->0@) == bodiless(method, url@),
{
    Some(HttpRequest { method, url, body: None })
}

fn with_body_exec(method: HttpMethod, url: String, body: JsonObject) -> (r: Option<HttpRequest>)
    ensures
        r is Some,
        Some(r->0@) == with_body(method, url@, body@),
{
    Some(HttpRequest { method, url, body: Some(body.finish()) })
}

impl RestClient {
    /// The request of an action; none for what needs a lookup first or is not offered.
    pub fn request(&self, action: &Action) -> (r: Option<HttpRequest>)
        ensures
            r is Some <==> request_of(self.base_url@, action@) is Some,
            r matches Some(q) ==> request_of(self.base_url@, action@) == Some(q@),
    {
        let base: &str = self.base_url.as_str();
        match action {
            Action::Health => bodiless_exec(HttpMethod::Get, cat2(base, "/health")),
            Action::GetStatus => bodiless_exec(HttpMethod::Get, cat2(base, "/api/v1/status")),
            Action::Wake => bodiless_exec(HttpMethod::Post, cat2(base, "/api/v1/wake")),
            Action::Sleep => bodiless_exec(HttpMethod::Post, cat2(base, "/api/v1/sleep")),
            Action::CreateConnection { host, port, language, program } => {
                let mut o: JsonObject = JsonObject::new();
                o.put_str("host", host.as_str());
                o.put("port", Json::unsigned(*port as u64));
                o.put_str("language", language.as_str());
                o.put("safeMode", Json::Bool(false));
                assert(o@ =~= seq![
                    ("host"@, JsonView::Str(host@)),
                    ("port"@, number_view(*port as int)),
                    ("language"@, JsonView::Str(language@)),
                    ("safeMode"@, JsonView::Bool(false)),
                ]);
                o.put_opt_str("program", program);
                with_body_exec(HttpMethod::Post, cat2(base, "/api/v1/connections"), o)
            },
            Action::CloseConnection { id } => bodiless_exec(
                HttpMethod::Delete,
                cat3(base, "/api/v1/connections/", id.as_str()),
            ),
            Action::GetConnection { id } => bodiless_exec(
                HttpMethod::Get,
                cat3(base, "/api/v1/connections/", id.as_str()),
            ),
            Action::ListConnections => bodiless_exec(
                HttpMethod::Get,
                cat2(base, "/api/v1/connections"),
            ),
            Action::ListMetrics => bodiless_exec(HttpMethod::Get, cat2(base, "/api/v1/metrics")),
            Action::QueryEvents { name, limit } => bodiless_exec(
                HttpMethod::Get,
                cat5(
                    base,
                    "/api/v1/events?metric_name=",
                    name.as_str(),
                    "&limit=",
                    num(*limit as u64).as_str(),
                ),
            ),
            Action::EnableGroup { group } => bodiless_exec(
                HttpMethod::Post,
                cat4(base, "/api/v1/groups/", group.as_str(), "/enable"),
            ),
            Action::DisableGroup { group } => bodiless_exec(
                HttpMethod::Post,
                cat4(base, "/api/v1/groups/", group.as_str(), "/disable"),
            ),
            Action::ListGroups => bodiless_exec(HttpMethod::Get, cat2(base, "/api/v1/groups")),
            Action::ValidateExpression { expression, language } => {
                let mut o: JsonObject = JsonObject::new();
                o.put_str("expression", expression.as_str());
                o.put_str("language", language.as_str());
                o.put_str("safetyLevel", "strict");
                assert(o@ =~= seq![
                    ("expression"@, JsonView::Str(expression@)),
                    ("language"@, JsonView::Str(language@)),
                    ("safetyLevel"@, JsonView::Str("strict"@)),
                ]);
                with_body_exec(HttpMethod::Post, cat2(base, "/api/v1/validate_expression"), o)
            },
            Action::InspectFile { path, line, variable } => {
                let mut o: JsonObject = JsonObject::new();
                o.put_str("filePath", path.as_str());
                assert(o@ =~= seq![("filePath"@, JsonView::Str(path@))]);
                o.put_opt_u32("line", *line);
                o.put_opt_str("findVariable", variable);
                with_body_exec(HttpMethod::Post, cat2(base, "/api/v1/inspect_file"), o)
            },
            Action::GetConfig => bodiless_exec(HttpMethod::Get, cat2(base, "/api/v1/config")),
            Action::UpdateConfig { toml, persist } => {
                let mut o: JsonObject = JsonObject::new();
                o.put_str("configToml", toml.as_str());
                o.put("merge", Json::Bool(false));
                o.put("persist", Json::Bool(*persist));
                assert(o@ =~= seq![
                    ("configToml"@, JsonView::Str(toml@)),
                    ("merge"@, JsonView::Bool(false)),
                    ("persist"@, JsonView::Bool(*persist)),
                ]);
                with_body_exec(HttpMethod::Put, cat2(base, "/api/v1/config"), o)
            },
            Action::ValidateConfig { toml } => {
                let mut o: JsonObject = JsonObject::new();
                o.put_str("configToml", toml.as_str());
                assert(o@ =~= seq![("configToml"@, JsonView::Str(toml@))]);
                with_body_exec(HttpMethod::Post, cat2(base, "/api/v1/config/validate"), o)
            },
            Action::ReloadConfig => with_body_exec(
                HttpMethod::Post,
                cat2(base, "/api/v1/config/reload"),
                JsonObject::new(),
            ),
            Action::GetMcpUsage => bodiless_exec(HttpMethod::Get, cat2(base, "/api/v1/mcp/usage")),
            _ => None,
        }
    }

    /// Where the events of a metric since a point in time are asked for.
    pub fn query_events_since(&self, metric_name: &str, limit: u32, since_micros: i64) -> (r: String)
        ensures
            r@ == self.base_url@ + "/api/v1/events?metricName="@ + metric_name@ + "&limit="@
                + decimal(limit as nat) + "&since="@ + signed_decimal(since_micros as int),
    {
        cat7(
            self.base_url.as_str(),
            "/api/v1/events?metricName=",
            metric_name,
            "&limit=",
            num(limit as u64).as_str(),
            "&since=",
            num_signed(since_micros).as_str(),
        )
    }

    /// Where a metric is deleted.
    pub fn delete_metric_url(&self, metric_id: u64) -> (r: String)
        ensures
            r@ == self.base_url@ + "/api/v1/metrics/"@ + decimal(metric_id as nat),
    {
        cat3(self.base_url.as_str(), "/api/v1/metrics/", num(metric_id).as_str())
    }

    /// Where a metric is enabled or disabled.
    pub fn toggle_metric_url(&self, metric_id: u64, enabled: bool) -> (r: String)
        ensures
            r@ == self.base_url@ + "/api/v1/metrics/"@ + decimal(metric_id as nat) + "/"@ + (
            if enabled {
                "enable"@
            } else {
                "disable"@
            }),
    {
        cat5(
            self.base_url.as_str(),
            "/api/v1/metrics/",
            num(metric_id).as_str(),
            "/",
            if enabled {
                "enable"
            } else {
                "disable"
            },
        )
    }
}

// ---------------------------------------------------------------------------
// Adding a metric
// ---------------------------------------------------------------------------

/// Which frames of a stack trace are captured.
#[derive(Debug, Clone, Copy, PartialEq, Eq, Structural)]
pub enum StackTraceSliceDto {
    HeadTail(u32, u32),
    Full { full: bool },
}

/// A slice as JSON: the two numbers, or whether everything is captured.
pub open spec fn slice_json(slice: StackTraceSliceDto) -> JsonView {
    match slice {
        StackTraceSliceDto::HeadTail(head, tail) => JsonView::Array(
            seq![number_view(head as int), number_view(tail as int)],
        ),
        StackTraceSliceDto::Full { full } => JsonView::Object(
            seq![("full"@, JsonView::Bool(full))],
        ),
    }
}

impl StackTraceSliceDto {
    /// The slice as JSON.
    pub fn to_json(&self) -> (r: Json)
        ensures
            r@ == slice_json(*self),
    {
        match self {
            StackTraceSliceDto::HeadTail(head, tail) => {
                let mut items: Vec<Json> = Vec::new();
                items.push(Json::unsigned(*head as u64));
                items.push(Json::unsigned(*tail as u64));
                let r: Json = Json::Array(items);
                assert(r@->Array_0 =~= slice_json(*self)->Array_0);
                r
            },
            StackTraceSliceDto::Full { full } => {
                let mut o: JsonObject = JsonObject::new();
                o.put("full", Json::Bool(*full));
                o.finish()
            },
        }
    }
}

/// A place in a file.
#[derive(Debug, Clone)]
pub struct Location {
    pub file: String,
    pub line: u32,
}

/// The body of the request that adds a metric.
#[derive(Debug, Clone)]
pub struct CreateMetricRequest {
    pub name: String,
    pub connection_id: String,
    pub group: Option<String>,
    pub location: Location,
    pub expression: String,
    pub language: String,
    pub enabled: bool,
    pub mode: String,
    pub safety_level: Option<String>,
    pub replace: bool,
    pub sample_rate: Option<u32>,
    pub sample_interval_seconds: Option<u32>,
    pub max_per_second: Option<u32>,
    pub capture_stack_trace: bool,
    pub stack_trace_ttl: Option<u64>,
    pub stack_trace_slice: Option<StackTraceSliceDto>,
    pub capture_memory_snapshot: bool,
    pub snapshot_scope: Option<String>,
    pub snapshot_ttl: Option<u64>,
}

/// A place as JSON.
pub open spec fn location_json(location: Location) -> JsonView {
    JsonView::Object(
        seq![
            ("file"@, JsonView::Str(location.file@)),
            ("line"@, number_view(location.line as int)),
        ],
    )
}

/// The body as JSON: names in camel case, options only where they are set.
pub open spec fn create_metric_json(r: CreateMetricRequest) -> JsonView {
    let e0 = seq![
        ("name"@, JsonView::Str(r.name@)),
        ("connectionId"@, JsonView::Str(r.connection_id@)),
        ("location"@, location_json(r.location)),
        ("expression"@, JsonView::Str(r.expression@)),
        ("language"@, JsonView::Str(r.language@)),
        ("enabled"@, JsonView::Bool(r.enabled)),
        ("mode"@, JsonView::Str(r.mode@)),
        ("replace"@, JsonView::Bool(r.replace)),
        ("captureStackTrace"@, JsonView::Bool(r.capture_stack_trace)),
        ("captureMemorySnapshot"@, JsonView::Bool(r.capture_memory_snapshot)),
    ];
    let e1 = with_entry(e0, "group"@, opt_str_json(opt_view(r.group)));
    let e2 = with_entry(e1, "safetyLevel"@, opt_str_json(opt_view(r.safety_level)));
    let e3 = with_entry(e2, "sampleRate"@, opt_number_json(opt_u32_int(r.sample_rate)));
    let e4 = with_entry(
        e3,
        "sampleIntervalSeconds"@,
        opt_number_json(opt_u32_int(r.sample_interval_seconds)),
    );
    let e5 = with_entry(e4, "maxPerSecond"@, opt_number_json(opt_u32_int(r.max_per_second)));
    let e6 = with_entry(e5, "stackTraceTtl"@, opt_number_json(opt_u64_int(r.stack_trace_ttl)));
    let e7 = with_entry(
        e6,
        "stackTraceSlice"@,
        match r.stack_trace_slice {
            Some(s) => Some(slice_json(s)),
            None => None,
        },
    );
    let e8 = with_entry(e7, "snapshotScope"@, opt_str_json(opt_view(r.snapshot_scope)));
    JsonView::Object(
        with_entry(e8, "snapshotTtl"@, opt_number_json(opt_u64_int(r.snapshot_ttl))),
    )
}

impl CreateMetricRequest {
    /// The body as JSON.
    pub fn to_json(&self) -> (r: Json)
        ensures
            r@ == create_metric_json(*self),
    {
        let mut place: JsonObject = JsonObject::new();
        place.put_str("file", self.location.file.as_str());
        place.put("line", Json::unsigned(self.location.line as u64));
        assert(place@ =~= location_json(self.location)->Object_0);
        let mut o: JsonObject = JsonObject::new();
        o.put_str("name", self.name.as_str());
        o.put_str("connectionId", self.connection_id.as_str());
        o.put("location", place.finish());
        o.put_str("expression", self.expression.as_str());
        o.put_str("language", self.language.as_str());
        o.put("enabled", Json::Bool(self.enabled));
        o.put_str("mode", self.mode.as_str());
        o.put("replace", Json::Bool(self.replace));
        o.put("captureStackTrace", Json::Bool(self.capture_stack_trace));
        o.put("captureMemorySnapshot", Json::Bool(self.capture_memory_snapshot));
        assert(o@ =~= seq![
            ("name"@, JsonView::Str(self.name@)),
            ("connectionId"@, JsonView::Str(self.connection_id@)),
            ("location"@, location_json(self.location)),
            ("expression"@, JsonView::Str(self.expression@)),
            ("language"@, JsonView::Str(self.language@)),
            ("enabled"@, JsonView::Bool(self.enabled)),
            ("mode"@, JsonView::Str(self.mode@)),
            ("replace"@, JsonView::Bool(self.replace)),
            ("captureStackTrace"@, JsonView::Bool(self.capture_stack_trace)),
            ("captureMemorySnapshot"@, JsonView::Bool(self.capture_memory_snapshot)),
        ]);
        o.put_opt_str("group", &self.group);
        o.put_opt_str("safetyLevel", &self.safety_level);
        o.put_opt_u32("sampleRate", self.sample_rate);
        o.put_opt_u32("sampleIntervalSeconds", self.sample_interval_seconds);
        o.put_opt_u32("maxPerSecond", self.max_per_second);
        o.put_opt_u64("stackTraceTtl", self.stack_trace_ttl);
        match &self.stack_trace_slice {
            Some(s) => o.put("stackTraceSlice", s.to_json()),
            None => {},
        }
        o.put_opt_str("snapshotScope", &self.snapshot_scope);
        o.put_opt_u64("snapshotTtl", self.snapshot_ttl);
        o.finish()
    }
}

/// The slice of a request: head and tail where both are given, the whole trace where it asks for
/// traces, none otherwise.
pub open spec fn dto_slice(
    full: Option<bool>,
    head: Option<u32>,
    tail: Option<u32>,
    capture: Option<bool>,
) -> Option<StackTraceSliceDto> {
    if head is Some && tail is Some {
        Some(StackTraceSliceDto::HeadTail(head->0, tail->0))
    } else if full == Some(true) || capture == Some(true) {
        Some(StackTraceSliceDto::Full { full: true })
    } else {
        None
    }
}

/// A body says what a request says: checked strictly, never replacing a metric; in Python,
/// streaming and enabled unless the request says otherwise.
pub open spec fn body_of(b: CreateMetricRequest, r: AddMetricRequestView) -> bool {
    &&& b.name@ == r.name
    &&& b.connection_id@ == r.connection_id
    &&& opt_view(b.group) == r.group
    &&& b.expression@ == r.expression
    &&& b.language@ == (match r.language {
        Some(l) => l,
        None => "python"@,
    })
    &&& b.enabled == (r.enabled != Some(false))
    &&& b.mode@ == (match r.mode {
        Some(m) => m,
        None => "stream"@,
    })
    &&& opt_view(b.safety_level) == Some("strict"@)
    &&& !b.replace
    &&& b.sample_rate is None
    &&& b.sample_interval_seconds is None
    &&& b.max_per_second is None
    &&& b.capture_stack_trace == (r.capture_stack_trace == Some(true))
    &&& b.stack_trace_ttl == r.stack_trace_ttl
    &&& b.stack_trace_slice == dto_slice(
        r.stack_trace_full,
        r.stack_trace_head,
        r.stack_trace_tail,
        r.capture_stack_trace,
    )
    &&& b.capture_memory_snapshot == (r.capture_memory_snapshot == Some(true))
    &&& opt_view(b.snapshot_scope) == r.snapshot_scope
    &&& b.snapshot_ttl == r.snapshot_ttl
}

fn is_true(flag: Option<bool>) -> (r: bool)
    ensures
        r == (flag == Some(true)),
{
    match flag {
        Some(b) => b,
        None => false,
    }
}

/// The error of a location without a `#`.
pub open spec fn location_format_error(location: Seq<char>) -> Seq<char> {
    "Invalid location format '"@ + bare_location(location) + "'. Expected 'file#line'"@
}

/// File and line of a location such as `file.py#123` or `@file.py#123`.
pub fn parse_location(location: &str) -> (r: Result<(String, u32), ApiError>)
    ensures
        located_view(r) == located(location@, location_format_error(location@)),
{
    let bare: String = strip_at(location);
    split_bare_location(
        bare.as_str(),
        cat3("Invalid location format '", bare.as_str(), "'. Expected 'file#line'"),
    )
}

/// The body of a request, or the error of its location.
pub fn create_metric_request(request: &AddMetricRequest) -> (r: Result<
    CreateMetricRequest,
    ApiError,
>)
    ensures
        ({
            let place = located(request.location@, location_format_error(request.location@));
            match r {
                Ok(b) => place == Ok::<(Seq<char>, u32), ApiErrorView>(
                    (b.location.file@, b.location.line),
                ) && body_of(b, request@),
                Err(e) => place == Err::<(Seq<char>, u32), ApiErrorView>(e@),
            }
        }),
{
    let (file, line) = match parse_location(request.location.as_str()) {
        Ok(place) => place,
        Err(e) => {
            return Err(e);
        },
    };
    let stack_trace_slice: Option<StackTraceSliceDto> = match (
        request.stack_trace_head,
        request.stack_trace_tail,
    ) {
        (Some(head), Some(tail)) => Some(StackTraceSliceDto::HeadTail(head, tail)),
        _ => if is_true(request.stack_trace_full) || is_true(request.capture_stack_trace) {
            Some(StackTraceSliceDto::Full { full: true })
        } else {
            None
        },
    };
    Ok(
        CreateMetricRequest {
            name: request.name.clone(),
            connection_id: request.connection_id.clone(),
            group: clone_opt(&request.group),
            location: Location { file, line },
            expression: request.expression.clone(),
            language: match &request.language {
                Some(l) => l.clone(),
                None => "python".to_owned(),
            },
            enabled: match request.enabled {
                Some(b) => b,
                None => true,
            },
            mode: match &request.mode {
                Some(m) => m.clone(),
                None => "stream".to_owned(),
            },
            safety_level: Some("strict".to_owned()),
            replace: false,
            sample_rate: None,
            sample_interval_seconds: None,
            max_per_second: None,
            capture_stack_trace: is_true(request.capture_stack_trace),
            stack_trace_ttl: request.stack_trace_ttl,
            stack_trace_slice,
            capture_memory_snapshot: is_true(request.capture_memory_snapshot),
            snapshot_scope: clone_opt(&request.snapshot_scope),
            snapshot_ttl: request.snapshot_ttl,
        },
    )
}

// ---------------------------------------------------------------------------
// Errors
// ---------------------------------------------------------------------------

/// What stands in front of the error of a request that could not be sent.
pub open spec fn send_failure(action: ActionView) -> Seq<char> {
    match action {
        ActionView::Health => "Health check failed: "@,
        ActionView::GetStatus => "Status request failed: "@,
        ActionView::Wake => "Wake request failed: "@,
        ActionView::Sleep => "Sleep request failed: "@,
        ActionView::CreateConnection(..) => "Create connection failed: "@,
        ActionView::CloseConnection(_) => "Close connection failed: "@,
        ActionView::GetConnection(_) => "Get connection failed: "@,
        ActionView::ListConnections => "List connections failed: "@,
        ActionView::AddMetric(_) => "Add metric failed: "@,
        ActionView::RemoveMetric(_) => "Delete metric failed: "@,
        ActionView::ToggleMetric(..) => "Toggle metric failed: "@,
        ActionView::GetMetric(_) | ActionView::ListMetrics => "List metrics failed: "@,
        ActionView::QueryEvents(..) => "Query events failed: "@,
        ActionView::EnableGroup(_) => "Enable group failed: "@,
        ActionView::DisableGroup(_) => "Disable group failed: "@,
        ActionView::ListGroups => "List groups failed: "@,
        ActionView::ValidateExpression(..) => "Validate expression failed: "@,
        ActionView::InspectFile(..) => "Inspect file failed: "@,
        ActionView::GetConfig => "Get config failed: "@,
        ActionView::UpdateConfig(..) => "Update config failed: "@,
        ActionView::ValidateConfig(_) => "Validate config failed: "@,
        ActionView::ReloadConfig => "Reload config failed: "@,
        _ => "HTTP error: "@,
    }
}

/// The error of a request that could not be sent.
pub fn send_error(action: &Action, error: &str) -> (r: ApiError)
    ensures
        r@ == plain_error(send_failure(action@) + error@),
{
    let prefix: &str = match action {
        Action::Health => "Health check failed: ",
        Action::GetStatus => "Status request failed: ",
        Action::Wake => "Wake request failed: ",
        Action::Sleep => "Sleep request failed: ",
        Action::CreateConnection { .. } => "Create connection failed: ",
        Action::CloseConnection { .. } => "Close connection failed: ",
        Action::GetConnection { .. } => "Get connection failed: ",
        Action::ListConnections => "List connections failed: ",
        Action::AddMetric { .. } => "Add metric failed: ",
        Action::RemoveMetric { .. } => "Delete metric failed: ",
        Action::ToggleMetric { .. } => "Toggle metric failed: ",
        Action::GetMetric { .. } => "List metrics failed: ",
        Action::ListMetrics => "List metrics failed: ",
        Action::QueryEvents { .. } => "Query events failed: ",
        Action::EnableGroup { .. } => "Enable group failed: ",
        Action::DisableGroup { .. } => "Disable group failed: ",
        Action::ListGroups => "List groups failed: ",
        Action::ValidateExpression { .. } => "Validate expression failed: ",
        Action::InspectFile { .. } => "Inspect file failed: ",
        Action::GetConfig => "Get config failed: ",
        Action::UpdateConfig { .. } => "Update config failed: ",
        Action::ValidateConfig { .. } => "Validate config failed: ",
        Action::ReloadConfig => "Reload config failed: ",
        _ => "HTTP error: ",
    };
    ApiError::new(cat2(prefix, error))
}

/// The error of an answer that could not be read to its end.
pub fn read_error(error: &str) -> (r: ApiError)
    ensures
        r@ == plain_error("Failed to read response: "@ + error@),
{
    ApiError::new(cat2("Failed to read response: ", error))
}

/// An error with a raw response.
pub open spec fn raw_error(message: Seq<char>, raw: Seq<char>) -> ApiErrorView {
    ApiErrorView { message, code: None, raw_response: Some(raw) }
}

/// The error of an answer that is not what it should be.
pub open spec fn unreadable(action: ActionView, error: Seq<char>, raw: Seq<char>) -> ApiErrorView {
    match action {
        ActionView::Health => plain_error("Failed to parse health response: "@ + error),
        ActionView::GetStatus => raw_error("Failed to parse status: "@ + error, raw),
        ActionView::Wake => raw_error("Failed to parse wake response: "@ + error, raw),
        ActionView::Sleep => raw_error("Failed to parse sleep response: "@ + error, raw),
        ActionView::RemoveMetric(_) | ActionView::ToggleMetric(..) => plain_error(
            "Failed to parse metrics: "@ + error,
        ),
        ActionView::GetMcpUsage => plain_error("Failed to parse response: "@ + error),
        _ => raw_error("Failed to parse response: "@ + error, raw),
    }
}

/// The error of an answer that is not what it should be.
pub fn parse_error(action: &Action, error: &str, raw: &str) -> (r: ApiError)
    ensures
        r@ == unreadable(action@, error@, raw@),
{
    match action {
        Action::Health => ApiError::new(cat2("Failed to parse health response: ", error)),
        Action::GetStatus => ApiError::new(cat2("Failed to parse status: ", error)).with_raw(
            raw.to_owned(),
        ),
        Action::Wake => ApiError::new(cat2("Failed to parse wake response: ", error)).with_raw(
            raw.to_owned(),
        ),
        Action::Sleep => ApiError::new(cat2("Failed to parse sleep response: ", error)).with_raw(
            raw.to_owned(),
        ),
        Action::RemoveMetric { .. } => ApiError::new(cat2("Failed to parse metrics: ", error)),
        Action::ToggleMetric { .. } => ApiError::new(cat2("Failed to parse metrics: ", error)),
        Action::GetMcpUsage => ApiError::new(cat2("Failed to parse response: ", error)),
        _ => ApiError::new(cat2("Failed to parse response: ", error)).with_raw(raw.to_owned()),
    }
}

/// The error of an answer with a status that is no success; none where the status is not looked
/// at. `reported` is the error that the body reports, if it is a report.
pub open spec fn status_failure(
    action: ActionView,
    status: Seq<char>,
    raw: Seq<char>,
    reported: Option<Seq<char>>,
) -> Option<ApiErrorView> {
    match action {
        ActionView::CreateConnection(..) | ActionView::AddMetric(_) => Some(
            raw_error(
                match reported {
                    Some(e) => e,
                    None => "HTTP "@ + status + ": "@ + raw,
                },
                raw,
            ),
        ),
        ActionView::CloseConnection(_) | ActionView::GetConnection(_) | ActionView::RemoveMetric(_)
        | ActionView::ToggleMetric(..) | ActionView::UpdateConfig(..)
        | ActionView::ReloadConfig => Some(raw_error("HTTP "@ + status, raw)),
        ActionView::GetMcpUsage => Some(raw_error("HTTP "@ + status + " - "@ + raw, raw)),
        _ => None,
    }
}

/// The error of an answer with a status that is no success; none where the status is not looked
/// at.
pub fn status_error(action: &Action, status: &str, raw: &str, reported: &Option<String>) -> (r:
    Option<ApiError>)
    ensures
        r is Some <==> status_failure(action@, status@, raw@, opt_view(*reported)) is Some,
        r matches Some(e) ==> status_failure(action@, status@, raw@, opt_view(*reported)) == Some(
            e@,
        ),
{
    match action {
        Action::CreateConnection { .. } | Action::AddMetric { .. } => {
            let message: String = match reported {
                Some(e) => e.clone(),
                None => cat4("HTTP ", status, ": ", raw),
            };
            Some(ApiError::new(message).with_raw(raw.to_owned()))
        },
        Action::CloseConnection { .. } | Action::GetConnection { .. } | Action::RemoveMetric { .. }
        | Action::ToggleMetric { .. } | Action::UpdateConfig { .. } | Action::ReloadConfig => Some(
            ApiError::new(cat2("HTTP ", status)).with_raw(raw.to_owned()),
        ),
        Action::GetMcpUsage => Some(
            ApiError::new(cat4("HTTP ", status, " - ", raw)).with_raw(raw.to_owned()),
        ),
        _ => None,
    }
}

/// The error of a query for events since a point in time that was answered with a status that is
/// no success.
pub fn since_error(status: &str, raw: &str) -> (r: ApiError)
    ensures
        r@ == raw_error("HTTP "@ + status@ + " - "@ + raw@, raw@),
{
    ApiError::new(cat4("HTTP ", status, " - ", raw)).with_raw(raw.to_owned())
}

/// The error of the system events, which only MCP offers.
pub fn system_events_unsupported() -> (r: ApiError)
    ensures
        r@ == plain_error("System events are not available via REST API. Use MCP instead."@),
{
    ApiError::new("System events are not available via REST API. Use MCP instead.".to_owned())
}

// ---------------------------------------------------------------------------
// Answers
// ---------------------------------------------------------------------------

/// Whether an answer to a health check says that the daemon is healthy.
pub fn is_healthy(success: bool, status: &str) -> (r: bool)
    ensures
        r == (success && status@ == "ok"@),
{
    success && same_text(status, "ok")
}

/// What wake and sleep answer: the status and the message.
pub fn status_message(status: &str, message: &str) -> (r: String)
    ensures
        r@ == status@ + ": "@ + message@,
{
    cat3(status, ": ", message)
}

/// The text of the state of a connection.
pub open spec fn connection_status(status: i32) -> Seq<char> {
    if status == 0 {
        "unspecified"@
    } else if status == 1 {
        "disconnected"@
    } else if status == 2 {
        "connecting"@
    } else if status == 3 {
        "connected"@
    } else if status == 4 {
        "failed"@
    } else {
        "unknown("@ + signed_decimal(status as int) + ")"@
    }
}

/// The text of the state of a connection.
pub fn status_i32_to_string(status: i32) -> (r: String)
    ensures
        r@ == connection_status(status),
{
    if status == 0 {
        "unspecified".to_owned()
    } else if status == 1 {
        "disconnected".to_owned()
    } else if status == 2 {
        "connecting".to_owned()
    } else if status == 3 {
        "connected".to_owned()
    } else if status == 4 {
        "failed".to_owned()
    } else {
        cat3("unknown(", num_signed(status as i64).as_str(), ")")
    }
}

/// A connection as the server sends it.
#[derive(Debug)]
pub struct ConnectionMessage {
    pub connection_id: String,
    pub host: String,
    pub port: u32,
    pub language: String,
    pub status: i32,
    pub safe_mode: bool,
}

/// What a connection is known as; of the port the low 16 bits.
pub open spec fn known_connection(c: ConnectionMessage) -> ConnectionInfoView {
    ConnectionInfoView {
        connection_id: c.connection_id@,
        host: c.host@,
        port: (c.port % 0x1_0000) as u16,
        language: c.language@,
        status: connection_status(c.status),
        safe_mode: c.safe_mode,
    }
}

/// What a connection is known as.
pub fn connection_info(c: ConnectionMessage) -> (r: ConnectionInfo)
    ensures
        r@ == known_connection(c),
{
    ConnectionInfo {
        connection_id: c.connection_id,
        host: c.host,
        port: (c.port % 0x1_0000) as u16,
        language: c.language,
        status: status_i32_to_string(c.status),
        safe_mode: c.safe_mode,
    }
}

/// The connection that was created, or the error of an answer without details.
pub fn created_connection(connection_id: String, details: Option<ConnectionMessage>, raw: &str) -> (r:
    Result<ConnectionInfo, ApiError>)
    ensures
        match details {
            Some(c) => r matches Ok(info) && info@ == (ConnectionInfoView {
                connection_id: connection_id@,
                ..known_connection(c)
            }),
            None => r matches Err(e) && e@ == raw_error(
                "Response missing connection details"@,
                raw@,
            ),
        },
{
    match details {
        Some(c) => {
            let mut info: ConnectionInfo = connection_info(c);
            info.connection_id = connection_id;
            Ok(info)
        },
        None => Err(
            ApiError::new("Response missing connection details".to_owned()).with_raw(
                raw.to_owned(),
            ),
        ),
    }
}

/// What a listed metric is known as.
pub fn proto_metric_to_client_metric(m: MetricMessage) -> (r: MetricInfo)
    ensures
        r@ == listed_metric(""@, m),
{
    metric_info("", m)
}

/// The position of the first metric with the name; the number of metrics where there is none.
pub open spec fn message_index(list: Seq<MetricMessage>, name: Seq<char>) -> nat
    decreases list.len(),
{
    if list.len() == 0 || list[0].name@ == name {
        0
    } else {
        1 + message_index(list.drop_first(), name)
    }
}

proof fn lemma_message_index_is(list: Seq<MetricMessage>, name: Seq<char>, k: nat)
    requires
        k <= list.len(),
        k < list.len() ==> list[k as int].name@ == name,
        forall|j: int| 0 <= j < k ==> (#[trigger] list[j]).name@ != name,
    ensures
        message_index(list, name) == k,
    decreases list.len(),
{
    if k > 0 {
        assert(list[0].name@ != name);
        let t = list.drop_first();
        assert forall|j: int| 0 <= j < k - 1 implies (#[trigger] t[j]).name@ != name by {
            assert(t[j] == list[j + 1]);
        }
        lemma_message_index_is(t, name, (k - 1) as nat);
    }
}

/// The error of a metric that is not listed.
pub open spec fn metric_missing(name: Seq<char>) -> ApiErrorView {
    plain_error("Metric '"@ + name + "' not found"@)
}

/// The id of the first metric with the name.
pub fn metric_id(list: &Vec<MetricMessage>, name: &str) -> (r: Result<u64, ApiError>)
    ensures
        ({
            let k = message_index(list@, name@);
            match r {
                Ok(id) => k < list@.len() && id == list@[k as int].metric_id,
                Err(e) => k == list@.len() && e@ == metric_missing(name@),
            }
        }),
{
    let mut i: usize = 0;
    while i < list.len()
        invariant
            i <= list.len(),
            forall|j: int| 0 <= j < i ==> (#[trigger] list@[j]).name@ != name@,
        decreases list.len() - i,
    {
        if same_text(list[i].name.as_str(), name) {
            proof {
                lemma_message_index_is(list@, name@, i as nat);
            }
            return Ok(list[i].metric_id);
        }
        i = i + 1;
    }
    proof {
        lemma_message_index_is(list@, name@, i as nat);
    }
    Err(ApiError::new(cat3("Metric '", name, "' not found")))
}

/// The first metric of a list with the name.
pub fn get_metric(list: Vec<MetricInfo>, name: &str) -> (r: Result<MetricInfo, ApiError>)
    ensures
        ({
            let k = crate::client::metric_index(list@, name@);
            match r {
                Ok(m) => k < list@.len() && m == list@[k as int],
                Err(e) => k == list@.len() && e@ == metric_missing(name@),
            }
        }),
{
    let k: usize = crate::client::find_metric(&list, name);
    let mut rest: Vec<MetricInfo> = list;
    if k < rest.len() {
        Ok(rest.swap_remove(k))
    } else {
        Err(ApiError::new(cat3("Metric '", name, "' not found")))
    }
}

/// The value of an event, and whether it is an error: an error has no value.
pub open spec fn rest_event_value(result: Option<EventResult>) -> (Seq<char>, bool) {
    match result {
        Some(EventResult::ValueJson { value }) => (value@, false),
        Some(EventResult::Error { .. }) => (Seq::empty(), true),
        None => (Seq::empty(), false),
    }
}

/// An event is what a record is known as; a time that cannot be represented is shown by its
/// number.
pub open spec fn rest_event_is(event: EventInfo, e: EventRecord, now_micros: i64) -> bool {
    &&& event.metric_name == e.metric_name
    &&& (event.value@, event.is_error) == rest_event_value(e.result)
    &&& event.values@.len() == 0
    &&& event.timestamp_iso@ == (match rfc3339_micros(e.timestamp) {
        Some(t) => t,
        None => signed_decimal(e.timestamp as int),
    })
    &&& event.age_seconds == seconds_between(now_micros, e.timestamp)
    &&& event.stack_trace == e.stack_trace
    &&& event.memory_snapshot == e.memory_snapshot
    &&& event.extra@.len() == 0
}

/// The event as it is known.
pub fn event_info(e: EventRecord, now_micros: i64) -> (r: EventInfo)
    requires
        has_age(e, now_micros),
    ensures
        rest_event_is(r, e, now_micros),
{
    let (value, is_error) = match e.result {
        Some(EventResult::ValueJson { value }) => (value, false),
        Some(EventResult::Error { .. }) => (String::new(), true),
        None => (String::new(), false),
    };
    EventInfo {
        metric_name: e.metric_name,
        value,
        values: Vec::new(),
        timestamp_iso: match format_micros(e.timestamp) {
            Some(t) => t,
            None => num_signed(e.timestamp),
        },
        age_seconds: age_seconds(now_micros, e.timestamp),
        is_error,
        stack_trace: e.stack_trace,
        memory_snapshot: e.memory_snapshot,
        extra: Vec::new(),
    }
}

/// The status as it is known: the mode is what the server calls its status, and the enabled
/// metrics are what it calls active ones.
pub fn status_info(
    status: String,
    uptime_seconds: u64,
    active_connections: usize,
    total_metrics: usize,
    active_metrics: usize,
) -> (r: StatusInfo)
    ensures
        r == (StatusInfo {
            mode: status,
            uptime_seconds,
            active_connections,
            total_metrics,
            enabled_metrics: active_metrics,
        }),
{
    StatusInfo {
        mode: status,
        uptime_seconds,
        active_connections,
        total_metrics,
        enabled_metrics: active_metrics,
    }
}

} // verus!
