//! The gRPC backend: what goes into its messages, and what comes out of them.

use vstd::prelude::*;

pub mod calls;
pub mod laws;

use crate::client::{
    plain_error, AddMetricRequest, AddMetricRequestView, ApiError, ApiErrorView,
    CapturedStackTrace, EventInfo, MemorySnapshot, MetricInfo, MetricInfoView,
};
use crate::text::{
    cat2, cat4, cat5, clone_opt, decimal, has_prefix, is_digit, law_decimal_round_trip,
    lemma_decimal_digits, lemma_last_index_is, num, num_signed, opt_view, parse_u32, parsed_unsigned,
    rsplit_once, signed_decimal, split_at_last, strip_prefix, views, without_prefix,
};
use crate::times::{age_seconds, format_micros, rfc3339_micros, seconds_between};

verus! {

/// The ports of a daemon.
#[derive(Debug, Clone, Copy)]
pub struct GrpcClient {
    pub grpc_port: u16,
    pub http_port: u16,
}

impl GrpcClient {
    /// A client with the HTTP port that holds where nothing else is configured.
    pub fn new(grpc_port: u16, default_http_port: u16) -> (r: Self)
        ensures
            r == (GrpcClient { grpc_port, http_port: default_http_port }),
    {
        GrpcClient { grpc_port, http_port: default_http_port }
    }

    /// A client with a given HTTP port for health checks.
    pub fn with_http_port(grpc_port: u16, http_port: u16) -> (r: Self)
        ensures
            r == (GrpcClient { grpc_port, http_port }),
    {
        GrpcClient { grpc_port, http_port }
    }

    /// The address of the gRPC server.
    pub fn address(&self, host: &str) -> (r: String)
        ensures
            r@ == "http://"@ + host@ + ":"@ + decimal(self.grpc_port as nat),
    {
        cat4("http://", host, ":", num(self.grpc_port as u64).as_str())
    }

    /// Where the daemon is asked for its health.
    pub fn health_url(&self, host: &str) -> (r: String)
        ensures
            r@ == "http://"@ + host@ + ":"@ + decimal(self.http_port as nat) + "/health"@,
    {
        cat5("http://", host, ":", num(self.http_port as u64).as_str(), "/health")
    }

    /// The error of a call that the server refused.
    pub fn call_error(error: &str) -> (r: ApiError)
        ensures
            r@ == plain_error("gRPC error: "@ + error@),
    {
        ApiError::new(cat2("gRPC error: ", error))
    }

    /// The error of the system events, which only MCP offers.
    pub fn system_events_unsupported() -> (r: ApiError)
        ensures
            r@ == plain_error("System events are not available via gRPC API. Use MCP instead."@),
    {
        ApiError::new("System events are not available via gRPC API. Use MCP instead.".to_owned())
    }

    /// The name under which a connection is registered.
    pub fn connection_name(language: &str, port: u16) -> (r: String)
        ensures
            r@ == "e2e-test-"@ + language@ + "-"@ + decimal(port as nat),
    {
        cat4("e2e-test-", language, "-", num(port as u64).as_str())
    }

    /// The outcome of inspect_file: the content, or the error that the server gives.
    pub fn inspect_outcome(success: bool, content: String, error: Option<String>) -> (r: Result<
        String,
        ApiError,
    >)
        ensures
            r is Ok <==> success,
            r matches Ok(c) ==> c == content,
            r matches Err(e) ==> e@ == plain_error(
                match error {
                    Some(m) => m@,
                    None => "Unknown error"@,
                },
            ),
    {
        if success {
            Ok(content)
        } else {
            match error {
                Some(m) => Err(ApiError::new(m)),
                None => Err(ApiError::new("Unknown error".to_owned())),
            }
        }
    }
}

// ---------------------------------------------------------------------------
// Locations
// ---------------------------------------------------------------------------

/// A location without the `@` in front of it.
pub open spec fn bare_location(location: Seq<char>) -> Seq<char> {
    match without_prefix(location, "@"@) {
        Some(rest) => rest,
        None => location,
    }
}

/// File and line of a location: what stands before and behind the last `#`. `format_error` is
/// the error of a location without one.
pub open spec fn located(location: Seq<char>, format_error: Seq<char>) -> Result<
    (Seq<char>, u32),
    ApiErrorView,
> {
    match split_at_last(bare_location(location), '#') {
        Some((file, line)) => match parsed_unsigned(line, u32::MAX as nat) {
            Some(n) => Ok((file, n as u32)),
            None => Err(plain_error("Invalid line number: "@ + line)),
        },
        None => Err(plain_error(format_error)),
    }
}

/// The view of a parsed location.
pub open spec fn located_view(r: Result<(String, u32), ApiError>) -> Result<
    (Seq<char>, u32),
    ApiErrorView,
> {
    match r {
        Ok((file, line)) => Ok((file@, line)),
        Err(e) => Err(e@),
    }
}

/// A location without the `@` in front of it.
pub fn strip_at(location: &str) -> (r: String)
    ensures
        r@ == bare_location(location@),
{
    match strip_prefix(location, "@") {
        Some(rest) => rest,
        None => location.to_owned(),
    }
}

/// File and line of a location without `@`; `format_error` is the error of one without a `#`.
pub fn split_bare_location(bare: &str, format_error: String) -> (r: Result<(String, u32), ApiError>)
    ensures
        forall|location: Seq<char>|
            bare_location(location) == bare@ ==> located_view(r) == #[trigger] located(
                location,
                format_error@,
            ),
{
    match rsplit_once(bare, '#') {
        Some((file, line)) => match parse_u32(line.as_str()) {
            Some(n) => Ok((file, n)),
            None => Err(ApiError::new(cat2("Invalid line number: ", line.as_str()))),
        },
        None => Err(ApiError::new(format_error)),
    }
}

/// File and line of a location such as `@file.py#123`.
pub fn parse_location(location: &str) -> (r: Result<(String, u32), ApiError>)
    ensures
        located_view(r) == located(
            location@,
            "Invalid location format: "@ + bare_location(location@),
        ),
{
    let bare: String = strip_at(location);
    split_bare_location(bare.as_str(), cat2("Invalid location format: ", bare.as_str()))
}

/// Where a metric is, as text: the file and the line, with `@` in front.
pub open spec fn location_text(file: Seq<char>, line: u32) -> Seq<char> {
    "@"@ + file + "#"@ + decimal(line as nat)
}

/// Writing a location and reading it back gives the file and the line: with `@` in front
/// whatever the file is called, and without it if the file does not begin with `@` itself.
pub proof fn law_location_round_trip(file: Seq<char>, line: u32, format_error: Seq<char>)
    ensures
        located(location_text(file, line), format_error) == Ok::<(Seq<char>, u32), ApiErrorView>(
            (file, line),
        ),
        !has_prefix(file, "@"@) ==> located(
            file + "#"@ + decimal(line as nat),
            format_error,
        ) == Ok::<(Seq<char>, u32), ApiErrorView>((file, line)),
{
    reveal_strlit("@");
    reveal_strlit("#");
    let digits = decimal(line as nat);
    let bare = file + "#"@ + digits;
    let full = location_text(file, line);
    assert(full =~= "@"@ + bare);
    assert(full.subrange(0, 1) =~= "@"@);
    assert(has_prefix(full, "@"@));
    assert(full.subrange(1, full.len() as int) =~= bare);
    lemma_decimal_digits(line as nat);
    let k = file.len();
    assert(bare[k as int] == '#');
    assert forall|j: int| k < j < bare.len() implies bare[j] != '#' by {
        assert(bare[j] == digits[j - k - 1]);
        assert(is_digit(digits[j - k - 1]));
    }
    lemma_last_index_is(bare, '#', k);
    assert(bare.subrange(0, k as int) =~= file);
    assert(bare.subrange(k as int + 1, bare.len() as int) =~= digits);
    law_decimal_round_trip(line as nat, u32::MAX as nat);
    if !has_prefix(file, "@"@) {
        assert(!has_prefix(bare, "@"@)) by {
            if has_prefix(bare, "@"@) {
                assert(bare.subrange(0, 1) == "@"@);
                assert(bare.subrange(0, 1)[0] == '@');
                if file.len() > 0 {
                    assert(file.subrange(0, 1) =~= "@"@);
                    assert(has_prefix(file, "@"@));
                } else {
                    assert(bare[0] == '#');
                }
            }
        }
    }
}

// ---------------------------------------------------------------------------
// Messages
// ---------------------------------------------------------------------------

/// Which frames of a stack trace are captured.
#[derive(Debug, Clone, Copy, PartialEq, Eq, Structural)]
pub struct StackTraceSlice {
    pub full: bool,
    pub head: Option<u32>,
    pub tail: Option<u32>,
}

/// The slice of a request: what it specifies; the whole trace where it only asks for traces; none
/// otherwise.
pub open spec fn slice_of(
    full: Option<bool>,
    head: Option<u32>,
    tail: Option<u32>,
    capture: Option<bool>,
) -> Option<StackTraceSlice> {
    if full is Some || head is Some || tail is Some {
        Some(StackTraceSlice { full: full == Some(true), head, tail })
    } else if capture == Some(true) {
        Some(StackTraceSlice { full: true, head: None, tail: None })
    } else {
        None
    }
}

/// The slice of a request.
pub fn build_stack_trace_slice(request: &AddMetricRequest) -> (r: Option<StackTraceSlice>)
    ensures
        r == slice_of(
            request.stack_trace_full,
            request.stack_trace_head,
            request.stack_trace_tail,
            request.capture_stack_trace,
        ),
{
    if request.stack_trace_full.is_some() || request.stack_trace_head.is_some()
        || request.stack_trace_tail.is_some() {
        Some(
            StackTraceSlice {
                full: match request.stack_trace_full {
                    Some(b) => b,
                    None => false,
                },
                head: request.stack_trace_head,
                tail: request.stack_trace_tail,
            },
        )
    } else {
        match request.capture_stack_trace {
            Some(true) => Some(StackTraceSlice { full: true, head: None, tail: None }),
            _ => None,
        }
    }
}

/// When a metric captures.
#[derive(Debug, Clone, Copy, PartialEq, Eq, Structural)]
pub enum Mode {
    Stream,
    Sample { rate: u32 },
    First,
    Throttle { max_per_second: u32 },
    SampleInterval { seconds: u32 },
}

/// The mode of a metric, which may be left open.
#[derive(Debug, Clone, Copy, PartialEq, Eq, Structural)]
pub struct MetricMode {
    pub mode: Option<Mode>,
}

/// The name of a mode.
pub open spec fn mode_name(mode: Mode) -> Seq<char> {
    match mode {
        Mode::Stream => "stream"@,
        Mode::Sample { .. } => "sample"@,
        Mode::First => "first"@,
        Mode::Throttle { .. } => "throttle"@,
        Mode::SampleInterval { .. } => "sample_interval"@,
    }
}

/// The name of a mode, where there is one.
pub open spec fn mode_text(mode: Option<MetricMode>) -> Option<Seq<char>> {
    match mode {
        Some(m) => match m.mode {
            Some(k) => Some(mode_name(k)),
            None => None,
        },
        None => None,
    }
}

/// The name of a mode, where there is one.
pub fn proto_mode_to_string(mode: &Option<MetricMode>) -> (r: Option<String>)
    ensures
        opt_view(r) == mode_text(*mode),
{
    match mode {
        Some(m) => match m.mode {
            Some(Mode::Stream) => Some("stream".to_owned()),
            Some(Mode::Sample { .. }) => Some("sample".to_owned()),
            Some(Mode::First) => Some("first".to_owned()),
            Some(Mode::Throttle { .. }) => Some("throttle".to_owned()),
            Some(Mode::SampleInterval { .. }) => Some("sample_interval".to_owned()),
            None => None,
        },
        None => None,
    }
}

/// The request that adds a metric, as a message.
#[derive(Debug)]
pub struct AddMetricMessage {
    pub name: String,
    pub group: Option<String>,
    pub file: String,
    pub line: u32,
    pub expression: String,
    pub language: Option<String>,
    pub enabled: bool,
    pub mode: MetricMode,
    pub safety_level: String,
    pub connection_id: String,
    pub capture_stack_trace: Option<bool>,
    pub stack_trace_ttl: Option<u64>,
    pub stack_trace_slice: Option<StackTraceSlice>,
    pub capture_memory_snapshot: Option<bool>,
    pub snapshot_scope: Option<String>,
    pub snapshot_ttl: Option<u64>,
}

/// A message says what a request says; the metric streams, is checked strictly, and is enabled
/// unless the request says otherwise.
pub open spec fn message_of(m: AddMetricMessage, r: AddMetricRequestView) -> bool {
    &&& m.name@ == r.name
    &&& opt_view(m.group) == r.group
    &&& m.expression@ == r.expression
    &&& opt_view(m.language) == r.language
    &&& m.enabled == (r.enabled != Some(false))
    &&& m.mode == (MetricMode { mode: Some(Mode::Stream) })
    &&& m.safety_level@ == "strict"@
    &&& m.connection_id@ == r.connection_id
    &&& m.capture_stack_trace == r.capture_stack_trace
    &&& m.stack_trace_ttl == r.stack_trace_ttl
    &&& m.stack_trace_slice == slice_of(
        r.stack_trace_full,
        r.stack_trace_head,
        r.stack_trace_tail,
        r.capture_stack_trace,
    )
    &&& m.capture_memory_snapshot == r.capture_memory_snapshot
    &&& opt_view(m.snapshot_scope) == r.snapshot_scope
    &&& m.snapshot_ttl == r.snapshot_ttl
}

/// The message of a request, or the error of its location.
pub fn add_metric_message(request: &AddMetricRequest) -> (r: Result<AddMetricMessage, ApiError>)
    ensures
        ({
            let place = located(
                request.location@,
                "Invalid location format: "@ + bare_location(request.location@),
            );
            match r {
                Ok(m) => place == Ok::<(Seq<char>, u32), ApiErrorView>((m.file@, m.line))
                    && message_of(m, request@),
                Err(e) => place == Err::<(Seq<char>, u32), ApiErrorView>(e@),
            }
        }),
{
    match parse_location(request.location.as_str()) {
        Ok((file, line)) => Ok(
            AddMetricMessage {
                name: request.name.clone(),
                group: clone_opt(&request.group),
                file,
                line,
                expression: request.expression.clone(),
                language: clone_opt(&request.language),
                enabled: match request.enabled {
                    Some(b) => b,
                    None => true,
                },
                mode: MetricMode { mode: Some(Mode::Stream) },
                safety_level: "strict".to_owned(),
                connection_id: request.connection_id.clone(),
                capture_stack_trace: request.capture_stack_trace,
                stack_trace_ttl: request.stack_trace_ttl,
                stack_trace_slice: build_stack_trace_slice(request),
                capture_memory_snapshot: request.capture_memory_snapshot,
                snapshot_scope: clone_opt(&request.snapshot_scope),
                snapshot_ttl: request.snapshot_ttl,
            },
        ),
        Err(e) => Err(e),
    }
}

// ---------------------------------------------------------------------------
// Metrics and events
// ---------------------------------------------------------------------------

/// A metric as the server lists it.
#[derive(Debug)]
pub struct MetricMessage {
    pub metric_id: u64,
    pub name: String,
    pub location: Option<(String, u32)>,
    pub expression: String,
    pub group: Option<String>,
    pub enabled: bool,
    pub mode: Option<MetricMode>,
}

/// The location of a listed metric as text, with the given prefix; empty where there is none.
pub open spec fn listed_location(prefix: Seq<char>, location: Option<(String, u32)>) -> Seq<char> {
    match location {
        Some((file, line)) => prefix + file@ + "#"@ + decimal(line as nat),
        None => Seq::empty(),
    }
}

/// What a listed metric is known as.
pub open spec fn listed_metric(prefix: Seq<char>, m: MetricMessage) -> MetricInfoView {
    MetricInfoView {
        name: m.name@,
        location: listed_location(prefix, m.location),
        expression: m.expression@,
        expressions: seq![m.expression@],
        group: opt_view(m.group),
        enabled: m.enabled,
        mode: mode_text(m.mode),
    }
}

/// What a listed metric is known as; `prefix` stands in front of its location.
pub fn metric_info(prefix: &str, m: MetricMessage) -> (r: MetricInfo)
    ensures
        r@ == listed_metric(prefix@, m),
{
    let location: String = match &m.location {
        Some((file, line)) => cat4(prefix, file.as_str(), "#", num(*line as u64).as_str()),
        None => String::new(),
    };
    let mode: Option<String> = proto_mode_to_string(&m.mode);
    let mut expressions: Vec<String> = Vec::new();
    expressions.push(m.expression.clone());
    assert(views(expressions@) =~= seq![m.expression@]);
    MetricInfo {
        name: m.name,
        location,
        expression: m.expression,
        expressions,
        group: m.group,
        enabled: m.enabled,
        mode,
    }
}

/// What was captured: a value, or an error.
#[derive(Debug)]
pub enum EventResult {
    ValueJson { value: String },
    Error { message: String },
}

/// An event as the server sends it.
#[derive(Debug)]
pub struct EventRecord {
    pub metric_name: String,
    /// Microseconds since 1970.
    pub timestamp: i64,
    pub result: Option<EventResult>,
    pub stack_trace: Option<CapturedStackTrace>,
    pub memory_snapshot: Option<MemorySnapshot>,
}

/// The value of an event, and whether it is an error: an error is shown by its message.
pub open spec fn event_value(result: Option<EventResult>) -> (Seq<char>, bool) {
    match result {
        Some(EventResult::ValueJson { value }) => (value@, false),
        Some(EventResult::Error { message }) => (message@, true),
        None => (Seq::empty(), false),
    }
}

/// An event is what a record is known as; the time is empty where it cannot be represented.
pub open spec fn event_is(event: EventInfo, e: EventRecord, now_micros: i64) -> bool {
    &&& event.metric_name == e.metric_name
    &&& (event.value@, event.is_error) == event_value(e.result)
    &&& event.values@.len() == 0
    &&& event.timestamp_iso@ == (match rfc3339_micros(e.timestamp) {
        Some(t) => t,
        None => Seq::empty(),
    })
    &&& event.age_seconds == seconds_between(now_micros, e.timestamp)
    &&& event.stack_trace == e.stack_trace
    &&& event.memory_snapshot == e.memory_snapshot
    &&& event.extra@.len() == 0
}

/// The time between a record and now can be told.
pub open spec fn has_age(e: EventRecord, now_micros: i64) -> bool {
    i64::MIN <= now_micros - e.timestamp <= i64::MAX
}

/// The event as it is known.
pub fn event_info(e: EventRecord, now_micros: i64) -> (r: EventInfo)
    requires
        has_age(e, now_micros),
    ensures
        event_is(r, e, now_micros),
{
    let (value, is_error) = match e.result {
        Some(EventResult::ValueJson { value }) => (value, false),
        Some(EventResult::Error { message }) => (message, true),
        None => (String::new(), false),
    };
    EventInfo {
        metric_name: e.metric_name,
        value,
        values: Vec::new(),
        timestamp_iso: match format_micros(e.timestamp) {
            Some(t) => t,
            None => String::new(),
        },
        age_seconds: age_seconds(now_micros, e.timestamp),
        is_error,
        stack_trace: e.stack_trace,
        memory_snapshot: e.memory_snapshot,
        extra: Vec::new(),
    }
}

/// What came from a stream within one wait.
#[derive(Debug)]
pub enum StreamItem {
    Event { record: EventRecord },
    End,
    Error,
    Timeout,
}

/// How forwarding a stream goes on.
#[derive(Debug)]
pub enum Forward {
    /// Send the event on, once the warning is reported.
    Send { event: EventInfo, warning: Option<String> },
    Wait,
    Stop,
}

/// What is reported of a record whose time cannot be written.
pub open spec fn time_warning(e: EventRecord) -> Option<Seq<char>> {
    match rfc3339_micros(e.timestamp) {
        Some(_) => None,
        None => Some(
            "[WARN] Failed to parse timestamp "@ + signed_decimal(e.timestamp as int)
                + " for metric "@ + e.metric_name@,
        ),
    }
}

fn warn_of_time(e: &EventRecord) -> (r: Option<String>)
    ensures
        opt_view(r) == time_warning(*e),
{
    match format_micros(e.timestamp) {
        Some(_) => None,
        None => Some(
            cat4(
                "[WARN] Failed to parse timestamp ",
                num_signed(e.timestamp).as_str(),
                " for metric ",
                e.metric_name.as_str(),
            ),
        ),
    }
}

/// Whether forwarding begins another wait: not once the stream was closed from this side.
pub fn forwarding_goes_on(closed: bool) -> (r: bool)
    ensures
        r == !closed,
{
    !closed
}

/// What is done with an item of a stream: an event is sent on, with a warning where its time cannot
/// be written, an end or an error stops forwarding, and a timeout begins another wait.
pub fn stream_events(item: StreamItem, now_micros: i64) -> (r: Forward)
    requires
        item matches StreamItem::Event { record } ==> has_age(record, now_micros),
    ensures
        match item {
            StreamItem::Event { record } => r matches Forward::Send { event, warning } && event_is(
                event,
                record,
                now_micros,
            ) && opt_view(warning) == time_warning(record),
            StreamItem::End | StreamItem::Error => r is Stop,
            StreamItem::Timeout => r is Wait,
        },
{
    match item {
        StreamItem::Event { record } => {
            let warning: Option<String> = warn_of_time(&record);
            Forward::Send { event: event_info(record, now_micros), warning }
        },
        StreamItem::End => Forward::Stop,
        StreamItem::Error => Forward::Stop,
        StreamItem::Timeout => Forward::Wait,
    }
}

/// Events that are collected from a stream for a limited time.
#[derive(Debug)]
pub struct Collection {
    pub events: Vec<EventInfo>,
    pub limit: usize,
}

impl Collection {
    /// Nothing was collected yet.
    pub fn new(max_events: Option<usize>) -> (r: Self)
        ensures
            r.events@.len() == 0,
            r.limit == (match max_events {
                Some(n) => n,
                None => usize::MAX,
            }),
    {
        Collection {
            events: Vec::new(),
            limit: match max_events {
                Some(n) => n,
                None => usize::MAX,
            },
        }
    }

    /// Takes an event; says whether that was the last one to be taken.
    pub fn take(&mut self, event: EventInfo) -> (done: bool)
        ensures
            final(self).limit == old(self).limit,
            final(self).events@ == old(self).events@.push(event),
            done == (final(self).events@.len() >= final(self).limit),
    {
        self.events.push(event);
        self.events.len() >= self.limit
    }

    /// What was received: what was collected where the stream or the limit ended it, and nothing
    /// where the time did.
    pub fn receive_events(self, timed_out: bool) -> (r: Vec<EventInfo>)
        ensures
            r@ == (if timed_out {
                Seq::empty()
            } else {
                self.events@
            }),
    {
        if timed_out {
            Vec::new()
        } else {
            self.events
        }
    }
}

} // verus!
