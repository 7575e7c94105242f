//! The calls of the REST backend: which requests an action sends one after the other, and what
//! their answers mean.

use vstd::prelude::*;

use crate::client::{
    metric_index, plain_error, AddMetricRequestView, ApiError, ApiErrorView, ApiResponse,
    ConnectionInfo, ConnectionInfoView, EventInfo, GroupInfo, McpUsageInfo, MetricInfo, StatusInfo,
    ValidationResult,
};
use crate::exchange::{failure, mcp_only, Action, ActionView, Event};
use crate::grpc::calls::{all_ages_known, take_metrics};
use crate::grpc::{has_age, listed_metric, located, EventRecord, MetricMessage};
use crate::json::opt_json_view;
use crate::lists::reversed;
use crate::rest::{
    body_of, connection_info, create_metric_json, create_metric_request, created_connection,
    event_info, get_metric, is_healthy, known_connection,
    location_format_error, message_index, metric_id, metric_missing, parse_error, raw_error,
    read_error, request_of, rest_event_is, send_error, send_failure, since_error, status_error,
    status_failure, status_info, status_message, system_events_unsupported, unreadable,
    ConnectionMessage, CreateMetricRequest, HttpMethod, HttpRequest, HttpRequestView, RestClient,
};
use crate::text::{cat2, decimal, num, opt_view};

verus! {

// ---------------------------------------------------------------------------
// Answers
// ---------------------------------------------------------------------------

/// What the body of an answer was read as.
#[derive(Debug)]
pub enum RestReply {
    Health { status: String },
    Status {
        status: String,
        uptime_seconds: u64,
        active_connections: usize,
        total_metrics: usize,
        active_metrics: usize,
    },
    Message { status: String, message: String },
    Created { connection_id: String, connection: Option<ConnectionMessage> },
    Connection { connection: ConnectionMessage },
    Connections { connections: Vec<ConnectionMessage> },
    MetricId { metric_id: u64 },
    Metrics { metrics: Vec<MetricMessage> },
    Events { events: Vec<EventRecord> },
    Affected { success_count: usize },
    Groups { groups: Vec<GroupInfo> },
    Validation { is_safe: bool, violations: Vec<String> },
    Config { config_toml: String },
    Valid { valid: bool },
    Usage { usage: McpUsageInfo },
    /// The body is taken as it is.
    Plain,
}

/// The kinds of what a body is read as.
#[derive(Debug, Clone, Copy, PartialEq, Eq, Structural)]
pub enum RestKind {
    Health,
    Status,
    Message,
    Created,
    Connection,
    Connections,
    MetricId,
    Metrics,
    Events,
    Affected,
    Groups,
    Validation,
    Config,
    Valid,
    Usage,
    Plain,
}

impl RestReply {
    /// The kind.
    pub open spec fn spec_kind(&self) -> RestKind {
        match self {
            RestReply::Health { .. } => RestKind::Health,
            RestReply::Status { .. } => RestKind::Status,
            RestReply::Message { .. } => RestKind::Message,
            RestReply::Created { .. } => RestKind::Created,
            RestReply::Connection { .. } => RestKind::Connection,
            RestReply::Connections { .. } => RestKind::Connections,
            RestReply::MetricId { .. } => RestKind::MetricId,
            RestReply::Metrics { .. } => RestKind::Metrics,
            RestReply::Events { .. } => RestKind::Events,
            RestReply::Affected { .. } => RestKind::Affected,
            RestReply::Groups { .. } => RestKind::Groups,
            RestReply::Validation { .. } => RestKind::Validation,
            RestReply::Config { .. } => RestKind::Config,
            RestReply::Valid { .. } => RestKind::Valid,
            RestReply::Usage { .. } => RestKind::Usage,
            RestReply::Plain => RestKind::Plain,
        }
    }

    /// The kind.
    pub fn kind(&self) -> (r: RestKind)
        ensures
            r == self.spec_kind(),
    {
        match self {
            RestReply::Health { .. } => RestKind::Health,
            RestReply::Status { .. } => RestKind::Status,
            RestReply::Message { .. } => RestKind::Message,
            RestReply::Created { .. } => RestKind::Created,
            RestReply::Connection { .. } => RestKind::Connection,
            RestReply::Connections { .. } => RestKind::Connections,
            RestReply::MetricId { .. } => RestKind::MetricId,
            RestReply::Metrics { .. } => RestKind::Metrics,
            RestReply::Events { .. } => RestKind::Events,
            RestReply::Affected { .. } => RestKind::Affected,
            RestReply::Groups { .. } => RestKind::Groups,
            RestReply::Validation { .. } => RestKind::Validation,
            RestReply::Config { .. } => RestKind::Config,
            RestReply::Valid { .. } => RestKind::Valid,
            RestReply::Usage { .. } => RestKind::Usage,
            RestReply::Plain => RestKind::Plain,
        }
    }
}

/// An answer of the server.
#[derive(Debug)]
pub struct RestAnswer {
    pub success: bool,
    /// The status with its number, such as `404 Not Found`.
    pub status: String,
    /// The body, or why it could not be read to its end.
    pub body: Result<String, String>,
    /// The error that the body reports, if it is a report.
    pub reported: Option<String>,
    /// What the body was read as, or why it could not be.
    pub parsed: Result<RestReply, String>,
}

/// What came of a request.
#[derive(Debug)]
pub enum RestInput {
    NotSent { error: String },
    Answered { answer: RestAnswer },
}

/// How a call goes on.
#[derive(Debug)]
pub enum RestStep {
    Send(HttpRequest),
    Finish(Event),
}

/// The text of an answer; empty where it could not be read.
pub open spec fn raw_text(answer: RestAnswer) -> Seq<char> {
    match answer.body {
        Ok(text) => text@,
        Err(_) => Seq::empty(),
    }
}

/// The body of the answer to an action is not needed where the status is a success.
pub open spec fn body_is_unneeded(action: ActionView) -> bool {
    action is CloseConnection || action is RemoveMetric || action is ToggleMetric
        || action is UpdateConfig || action is ReloadConfig
}

/// What the body of the answer to the last request of an action is read as.
pub open spec fn expected_kind(action: ActionView) -> RestKind {
    match action {
        ActionView::Health => RestKind::Health,
        ActionView::GetStatus => RestKind::Status,
        ActionView::Wake | ActionView::Sleep => RestKind::Message,
        ActionView::CreateConnection(..) => RestKind::Created,
        ActionView::GetConnection(_) => RestKind::Connection,
        ActionView::ListConnections => RestKind::Connections,
        ActionView::AddMetric(_) => RestKind::MetricId,
        ActionView::GetMetric(_) | ActionView::ListMetrics => RestKind::Metrics,
        ActionView::QueryEvents(..) => RestKind::Events,
        ActionView::EnableGroup(_) | ActionView::DisableGroup(_) => RestKind::Affected,
        ActionView::ListGroups => RestKind::Groups,
        ActionView::ValidateExpression(..) => RestKind::Validation,
        ActionView::GetConfig => RestKind::Config,
        ActionView::ValidateConfig(_) => RestKind::Valid,
        ActionView::GetMcpUsage => RestKind::Usage,
        _ => RestKind::Plain,
    }
}

/// The error of an answer that could not be read to its end.
pub open spec fn unread_error(error: Seq<char>) -> ApiErrorView {
    plain_error("Failed to read response: "@ + error)
}

/// The error in what a body was read as: a connection that was created without details, or a
/// metric that is not listed.
pub open spec fn reply_error(action: ActionView, reply: RestReply, raw: Seq<char>) -> Option<
    ApiErrorView,
> {
    match reply {
        RestReply::Created { connection: None, .. } => Some(
            raw_error("Response missing connection details"@, raw),
        ),
        RestReply::Metrics { metrics } => match action {
            ActionView::GetMetric(name) => if message_index(metrics@, name) == metrics@.len() {
                Some(metric_missing(name))
            } else {
                None
            },
            _ => None,
        },
        _ => None,
    }
}

/// The error that the answer to the last request of an action means. A health check is answered
/// by every status; where the body is not needed the status decides alone; for usage statistics
/// the status comes first, and a body that cannot be read is an empty one; everything else is
/// read before its status is looked at.
pub open spec fn answer_error(action: ActionView, a: RestAnswer) -> Option<ApiErrorView> {
    let failed = if a.success {
        None
    } else {
        status_failure(action, a.status@, raw_text(a), opt_view(a.reported))
    };
    let read = match a.parsed {
        Ok(reply) => reply_error(action, reply, raw_text(a)),
        Err(e) => Some(unreadable(action, e@, raw_text(a))),
    };
    if action is Health {
        if a.success {
            read
        } else {
            None
        }
    } else if body_is_unneeded(action) {
        failed
    } else if action is GetMcpUsage {
        if failed is Some {
            failed
        } else {
            read
        }
    } else {
        match a.body {
            Err(e) => Some(unread_error(e@)),
            Ok(_) => if failed is Some {
                failed
            } else {
                read
            },
        }
    }
}

/// An answer to a health check says that the daemon is healthy.
pub open spec fn says_healthy(a: RestAnswer) -> bool {
    match a.parsed {
        Ok(RestReply::Health { status }) => a.success && status@ == "ok"@,
        _ => false,
    }
}

/// An event is what a body means that was read as a reply and has the text `raw`, where it is no
/// error.
pub open spec fn reply_is(
    action: ActionView,
    reply: RestReply,
    raw: Seq<char>,
    now_micros: i64,
    event: Event,
) -> bool {
    match reply {
        RestReply::Health { .. } => false,
        RestReply::Status {
            status,
            uptime_seconds,
            active_connections,
            total_metrics,
            active_metrics,
        } => event matches Event::Status(Ok(r)) && opt_view(r.raw_response) == Some(raw) && r.data
            == (StatusInfo {
            mode: status,
            uptime_seconds,
            active_connections,
            total_metrics,
            enabled_metrics: active_metrics,
        }),
        RestReply::Message { status, message } => event matches Event::Text(Ok(r)) && opt_view(
            r.raw_response,
        ) == Some(raw) && r.data@ == status@ + ": "@ + message@,
        RestReply::Created { connection_id, connection } => event matches Event::Connection(Ok(r))
            && opt_view(r.raw_response) == Some(raw) && connection is Some && r.data@ == (
        ConnectionInfoView { connection_id: connection_id@, ..known_connection(connection->0) }),
        RestReply::Connection { connection } => event matches Event::Connection(Ok(r)) && opt_view(
            r.raw_response,
        ) == Some(raw) && r.data@ == known_connection(connection),
        RestReply::Connections { connections } => event matches Event::Connections(Ok(r))
            && opt_view(r.raw_response) == Some(raw) && r.data@.len() == connections@.len()
            && forall|i: int|
            0 <= i < connections@.len() ==> (#[trigger] r.data@[i])@ == known_connection(
                connections@[i],
            ),
        RestReply::MetricId { metric_id } => event matches Event::Text(Ok(r)) && opt_view(
            r.raw_response,
        ) == Some(raw) && r.data@ == decimal(metric_id as nat),
        RestReply::Metrics { metrics } => match action {
            ActionView::GetMetric(name) => event matches Event::Metric(Ok(r))
                && r.raw_response is None && r.data@ == listed_metric(
                ""@,
                metrics@[message_index(metrics@, name) as int],
            ),
            _ => event matches Event::Metrics(Ok(r)) && opt_view(r.raw_response) == Some(raw)
                && r.data@.len() == metrics@.len() && forall|i: int|
                0 <= i < metrics@.len() ==> (#[trigger] r.data@[i])@ == listed_metric(
                    ""@,
                    metrics@[i],
                ),
        },
        RestReply::Events { events } => event matches Event::Events(Ok(r)) && opt_view(
            r.raw_response,
        ) == Some(raw) && r.data@.len() == events@.len() && forall|i: int|
            0 <= i < events@.len() ==> rest_event_is(
                #[trigger] r.data@[i],
                events@[i],
                now_micros,
            ),
        RestReply::Affected { success_count } => event matches Event::Count(Ok(r)) && opt_view(
            r.raw_response,
        ) == Some(raw) && r.data == success_count,
        RestReply::Groups { groups } => event matches Event::Groups(Ok(r)) && opt_view(
            r.raw_response,
        ) == Some(raw) && r.data == groups,
        RestReply::Validation { is_safe, violations } => event matches Event::Validation(Ok(r))
            && opt_view(r.raw_response) == Some(raw) && r.data == (ValidationResult {
            is_safe,
            issues: violations,
        }),
        RestReply::Config { config_toml } => event matches Event::Text(Ok(r)) && opt_view(
            r.raw_response,
        ) == Some(raw) && r.data == config_toml,
        RestReply::Valid { valid } => event matches Event::Valid(Ok(r)) && opt_view(r.raw_response)
            == Some(raw) && r.data == valid,
        RestReply::Usage { usage } => event matches Event::Usage(Ok(r)) && opt_view(r.raw_response)
            == Some(raw) && r.data == usage,
        RestReply::Plain => event matches Event::Text(Ok(r)) && opt_view(r.raw_response) == Some(
            raw,
        ) && r.data@ == raw,
    }
}

/// An event is what the answer to the last request of an action means, where it is no error.
pub open spec fn answer_is(
    action: ActionView,
    a: RestAnswer,
    now_micros: i64,
    event: Event,
) -> bool {
    if action is Health {
        event matches Event::Health(Ok(healthy)) && healthy == says_healthy(a)
    } else if body_is_unneeded(action) {
        event matches Event::Done(Ok(r)) && r.raw_response is None
    } else {
        match a.parsed {
            Ok(reply) => reply_is(action, reply, raw_text(a), now_micros, event),
            Err(_) => false,
        }
    }
}

/// The ages of the events of an answer can be told.
pub open spec fn answer_ages_known(answer: RestAnswer, now_micros: i64) -> bool {
    answer.parsed matches Ok(RestReply::Events { events }) ==> forall|i: int|
        0 <= i < events@.len() ==> has_age(#[trigger] events@[i], now_micros)
}

fn take_connections(connections: Vec<ConnectionMessage>) -> (r: Vec<ConnectionInfo>)
    ensures
        r@.len() == connections@.len(),
        forall|i: int|
            0 <= i < connections@.len() ==> (#[trigger] r@[i])@ == known_connection(
                connections@[i],
            ),
{
    let ghost all = connections@;
    let mut rest: Vec<ConnectionMessage> = connections;
    let mut back: Vec<ConnectionInfo> = Vec::new();
    while rest.len() > 0
        invariant
            rest@ == all.subrange(0, rest@.len() as int),
            rest@.len() + back@.len() == all.len(),
            forall|i: int|
                0 <= i < back@.len() ==> (#[trigger] back@[i])@ == known_connection(
                    all[all.len() - 1 - i],
                ),
        decreases rest.len(),
    {
        match rest.pop() {
            Some(c) => {
                assert(c == all[rest@.len() as int]);
                back.push(connection_info(c));
                assert(rest@ =~= all.subrange(0, rest@.len() as int));
            },
            None => {},
        }
    }
    reversed(back)
}

fn take_events(events: Vec<EventRecord>, now_micros: i64) -> (r: Vec<EventInfo>)
    requires
        forall|i: int| 0 <= i < events@.len() ==> has_age(#[trigger] events@[i], now_micros),
    ensures
        r@.len() == events@.len(),
        forall|i: int|
            0 <= i < events@.len() ==> rest_event_is(#[trigger] r@[i], events@[i], now_micros),
{
    let ghost all = events@;
    let mut rest: Vec<EventRecord> = events;
    let mut back: Vec<EventInfo> = Vec::new();
    while rest.len() > 0
        invariant
            forall|i: int| 0 <= i < all.len() ==> has_age(#[trigger] all[i], now_micros),
            rest@ == all.subrange(0, rest@.len() as int),
            rest@.len() + back@.len() == all.len(),
            forall|i: int|
                0 <= i < back@.len() ==> rest_event_is(
                    #[trigger] back@[i],
                    all[all.len() - 1 - i],
                    now_micros,
                ),
        decreases rest.len(),
    {
        match rest.pop() {
            Some(e) => {
                assert(e == all[rest@.len() as int]);
                back.push(event_info(e, now_micros));
                assert(rest@ =~= all.subrange(0, rest@.len() as int));
            },
            None => {},
        }
    }
    reversed(back)
}

proof fn lemma_index_agrees(messages: Seq<MetricMessage>, infos: Seq<MetricInfo>, name: Seq<char>)
    requires
        infos.len() == messages.len(),
        forall|i: int|
            0 <= i < messages.len() ==> (#[trigger] infos[i])@ == listed_metric(""@, messages[i]),
    ensures
        metric_index(infos, name) == message_index(messages, name),
    decreases messages.len(),
{
    if messages.len() > 0 {
        assert(infos[0]@ == listed_metric(""@, messages[0]));
        let m = messages.drop_first();
        let k = infos.drop_first();
        assert forall|i: int| 0 <= i < m.len() implies (#[trigger] k[i])@ == listed_metric(
            ""@,
            m[i],
        ) by {
            assert(k[i] == infos[i + 1]);
        }
        lemma_index_agrees(m, k, name);
    }
}

fn read_body(action: &Action, reply: RestReply, raw: String, now_micros: i64) -> (r: Result<
    Event,
    ApiError,
>)
    requires
        !(reply is Health),
        reply matches RestReply::Events { events } ==> forall|i: int|
            0 <= i < events@.len() ==> has_age(#[trigger] events@[i], now_micros),
    ensures
        match r {
            Ok(event) => reply_error(action@, reply, raw@) is None && reply_is(
                action@,
                reply,
                raw@,
                now_micros,
                event,
            ),
            Err(e) => reply_error(action@, reply, raw@) == Some(e@),
        },
{
    match reply {
        RestReply::Status {
            status,
            uptime_seconds,
            active_connections,
            total_metrics,
            active_metrics,
        } => {
            let info: StatusInfo = status_info(
                status,
                uptime_seconds,
                active_connections,
                total_metrics,
                active_metrics,
            );
            Ok(Event::Status(Ok(ApiResponse::new(info).with_raw(raw))))
        },
        RestReply::Message { status, message } => {
            let text: String = status_message(status.as_str(), message.as_str());
            Ok(Event::Text(Ok(ApiResponse::new(text).with_raw(raw))))
        },
        RestReply::Created { connection_id, connection } => match created_connection(
            connection_id,
            connection,
            raw.as_str(),
        ) {
            Ok(info) => Ok(Event::Connection(Ok(ApiResponse::new(info).with_raw(raw)))),
            Err(e) => Err(e),
        },
        RestReply::Connection { connection } => Ok(
            Event::Connection(Ok(ApiResponse::new(connection_info(connection)).with_raw(raw))),
        ),
        RestReply::Connections { connections } => Ok(
            Event::Connections(Ok(ApiResponse::new(take_connections(connections)).with_raw(raw))),
        ),
        RestReply::MetricId { metric_id } => Ok(
            Event::Text(Ok(ApiResponse::new(num(metric_id)).with_raw(raw))),
        ),
        RestReply::Metrics { metrics } => {
            let ghost listed = metrics@;
            let known: Vec<MetricInfo> = take_metrics("", metrics);
            match action {
                Action::GetMetric { name } => {
                    proof {
                        lemma_index_agrees(listed, known@, name@);
                    }
                    match get_metric(known, name.as_str()) {
                        Ok(m) => Ok(Event::Metric(Ok(ApiResponse::new(m)))),
                        Err(e) => Err(e),
                    }
                },
                _ => Ok(Event::Metrics(Ok(ApiResponse::new(known).with_raw(raw)))),
            }
        },
        RestReply::Events { events } => Ok(
            Event::Events(Ok(ApiResponse::new(take_events(events, now_micros)).with_raw(raw))),
        ),
        RestReply::Affected { success_count } => Ok(
            Event::Count(Ok(ApiResponse::new(success_count).with_raw(raw))),
        ),
        RestReply::Groups { groups } => Ok(Event::Groups(Ok(ApiResponse::new(groups).with_raw(raw)))),
        RestReply::Validation { is_safe, violations } => {
            let result: ValidationResult = ValidationResult { is_safe, issues: violations };
            Ok(Event::Validation(Ok(ApiResponse::new(result).with_raw(raw))))
        },
        RestReply::Config { config_toml } => Ok(
            Event::Text(Ok(ApiResponse::new(config_toml).with_raw(raw))),
        ),
        RestReply::Valid { valid } => Ok(Event::Valid(Ok(ApiResponse::new(valid).with_raw(raw)))),
        RestReply::Usage { usage } => Ok(Event::Usage(Ok(ApiResponse::new(usage).with_raw(raw)))),
        RestReply::Plain | RestReply::Health { .. } => {
            let text: String = raw.clone();
            Ok(Event::Text(Ok(ApiResponse::new(text).with_raw(raw))))
        },
    }
}

fn needs_no_body(action: &Action) -> (r: bool)
    ensures
        r == body_is_unneeded(action@),
{
    matches!(
        action,
        Action::CloseConnection { .. } | Action::RemoveMetric { .. } | Action::ToggleMetric { .. }
        | Action::UpdateConfig { .. } | Action::ReloadConfig
    )
}

/// What the answer to the last request of an action means.
pub fn read_answer(action: &Action, answer: RestAnswer, now_micros: i64) -> (r: Result<
    Event,
    ApiError,
>)
    requires
        answer.parsed matches Ok(reply) ==> reply.spec_kind() == expected_kind(action@),
        answer_ages_known(answer, now_micros),
    ensures
        match r {
            Ok(event) => answer_error(action@, answer) is None && answer_is(
                action@,
                answer,
                now_micros,
                event,
            ),
            Err(e) => answer_error(action@, answer) == Some(e@),
        },
{
    let unread: Option<ApiError> = match &answer.body {
        Ok(_) => None,
        Err(e) => Some(read_error(e.as_str())),
    };
    let raw: String = match answer.body {
        Ok(text) => text,
        Err(_) => String::new(),
    };
    let failed: Option<ApiError> = if answer.success {
        None
    } else {
        status_error(action, answer.status.as_str(), raw.as_str(), &answer.reported)
    };
    if let Action::Health = action {
        if !answer.success {
            return Ok(Event::Health(Ok(false)));
        }
        return match answer.parsed {
            Ok(RestReply::Health { status }) => Ok(
                Event::Health(Ok(is_healthy(true, status.as_str()))),
            ),
            Ok(_) => Ok(Event::Health(Ok(false))),
            Err(e) => Err(parse_error(action, e.as_str(), raw.as_str())),
        };
    }
    if needs_no_body(action) {
        return match failed {
            Some(e) => Err(e),
            None => Ok(Event::Done(Ok(ApiResponse::new(())))),
        };
    }
    if let Action::GetMcpUsage = action {
    } else if let Some(e) = unread {
        return Err(e);
    }
    if let Some(e) = failed {
        return Err(e);
    }
    match answer.parsed {
        Ok(reply) => read_body(action, reply, raw, now_micros),
        Err(e) => Err(parse_error(action, e.as_str(), raw.as_str())),
    }
}

/// The error of an answer to a query for events since a point in time: it is read first, then its
/// status is looked at.
pub open spec fn since_answer_error(a: RestAnswer) -> Option<ApiErrorView> {
    match (a.body, a.parsed) {
        (Err(e), _) => Some(unread_error(e@)),
        (Ok(raw), parsed) => if !a.success {
            Some(raw_error("HTTP "@ + a.status@ + " - "@ + raw@, raw@))
        } else {
            match parsed {
                Ok(_) => None,
                Err(e) => Some(raw_error("Failed to parse response: "@ + e@, raw@)),
            }
        },
    }
}

/// What the answer to a query for events since a point in time means.
pub fn read_events_since(answer: RestAnswer, now_micros: i64) -> (r: Result<
    ApiResponse<Vec<EventInfo>>,
    ApiError,
>)
    requires
        answer.parsed matches Ok(reply) ==> reply is Events,
        answer_ages_known(answer, now_micros),
    ensures
        match r {
            Ok(found) => {
                &&& since_answer_error(answer) is None
                &&& opt_view(found.raw_response) == Some(raw_text(answer))
                &&& answer.parsed matches Ok(RestReply::Events { events })
                &&& found.data@.len() == events@.len()
                &&& forall|i: int|
                    0 <= i < events@.len() ==> rest_event_is(
                        #[trigger] found.data@[i],
                        events@[i],
                        now_micros,
                    )
            },
            Err(e) => since_answer_error(answer) == Some(e@),
        },
{
    match answer.body {
        Err(e) => Err(read_error(e.as_str())),
        Ok(raw) => if !answer.success {
            Err(since_error(answer.status.as_str(), raw.as_str()))
        } else {
            match answer.parsed {
                Ok(RestReply::Events { events }) => Ok(
                    ApiResponse::new(take_events(events, now_micros)).with_raw(raw),
                ),
                Ok(_) => Ok(ApiResponse::new(Vec::new())),
                Err(e) => Err(
                    ApiError::new(cat2("Failed to parse response: ", e.as_str())).with_raw(raw),
                ),
            }
        },
    }
}

// ---------------------------------------------------------------------------
// Calls
// ---------------------------------------------------------------------------

/// Where a call stands.
#[derive(Debug, Clone, Copy, PartialEq, Eq, Structural)]
pub enum RestPhase {
    /// It asks for the metrics, to see that the one to be removed is there.
    Checking,
    /// It asks for the metrics, to find the number of the one that the action names.
    Finding,
    /// It has sent the request that the action is about.
    Sending,
    Over,
}

/// An action that is performed over HTTP.
#[derive(Debug)]
pub struct RestCall {
    pub client: RestClient,
    pub action: Action,
    pub phase: RestPhase,
}

/// The mathematical counterpart of [`RestCall`].
pub struct RestCallView {
    pub base_url: Seq<char>,
    pub action: ActionView,
    pub phase: RestPhase,
}

impl View for RestCall {
    type V = RestCallView;

    open spec fn view(&self) -> RestCallView {
        RestCallView {
            base_url: self.client.base_url@,
            action: self.action@,
            phase: self.phase,
        }
    }
}

/// How a call goes on.
pub enum RestNext {
    Send(HttpRequestView),
    /// It sends the request that adds a metric at a file and a line.
    SendMetric(AddMetricRequestView, Seq<char>, u32),
    /// It ends with an error.
    Fail(ApiErrorView),
    /// It ends with what an answer means.
    Answer(RestAnswer),
}

/// One turn of a call: its state, and how it goes on.
pub struct RestTurn {
    pub state: RestCallView,
    pub next: RestNext,
}

/// The error of an action that REST does not offer.
pub open spec fn rest_refused(action: ActionView) -> Option<ApiErrorView> {
    match action {
        ActionView::Observe(_) => Some(
            plain_error("observe tool is only supported on MCP backend, not "@ + "REST"@),
        ),
        ActionView::EnableFromDiff(_) => Some(
            plain_error("enable_from_diff tool is only supported on MCP backend, not "@ + "REST"@),
        ),
        ActionView::QuerySystemEvents(..) | ActionView::AcknowledgeSystemEvents(_) => Some(
            plain_error("System events are not available via REST API. Use MCP instead."@),
        ),
        _ => None,
    }
}

/// The request for the metrics.
pub open spec fn list_request(base_url: Seq<char>) -> HttpRequestView {
    HttpRequestView { method: HttpMethod::Get, url: base_url + "/api/v1/metrics"@, body: None }
}

/// The metric that an action needs the number of.
pub open spec fn sought(action: ActionView) -> Seq<char> {
    match action {
        ActionView::RemoveMetric(name) => name,
        ActionView::ToggleMetric(name, _) => name,
        _ => Seq::empty(),
    }
}

/// The request for a metric by its number: it is removed, enabled or disabled.
pub open spec fn numbered_request(base_url: Seq<char>, action: ActionView, metric_id: u64) ->
    HttpRequestView {
    let url = base_url + "/api/v1/metrics/"@ + decimal(metric_id as nat);
    match action {
        ActionView::ToggleMetric(_, enabled) => HttpRequestView {
            method: HttpMethod::Post,
            url: url + "/"@ + (if enabled {
                "enable"@
            } else {
                "disable"@
            }),
            body: None,
        },
        _ => HttpRequestView { method: HttpMethod::Delete, url, body: None },
    }
}

impl RestCallView {
    /// The phase is one that a call of the action can be in.
    pub open spec fn wf(self) -> bool {
        &&& self.action.is_call()
        &&& match self.phase {
            RestPhase::Checking => self.action is RemoveMetric,
            RestPhase::Finding => self.action is RemoveMetric || self.action is ToggleMetric,
            RestPhase::Sending => rest_refused(self.action) is None,
            RestPhase::Over => true,
        }
    }

    /// The call goes on in a phase.
    pub open spec fn goes_on(self, phase: RestPhase, next: RestNext) -> RestTurn {
        RestTurn { state: RestCallView { phase, ..self }, next }
    }

    /// The call fails.
    pub open spec fn fails(self, error: ApiErrorView) -> RestTurn {
        self.goes_on(RestPhase::Over, RestNext::Fail(error))
    }
}

/// How a call begins. Removing and toggling a metric begin with a list of the metrics, and getting
/// one is a list; a metric is added only where its location can be read; everything else is one
/// request.
pub open spec fn rest_begun(base_url: Seq<char>, action: ActionView) -> RestTurn {
    let s = RestCallView { base_url, action, phase: RestPhase::Sending };
    match rest_refused(action) {
        Some(e) => s.fails(e),
        None => match action {
            ActionView::RemoveMetric(_) => s.goes_on(
                RestPhase::Checking,
                RestNext::Send(list_request(base_url)),
            ),
            ActionView::ToggleMetric(..) => s.goes_on(
                RestPhase::Finding,
                RestNext::Send(list_request(base_url)),
            ),
            ActionView::GetMetric(_) => s.goes_on(
                RestPhase::Sending,
                RestNext::Send(list_request(base_url)),
            ),
            ActionView::AddMetric(request) => match located(
                request.location,
                location_format_error(request.location),
            ) {
                Ok((file, line)) => s.goes_on(
                    RestPhase::Sending,
                    RestNext::SendMetric(request, file, line),
                ),
                Err(e) => s.fails(e),
            },
            _ => s.goes_on(RestPhase::Sending, RestNext::Send(request_of(base_url, action)->0)),
        },
    }
}

/// How a call goes on with a list of the metrics that it was looking a metric up in. What cannot be
/// read is reported as for the list itself while the call only checks.
pub open spec fn on_list(s: RestCallView, a: RestAnswer) -> RestTurn {
    match a.body {
        Err(e) => s.fails(unread_error(e@)),
        Ok(raw) => match a.parsed {
            Err(e) => s.fails(
                unreadable(
                    if s.phase is Checking {
                        ActionView::ListMetrics
                    } else {
                        s.action
                    },
                    e@,
                    raw@,
                ),
            ),
            Ok(RestReply::Metrics { metrics }) => {
                let k = message_index(metrics@, sought(s.action));
                if k == metrics@.len() {
                    s.fails(metric_missing(sought(s.action)))
                } else if s.phase is Checking {
                    s.goes_on(RestPhase::Finding, RestNext::Send(list_request(s.base_url)))
                } else {
                    s.goes_on(
                        RestPhase::Sending,
                        RestNext::Send(
                            numbered_request(s.base_url, s.action, metrics@[k as int].metric_id),
                        ),
                    )
                }
            },
            Ok(_) => s.fails(metric_missing(sought(s.action))),
        },
    }
}

/// How a call goes on with what came of its last request.
pub open spec fn on_response(s: RestCallView, input: RestInput) -> RestTurn {
    let lists = s.phase is Checking || s.phase is Finding;
    match input {
        RestInput::NotSent { error } => s.fails(
            plain_error(
                send_failure(
                    if lists {
                        ActionView::ListMetrics
                    } else {
                        s.action
                    },
                ) + error@,
            ),
        ),
        RestInput::Answered { answer } => if lists {
            on_list(s, answer)
        } else {
            match answer_error(s.action, answer) {
                Some(e) => s.fails(e),
                None => s.goes_on(RestPhase::Over, RestNext::Answer(answer)),
            }
        },
    }
}

/// What the body of the next answer is read as.
pub open spec fn awaited(s: RestCallView) -> RestKind {
    if s.phase is Checking || s.phase is Finding {
        RestKind::Metrics
    } else {
        expected_kind(s.action)
    }
}

/// What came of a request is of the kind that the call waits for.
pub open spec fn rest_accepts(s: RestCallView, input: RestInput, now_micros: i64) -> bool {
    &&& !(s.phase is Over)
    &&& input matches RestInput::Answered { answer } ==> {
        &&& answer.parsed matches Ok(reply) ==> reply.spec_kind() == awaited(s)
        &&& answer_ages_known(answer, now_micros)
    }
}

/// A request adds a metric at a file and a line.
pub open spec fn adds_metric(
    q: HttpRequest,
    base_url: Seq<char>,
    request: AddMetricRequestView,
    file: Seq<char>,
    line: u32,
) -> bool {
    &&& q.method is Post
    &&& q.url@ == base_url + "/api/v1/metrics"@
    &&& exists|b: CreateMetricRequest|
        {
            &&& #[trigger] body_of(b, request)
            &&& b.location.file@ == file
            &&& b.location.line == line
            &&& opt_json_view(q.body) == Some(create_metric_json(b))
        }
}

/// A step is how a call goes on.
pub open spec fn rest_step_is(step: RestStep, turn: RestTurn, now_micros: i64) -> bool {
    match turn.next {
        RestNext::Send(request) => step matches RestStep::Send(q) && q@ == request,
        RestNext::SendMetric(request, file, line) => step matches RestStep::Send(q) && adds_metric(
            q,
            turn.state.base_url,
            request,
            file,
            line,
        ),
        RestNext::Fail(error) => step matches RestStep::Finish(event) && event.spec_kind()
            == turn.state.action.answer() && event.error() is Some && event.error()->0@ == error,
        RestNext::Answer(answer) => step matches RestStep::Finish(event) && answer_is(
            turn.state.action,
            answer,
            now_micros,
            event,
        ),
    }
}

fn list_request_exec(base_url: &str) -> (r: HttpRequest)
    ensures
        r@ == list_request(base_url@),
{
    HttpRequest { method: HttpMethod::Get, url: cat2(base_url, "/api/v1/metrics"), body: None }
}

fn rest_ended(action: &Action, error: ApiError) -> (r: RestStep)
    requires
        action@.is_call(),
    ensures
        r matches RestStep::Finish(event) && event.spec_kind() == action@.answer() && event.error()
            == Some(error),
{
    match failure(action, error) {
        Some(event) => RestStep::Finish(event),
        None => RestStep::Finish(Event::Paused),
    }
}

fn expected(action: &Action) -> (r: RestKind)
    ensures
        r == expected_kind(action@),
{
    match action {
        Action::Health => RestKind::Health,
        Action::GetStatus => RestKind::Status,
        Action::Wake | Action::Sleep => RestKind::Message,
        Action::CreateConnection { .. } => RestKind::Created,
        Action::GetConnection { .. } => RestKind::Connection,
        Action::ListConnections => RestKind::Connections,
        Action::AddMetric { .. } => RestKind::MetricId,
        Action::GetMetric { .. } | Action::ListMetrics => RestKind::Metrics,
        Action::QueryEvents { .. } => RestKind::Events,
        Action::EnableGroup { .. } | Action::DisableGroup { .. } => RestKind::Affected,
        Action::ListGroups => RestKind::Groups,
        Action::ValidateExpression { .. } => RestKind::Validation,
        Action::GetConfig => RestKind::Config,
        Action::ValidateConfig { .. } => RestKind::Valid,
        Action::GetMcpUsage => RestKind::Usage,
        _ => RestKind::Plain,
    }
}

impl RestCall {
    fn begun(client: RestClient, action: Action, phase: RestPhase, request: HttpRequest) -> (r: (
        RestCall,
        RestStep,
    ))
        ensures
            r.0 == (RestCall { client, action, phase }),
            r.1 == RestStep::Send(request),
    {
        (RestCall { client, action, phase }, RestStep::Send(request))
    }

    fn refused(client: RestClient, action: Action, error: ApiError) -> (r: (RestCall, RestStep))
        requires
            action@.is_call(),
        ensures
            r.0 == (RestCall { client, action, phase: RestPhase::Over }),
            r.1 matches RestStep::Finish(event) && event.spec_kind() == action@.answer()
                && event.error() == Some(error),
    {
        let step: RestStep = rest_ended(&action, error);
        (RestCall { client, action, phase: RestPhase::Over }, step)
    }

    /// Begins to perform an action on a server.
    pub fn start(client: RestClient, action: Action) -> (r: (RestCall, RestStep))
        requires
            action@.is_call(),
        ensures
            r.0@ == rest_begun(client.base_url@, action@).state,
            r.0@.wf(),
            rest_step_is(r.1, rest_begun(client.base_url@, action@), 0),
    {
        if let Some(e) = mcp_only(&action, "REST") {
            return Self::refused(client, action, e);
        }
        let list: HttpRequest = list_request_exec(client.base_url.as_str());
        match &action {
            Action::QuerySystemEvents { .. } | Action::AcknowledgeSystemEvents { .. } => {
                return Self::refused(client, action, system_events_unsupported());
            },
            Action::RemoveMetric { .. } => {
                return Self::begun(client, action, RestPhase::Checking, list);
            },
            Action::ToggleMetric { .. } => {
                return Self::begun(client, action, RestPhase::Finding, list);
            },
            Action::GetMetric { .. } => {
                return Self::begun(client, action, RestPhase::Sending, list);
            },
            Action::AddMetric { request } => {
                return match create_metric_request(request) {
                    Ok(body) => {
                        let q: HttpRequest = HttpRequest {
                            method: HttpMethod::Post,
                            url: cat2(client.base_url.as_str(), "/api/v1/metrics"),
                            body: Some(body.to_json()),
                        };
                        assert(body_of(body, request@));
                        Self::begun(client, action, RestPhase::Sending, q)
                    },
                    Err(e) => Self::refused(client, action, e),
                };
            },
            _ => {},
        }
        match client.request(&action) {
            Some(q) => Self::begun(client, action, RestPhase::Sending, q),
            None => Self::begun(client, action, RestPhase::Sending, list),
        }
    }

    /// What the body of the next answer is to be read as.
    pub fn expects(&self) -> (r: RestKind)
        ensures
            r == awaited(self@),
    {
        match self.phase {
            RestPhase::Checking | RestPhase::Finding => RestKind::Metrics,
            _ => expected(&self.action),
        }
    }

    /// Whether what came of a request is of the kind that the call waits for.
    pub fn accepts(&self, input: &RestInput, now_micros: i64) -> (r: bool)
        ensures
            r == rest_accepts(self@, *input, now_micros),
    {
        if self.phase == RestPhase::Over {
            return false;
        }
        match input {
            RestInput::NotSent { .. } => true,
            RestInput::Answered { answer } => match &answer.parsed {
                Ok(reply) => reply.kind() == self.expects() && match reply {
                    RestReply::Events { events } => all_ages_known(events, now_micros),
                    _ => true,
                },
                Err(_) => true,
            },
        }
    }

    fn listed(&mut self, answer: RestAnswer) -> (r: RestStep)
        requires
            old(self)@.wf(),
            old(self).phase is Checking || old(self).phase is Finding,
        ensures
            final(self)@ == on_list(old(self)@, answer).state,
            final(self)@.wf(),
            rest_step_is(r, on_list(old(self)@, answer), 0),
            !(on_list(old(self)@, answer).next is Answer),
    {
        let checking: bool = self.phase == RestPhase::Checking;
        let name: String = match &self.action {
            Action::RemoveMetric { name } => name.clone(),
            Action::ToggleMetric { name, .. } => name.clone(),
            _ => String::new(),
        };
        assert(name@ == sought(self.action@));
        let found: Result<u64, ApiError> = match answer.body {
            Err(e) => Err(read_error(e.as_str())),
            Ok(raw) => match answer.parsed {
                Err(e) => Err(
                    parse_error(
                        if checking {
                            &Action::ListMetrics
                        } else {
                            &self.action
                        },
                        e.as_str(),
                        raw.as_str(),
                    ),
                ),
                Ok(RestReply::Metrics { metrics }) => metric_id(&metrics, name.as_str()),
                Ok(_) => metric_id(&Vec::new(), name.as_str()),
            },
        };
        match found {
            Err(e) => {
                self.phase = RestPhase::Over;
                rest_ended(&self.action, e)
            },
            Ok(id) => if checking {
                self.phase = RestPhase::Finding;
                RestStep::Send(list_request_exec(self.client.base_url.as_str()))
            } else {
                self.phase = RestPhase::Sending;
                RestStep::Send(
                    match &self.action {
                        Action::ToggleMetric { enabled, .. } => HttpRequest {
                            method: HttpMethod::Post,
                            url: self.client.toggle_metric_url(id, *enabled),
                            body: None,
                        },
                        _ => HttpRequest {
                            method: HttpMethod::Delete,
                            url: self.client.delete_metric_url(id),
                            body: None,
                        },
                    },
                )
            },
        }
    }

    /// Takes what came of the last request.
    pub fn resume(&mut self, input: RestInput, now_micros: i64) -> (r: RestStep)
        requires
            old(self)@.wf(),
            rest_accepts(old(self)@, input, now_micros),
        ensures
            final(self)@ == on_response(old(self)@, input).state,
            final(self)@.wf(),
            rest_step_is(r, on_response(old(self)@, input), now_micros),
    {
        let lists: bool = match self.phase {
            RestPhase::Checking | RestPhase::Finding => true,
            _ => false,
        };
        match input {
            RestInput::NotSent { error } => {
                self.phase = RestPhase::Over;
                let e: ApiError = if lists {
                    send_error(&Action::ListMetrics, error.as_str())
                } else {
                    send_error(&self.action, error.as_str())
                };
                rest_ended(&self.action, e)
            },
            RestInput::Answered { answer } => if lists {
                self.listed(answer)
            } else {
                self.phase = RestPhase::Over;
                match read_answer(&self.action, answer, now_micros) {
                    Ok(event) => RestStep::Finish(event),
                    Err(e) => rest_ended(&self.action, e),
                }
            },
        }
    }
}

/// The number of requests that a call can still be waiting for.
pub open spec fn requests_left(s: RestCallView) -> nat {
    match s.phase {
        RestPhase::Checking => 3,
        RestPhase::Finding => 2,
        RestPhase::Sending => 1,
        RestPhase::Over => 0,
    }
}

/// A call always comes to its end: every answer brings it closer, and it has ended exactly when it
/// no longer sends.
pub proof fn law_rest_call_ends(s: RestCallView, input: RestInput, now_micros: i64)
    requires
        s.wf(),
        rest_accepts(s, input, now_micros),
    ensures
        ({
            let turn = on_response(s, input);
            &&& turn.state.wf()
            &&& requests_left(turn.state) < requests_left(s)
            &&& turn.state.phase is Over <==> !(turn.next is Send)
        }),
{
}

/// Whatever ends a call, the event is of the kind that answers its action.
pub proof fn law_rest_call_answers_its_action(
    s: RestCallView,
    input: RestInput,
    now_micros: i64,
    event: Event,
)
    requires
        s.wf(),
        rest_accepts(s, input, now_micros),
        rest_step_is(RestStep::Finish(event), on_response(s, input), now_micros),
    ensures
        event.spec_kind() == s.action.answer(),
{
}

/// A metric is removed or toggled only after a list of the metrics in which it stands: the request
/// for it carries the number that the list gave it.
pub proof fn law_changed_metric_was_listed(s: RestCallView, input: RestInput, now_micros: i64)
    requires
        s.wf(),
        rest_accepts(s, input, now_micros),
        s.action is RemoveMetric || s.action is ToggleMetric,
        on_response(s, input).state.phase is Sending,
    ensures
        s.phase is Finding,
        input matches RestInput::Answered { answer } && answer.parsed matches Ok(
            RestReply::Metrics { metrics },
        ) && {
            let k = message_index(metrics@, sought(s.action));
            &&& k < metrics@.len()
            &&& on_response(s, input).next == RestNext::Send(
                numbered_request(s.base_url, s.action, metrics@[k as int].metric_id),
            )
        },
{
    if let RestInput::Answered { answer } = input {
        if let Ok(RestReply::Metrics { metrics }) = answer.parsed {
            lemma_index_in_range(metrics@, sought(s.action));
        }
    }
}

proof fn lemma_index_in_range(list: Seq<MetricMessage>, name: Seq<char>)
    ensures
        message_index(list, name) <= list.len(),
    decreases list.len(),
{
    if list.len() > 0 {
        lemma_index_in_range(list.drop_first(), name);
    }
}

} // verus!
