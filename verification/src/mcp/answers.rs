//! What the answer of a tool means for the action that called it.

use vstd::prelude::*;

use super::observe::{diff_of_json, embedded_json, observe_of};
use super::tables::{
    events_of, first_reading, group_views, groups_of_lines, list_data, metrics_are, system_data,
    system_data_ok,
};
use super::{
    connection_id_of, connection_views, connections_of_text, content_text, content_text_or_empty,
    first_number_or_zero, metric_id_of,
};
use crate::client::{
    plain_error, ApiError, ApiErrorView, ApiResponse, ConnectionInfoView, EventInfo, McpUsageInfo,
    MetricInfo, StatusInfoView, SystemEventInfo, ValidationResultView,
};
use crate::exchange::{Action, ActionView, Event};
use crate::json::{json_text, text_of_json, Json, JsonView};
use crate::mcp::calls::{named_metric, tool_of};
use crate::mcp::McpClient;
use crate::text::{has_text, lines, opt_view};

verus! {

/// What the readers of typed lists made of an answer.
#[derive(Debug)]
pub enum McpReading {
    /// The metrics of the data, from TOON and from JSON.
    Metrics { toon: Option<Vec<MetricInfo>>, direct: Option<Vec<MetricInfo>> },
    /// The events of the data from TOON and from JSON, of the text from JSON, and of each JSON
    /// block of the text.
    Events {
        toon: Option<Vec<EventInfo>>,
        data: Option<Vec<EventInfo>>,
        text: Option<Vec<EventInfo>>,
        blocks: Vec<Option<EventInfo>>,
    },
    /// The system events of the data from JSON and from TOON, and of the text from JSON.
    SystemEvents {
        data: Option<Vec<SystemEventInfo>>,
        toon: Option<Vec<SystemEventInfo>>,
        text: Option<Vec<SystemEventInfo>>,
    },
    /// The usage statistics of each text, where it is one.
    Usage { found: Vec<Option<McpUsageInfo>> },
    Unread,
}

/// A reading is of the kind that the action needs.
pub open spec fn reading_fits(action: ActionView, reading: McpReading) -> bool {
    match action {
        ActionView::ListMetrics => reading is Metrics,
        ActionView::QueryEvents(..) => reading is Events,
        ActionView::QuerySystemEvents(..) => reading is SystemEvents,
        ActionView::GetMcpUsage => reading is Usage,
        _ => true,
    }
}

/// An answer can be understood: the lines of a list of system events can be dedented.
pub open spec fn can_understand(action: ActionView, json: JsonView) -> bool {
    action is QuerySystemEvents ==> system_data_ok(content_text_or_empty(json))
}

/// The first usage statistics that were found.
pub open spec fn first_found(found: Seq<Option<McpUsageInfo>>) -> Option<McpUsageInfo>
    decreases found.len(),
{
    if found.len() == 0 {
        None
    } else if found[0] is Some {
        found[0]
    } else {
        first_found(found.drop_first())
    }
}

/// The error in an answer that is no error report: what should have been found in it is missing.
pub open spec fn missing_in(action: ActionView, json: JsonView, reading: McpReading) -> Option<
    ApiErrorView,
> {
    match action {
        ActionView::EnableFromDiff(_) => if embedded_json(
            content_text_or_empty(json),
            "\"added\""@,
            "added"@,
        ) is None {
            Some(plain_error("Failed to parse enable_from_diff response"@))
        } else {
            None
        },
        ActionView::GetMcpUsage => if first_found(reading->found@) is None {
            Some(
                ApiErrorView {
                    message: "Failed to parse MCP usage response"@,
                    code: None,
                    raw_response: Some(text_of_json(json)),
                },
            )
        } else {
            None
        },
        _ => None,
    }
}

/// An event is what an answer means for its action, where nothing is missing in it; `connected`
/// is what a connection that was just made is called.
pub open spec fn mcp_answer_is(
    action: ActionView,
    json: JsonView,
    reading: McpReading,
    connected: Seq<char>,
    event: Event,
) -> bool {
    let text = content_text_or_empty(json);
    let raw = Some(text_of_json(json));
    match action {
        ActionView::GetStatus => event matches Event::Status(Ok(r)) && opt_view(r.raw_response)
            == raw && r.data@ == (StatusInfoView {
            mode: if has_text(text, "active"@) {
                "active"@
            } else {
                "sleeping"@
            },
            uptime_seconds: 0,
            active_connections: 0,
            total_metrics: 0,
            enabled_metrics: 0,
        }),
        ActionView::Wake | ActionView::Sleep | ActionView::InspectFile(..)
        | ActionView::GetConfig => event matches Event::Text(Ok(r)) && opt_view(r.raw_response)
            == raw && r.data@ == text,
        ActionView::CreateConnection(host, port, language, _) =>
            event matches Event::Connection(Ok(r)) && opt_view(r.raw_response) == raw && r.data@
            == (ConnectionInfoView {
            connection_id: connection_id_of(text, host, port),
            host,
            port,
            language,
            status: connected,
            safe_mode: false,
        }),
        ActionView::GetConnection(id) => event matches Event::Connection(Ok(r)) && opt_view(
            r.raw_response,
        ) == raw && r.data@ == (ConnectionInfoView {
            connection_id: id,
            host: "127.0.0.1"@,
            port: 5678,
            language: "python"@,
            status: connected,
            safe_mode: false,
        }),
        ActionView::ListConnections => event matches Event::Connections(Ok(r)) && opt_view(
            r.raw_response,
        ) == raw && connection_views(r.data@) == (match content_text(json) {
            Some(t) => connections_of_text(t),
            None => Seq::empty(),
        }),
        ActionView::AddMetric(_) => event matches Event::Text(Ok(r)) && opt_view(r.raw_response)
            == raw && r.data@ == metric_id_of(text),
        ActionView::Observe(_) => event matches Event::Observed(Ok(r)) && opt_view(r.raw_response)
            == raw && r.data@ == observe_of(text),
        ActionView::EnableFromDiff(_) => event matches Event::FromDiff(Ok(r)) && opt_view(
            r.raw_response,
        ) == raw && r.data@ == diff_of_json(embedded_json(text, "\"added\""@, "added"@)->0),
        ActionView::GetMetric(name) => event matches Event::Metric(Ok(r)) && opt_view(
            r.raw_response,
        ) == raw && r.data@ == named_metric(name),
        ActionView::ListMetrics => event matches Event::Metrics(Ok(r)) && opt_view(r.raw_response)
            == raw && metrics_are(json, reading->Metrics_toon, reading->direct, r.data@),
        ActionView::QueryEvents(..) => event matches Event::Events(Ok(r)) && opt_view(
            r.raw_response,
        ) == raw && r.data@ == (if list_data(json) is Some {
            events_of(
                reading->Events_toon,
                reading->Events_data,
                reading->Events_text,
                reading->blocks@,
            )
        } else {
            Seq::empty()
        }),
        ActionView::EnableGroup(_) | ActionView::DisableGroup(_) =>
            event matches Event::Count(Ok(r)) && opt_view(r.raw_response) == raw && r.data
            == first_number_or_zero(text, usize::MAX as nat),
        ActionView::ListGroups => event matches Event::Groups(Ok(r)) && opt_view(r.raw_response)
            == raw && group_views(r.data@) == (match content_text(json) {
            Some(t) => groups_of_lines(lines(t), lines(t).len()),
            None => Seq::empty(),
        }),
        ActionView::ValidateExpression(..) => event matches Event::Validation(Ok(r)) && opt_view(
            r.raw_response,
        ) == raw && r.data@ == (ValidationResultView {
            is_safe: has_text(text, "SAFE"@) && !has_text(text, "UNSAFE"@),
            issues: Seq::empty(),
        }),
        ActionView::ValidateConfig(_) => event matches Event::Valid(Ok(r)) && opt_view(
            r.raw_response,
        ) == raw && r.data == has_text(text, "valid"@),
        ActionView::QuerySystemEvents(..) => event matches Event::SystemEvents(Ok(r)) && opt_view(
            r.raw_response,
        ) == raw && r.data@ == (match first_reading(
            reading->SystemEvents_data,
            reading->SystemEvents_toon,
            reading->SystemEvents_text,
        ) {
            Some(list) => if system_data(text) is Some {
                list@
            } else {
                Seq::empty()
            },
            None => Seq::empty(),
        }),
        ActionView::AcknowledgeSystemEvents(_) => event matches Event::Acknowledged(Ok(r))
            && opt_view(r.raw_response) == raw && r.data == first_number_or_zero(
            text,
            u64::MAX as nat,
        ),
        ActionView::GetMcpUsage => event matches Event::Usage(Ok(r)) && opt_view(r.raw_response)
            == raw && first_found(reading->found@) == Some(r.data),
        _ => event matches Event::Done(Ok(r)) && r.raw_response is None,
    }
}

fn take_found(found: Vec<Option<McpUsageInfo>>) -> (r: Option<McpUsageInfo>)
    ensures
        r == first_found(found@),
{
    let ghost all = found@;
    let mut rest: Vec<Option<McpUsageInfo>> = found;
    let mut first: Option<McpUsageInfo> = None;
    assert(all.subrange(all.len() as int, all.len() as int) =~= Seq::empty());
    while rest.len() > 0
        invariant
            rest@ == all.subrange(0, rest@.len() as int),
            rest@.len() <= all.len(),
            first == first_found(all.subrange(rest@.len() as int, all.len() as int)),
        decreases rest.len(),
    {
        let ghost n = rest@.len();
        match rest.pop() {
            Some(item) => {
                assert(item == all[n - 1]);
                let ghost tail = all.subrange(n - 1, all.len() as int);
                assert(tail[0] == item);
                assert(tail.drop_first() =~= all.subrange(n as int, all.len() as int));
                if item.is_some() {
                    first = item;
                }
                assert(rest@ =~= all.subrange(0, rest@.len() as int));
            },
            None => {},
        }
    }
    assert(all.subrange(0, all.len() as int) =~= all);
    first
}

impl McpClient {
    /// Whether an answer can be understood.
    pub fn understands(action: &Action, json: &Json) -> (r: bool)
        ensures
            r == can_understand(action@, json@),
    {
        match action {
            Action::QuerySystemEvents { .. } => Self::system_events_can_dedent(
                Self::text_or_empty(json).as_str(),
            ),
            _ => true,
        }
    }

    /// Whether a reading is of the kind that the action needs.
    pub fn fits(action: &Action, reading: &McpReading) -> (r: bool)
        ensures
            r == reading_fits(action@, *reading),
    {
        match action {
            Action::ListMetrics => matches!(reading, McpReading::Metrics { .. }),
            Action::QueryEvents { .. } => matches!(reading, McpReading::Events { .. }),
            Action::QuerySystemEvents { .. } => matches!(reading, McpReading::SystemEvents { .. }),
            Action::GetMcpUsage => matches!(reading, McpReading::Usage { .. }),
            _ => true,
        }
    }

    /// What an answer means for the action that called the tool; `connected` is what a connection
    /// that was just made is called.
    pub fn read_answer(action: &Action, json: &Json, reading: McpReading, connected: &str) -> (r:
        Result<Event, ApiError>)
        requires
            tool_of(action@) is Some,
            reading_fits(action@, reading),
            can_understand(action@, json@),
        ensures
            match r {
                Ok(event) => missing_in(action@, json@, reading) is None && mcp_answer_is(
                    action@,
                    json@,
                    reading,
                    connected@,
                    event,
                ),
                Err(e) => missing_in(action@, json@, reading) == Some(e@),
            },
    {
        let raw: String = json_text(json);
        let text: String = Self::text_or_empty(json);
        let t: &str = text.as_str();
        Ok(
            match action {
                Action::GetStatus => Event::Status(
                    Ok(ApiResponse::new(Self::status_of(t)).with_raw(raw)),
                ),
                Action::Wake | Action::Sleep | Action::InspectFile { .. } | Action::GetConfig => {
                    let data: String = t.to_owned();
                    Event::Text(Ok(ApiResponse::new(data).with_raw(raw)))
                },
                Action::CreateConnection { host, port, language, .. } => Event::Connection(
                    Ok(
                        ApiResponse::new(
                            Self::created_connection(
                                json,
                                host.as_str(),
                                *port,
                                language.as_str(),
                                connected,
                            ),
                        ).with_raw(raw),
                    ),
                ),
                Action::GetConnection { id } => Event::Connection(
                    Ok(
                        ApiResponse::new(Self::known_connection(id.as_str(), connected)).with_raw(
                            raw,
                        ),
                    ),
                ),
                Action::ListConnections => Event::Connections(
                    Ok(ApiResponse::new(Self::parse_connections(json)).with_raw(raw)),
                ),
                Action::AddMetric { .. } => Event::Text(
                    Ok(ApiResponse::new(Self::metric_id(t)).with_raw(raw)),
                ),
                Action::Observe { .. } => Event::Observed(
                    Ok(ApiResponse::new(Self::parse_observe_response(t)).with_raw(raw)),
                ),
                Action::EnableFromDiff { .. } => match Self::parse_enable_from_diff_response(t) {
                    Ok(response) => Event::FromDiff(Ok(ApiResponse::new(response).with_raw(raw))),
                    Err(e) => {
                        return Err(e);
                    },
                },
                Action::GetMetric { name } => Event::Metric(
                    Ok(ApiResponse::new(Self::known_metric(name.as_str())).with_raw(raw)),
                ),
                Action::ListMetrics => {
                    let (toon, direct) = match reading {
                        McpReading::Metrics { toon, direct } => (toon, direct),
                        _ => (None, None),
                    };
                    Event::Metrics(
                        Ok(
                            ApiResponse::new(
                                Self::parse_metrics_response(json, toon, direct),
                            ).with_raw(raw),
                        ),
                    )
                },
                Action::QueryEvents { .. } => {
                    let found: Vec<EventInfo> = match reading {
                        McpReading::Events { toon, data, text, blocks } => Self::parse_events(
                            json,
                            toon,
                            data,
                            text,
                            blocks,
                        ),
                        _ => Vec::new(),
                    };
                    Event::Events(Ok(ApiResponse::new(found).with_raw(raw)))
                },
                Action::EnableGroup { .. } | Action::DisableGroup { .. } => Event::Count(
                    Ok(ApiResponse::new(Self::parse_metric_count(t)).with_raw(raw)),
                ),
                Action::ListGroups => Event::Groups(
                    Ok(ApiResponse::new(Self::parse_groups(json)).with_raw(raw)),
                ),
                Action::ValidateExpression { .. } => Event::Validation(
                    Ok(ApiResponse::new(Self::validation_of(t)).with_raw(raw)),
                ),
                Action::ValidateConfig { .. } => Event::Valid(
                    Ok(ApiResponse::new(Self::config_is_valid(t)).with_raw(raw)),
                ),
                Action::QuerySystemEvents { .. } => {
                    let has_data: bool = Self::system_events_content(t).is_some();
                    let found: Vec<SystemEventInfo> = match reading {
                        McpReading::SystemEvents { data, toon, text } => Self::parse_system_events(
                            has_data,
                            data,
                            toon,
                            text,
                        ),
                        _ => Vec::new(),
                    };
                    Event::SystemEvents(Ok(ApiResponse::new(found).with_raw(raw)))
                },
                Action::AcknowledgeSystemEvents { .. } => Event::Acknowledged(
                    Ok(ApiResponse::new(Self::parse_acknowledged(t)).with_raw(raw)),
                ),
                Action::GetMcpUsage => {
                    let usage: Option<McpUsageInfo> = match reading {
                        McpReading::Usage { found } => take_found(found),
                        _ => None,
                    };
                    match usage {
                        Some(data) => Event::Usage(Ok(ApiResponse::new(data).with_raw(raw))),
                        None => {
                            return Err(Self::usage_unreadable(raw.as_str()));
                        },
                    }
                },
                _ => Event::Done(Ok(ApiResponse::new(()))),
            },
        )
    }
}

/// Whatever the tool of an action answers, the event is of the kind that answers the action.
pub proof fn law_answer_fits_action(
    action: ActionView,
    json: JsonView,
    reading: McpReading,
    connected: Seq<char>,
    event: Event,
)
    requires
        tool_of(action) is Some,
        mcp_answer_is(action, json, reading, connected, event),
    ensures
        event.spec_kind() == action.answer(),
{
}

} // verus!
