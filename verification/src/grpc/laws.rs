//! What the messages of the gRPC backend say, and what becomes of the replies.

use vstd::prelude::*;

use crate::client::AddMetricRequestView;
use crate::exchange::{ActionView, Event};
use crate::grpc::calls::{
    answered, message_for, numbered_connection, on_input, reported_error, CallNext, CallView,
    GrpcInput, GrpcPhase, GrpcReply, GrpcRequestView,
};
use crate::grpc::{
    bare_location, event_is, law_location_round_trip, listed_metric, location_text, EventResult, Mode,
};
use crate::text::{decimal, opt_view, signed_decimal};

verus! {

/// The action that a message is understood as; none for one that is about a metric by its number,
/// or that adds one.
pub open spec fn understood(q: GrpcRequestView) -> Option<ActionView> {
    match q {
        GrpcRequestView::GetStatus => Some(ActionView::GetStatus),
        GrpcRequestView::Wake => Some(ActionView::Wake),
        GrpcRequestView::Sleep => Some(ActionView::Sleep),
        GrpcRequestView::CreateConnection { host, port, language, program, .. } => Some(
            ActionView::CreateConnection(host, port as u16, language, program),
        ),
        GrpcRequestView::CloseConnection(id) => Some(ActionView::CloseConnection(id)),
        GrpcRequestView::GetConnection(id) => Some(ActionView::GetConnection(id)),
        GrpcRequestView::ListConnections => Some(ActionView::ListConnections),
        GrpcRequestView::RemoveMetric(name) => Some(ActionView::RemoveMetric(name)),
        GrpcRequestView::GetMetric(name) => Some(ActionView::GetMetric(name)),
        GrpcRequestView::ListMetrics => Some(ActionView::ListMetrics),
        GrpcRequestView::EnableGroup(group) => Some(ActionView::EnableGroup(group)),
        GrpcRequestView::DisableGroup(group) => Some(ActionView::DisableGroup(group)),
        GrpcRequestView::ListGroups => Some(ActionView::ListGroups),
        GrpcRequestView::ValidateExpression(expression, language) => Some(
            ActionView::ValidateExpression(expression, language),
        ),
        GrpcRequestView::InspectFile(path, line, variable) => Some(
            ActionView::InspectFile(path, line, variable),
        ),
        GrpcRequestView::GetConfig => Some(ActionView::GetConfig),
        GrpcRequestView::UpdateConfig { config_toml, persist, .. } => Some(
            ActionView::UpdateConfig(config_toml, persist),
        ),
        GrpcRequestView::ValidateConfig(toml) => Some(ActionView::ValidateConfig(toml)),
        GrpcRequestView::ReloadConfig => Some(ActionView::ReloadConfig),
        GrpcRequestView::GetMcpUsage => Some(ActionView::GetMcpUsage),
        _ => None,
    }
}

/// The message of an action is understood as that very action, so that the messages of two actions
/// differ. A connection is created without safe mode, under a name made of its language and its
/// port; a configuration is replaced and never merged.
pub proof fn law_messages_are_understood(action: ActionView, hostname: Seq<char>)
    requires
        !(action is AddMetric),
        message_for(action, hostname) is Some,
    ensures
        message_for(action, hostname)->0 matches Ok(q) && understood(q) == Some(action) && match q {
            GrpcRequestView::CreateConnection {
                port,
                language,
                name,
                workspace_root,
                hostname: h,
                safe_mode,
                ..
            } => {
                &&& port <= u16::MAX
                &&& name == "e2e-test-"@ + language + "-"@ + decimal(port as nat)
                &&& workspace_root == "/e2e-test"@
                &&& h == hostname
                &&& !safe_mode
            },
            GrpcRequestView::UpdateConfig { merge, .. } => !merge,
            _ => true,
        },
{
}

/// A metric at a line of a file is added by a message that has the file and the line apart, and
/// says what the request says: strictly checked, streaming, and enabled unless the request says
/// otherwise. The trace is cut as the request says; it is whole where only a trace is asked for.
pub proof fn law_add_message(
    r: AddMetricRequestView,
    hostname: Seq<char>,
    file: Seq<char>,
    line: u32,
)
    requires
        r.location == location_text(file, line),
    ensures
        message_for(ActionView::AddMetric(r), hostname) matches Some(
            Ok(GrpcRequestView::AddMetric(m)),
        ) && {
            &&& m.name == r.name
            &&& m.file == file
            &&& m.line == line
            &&& m.expression == r.expression
            &&& m.group == r.group
            &&& m.language == r.language
            &&& m.connection_id == r.connection_id
            &&& m.enabled <==> r.enabled != Some(false)
            &&& m.mode.mode == Some(Mode::Stream)
            &&& m.safety_level == "strict"@
            &&& m.capture_stack_trace == r.capture_stack_trace
            &&& m.stack_trace_ttl == r.stack_trace_ttl
            &&& m.capture_memory_snapshot == r.capture_memory_snapshot
            &&& m.snapshot_scope == r.snapshot_scope
            &&& m.snapshot_ttl == r.snapshot_ttl
            &&& match m.stack_trace_slice {
                Some(cut) => if r.stack_trace_full is None && r.stack_trace_head is None
                    && r.stack_trace_tail is None {
                    r.capture_stack_trace == Some(true) && cut.full && cut.head is None && cut.tail
                        is None
                } else {
                    cut.full == (r.stack_trace_full == Some(true)) && cut.head
                        == r.stack_trace_head && cut.tail == r.stack_trace_tail
                },
                None => r.stack_trace_full is None && r.stack_trace_head is None
                    && r.stack_trace_tail is None && r.capture_stack_trace != Some(true),
            }
        },
{
    law_location_round_trip(
        file,
        line,
        "Invalid location format: "@ + bare_location(r.location),
    );
}

/// A metric is looked up by its name before it is toggled or its events are asked for; the message
/// that follows has the number that the server gave, where that is a signed number, and a metric
/// without a number has no events.
pub proof fn law_metrics_are_looked_up(
    s: CallView,
    name: Seq<char>,
    enabled: bool,
    limit: u32,
    input: GrpcInput,
)
    requires
        s.action == ActionView::ToggleMetric(name, enabled) || s.action == ActionView::QueryEvents(
            name,
            limit,
        ),
        s.phase is OpeningLookup ==> s.action is ToggleMetric,
        s.phase is OpeningCall ==> s.action is QueryEvents,
    ensures
        ({
            let turn = on_input(s, input);
            let toggles = s.action is ToggleMetric;
            &&& input matches GrpcInput::Connected { outcome: Ok(_) } ==> {
                &&& s.phase is OpeningLookup || (s.phase is Opening && !toggles) ==> turn.next
                    == CallNext::Send(GrpcRequestView::GetMetric(name))
                &&& s.phase matches GrpcPhase::OpeningCall(id) ==> turn.next == CallNext::Send(
                    GrpcRequestView::QueryMetrics(id, limit),
                )
            }
            &&& input matches GrpcInput::Answered {
                answer: Ok(GrpcReply::Metric { metric_id, .. }),
            } ==> (s.phase is LookingUp ==> {
                let number = if metric_id <= i64::MAX {
                    metric_id
                } else {
                    0
                };
                if toggles {
                    turn.next == CallNext::Send(GrpcRequestView::ToggleMetric(number, enabled))
                } else if number > 0 {
                    turn.state.phase == GrpcPhase::OpeningCall(number)
                } else {
                    turn.next is NoEvents
                }
            })
        }),
{
}

/// A connection that cannot be made and a message that is answered with an error are errors of the
/// call; a reply is one where it says so itself: a file that could not be inspected, and usage
/// without data.
pub proof fn law_failures_are_errors(s: CallView, input: GrpcInput, reply: GrpcReply)
    ensures
        input matches GrpcInput::Connected { outcome: Err(_) } ==> on_input(s, input).next is Fail,
        input matches GrpcInput::Answered { answer: Err(_) } ==> on_input(s, input).next is Fail,
        reported_error(reply) is Some <==> match reply {
            GrpcReply::Inspected { success, .. } => !success,
            GrpcReply::Usage { usage } => usage is None || usage->0.workflow is None,
            _ => false,
        },
{
}

/// The metrics in an answer are those of the reply, in their order: name, expression, group and
/// flag as they are, the place as `@file#line`, and the mode by its name.
pub proof fn law_listed_metrics(reply: GrpcReply, now_micros: i64, event: Event, i: int)
    requires
        answered(reply, now_micros, event),
        reply matches GrpcReply::Metrics { metrics } && 0 <= i < metrics@.len(),
    ensures
        reply matches GrpcReply::Metrics { metrics } && event matches Event::Metrics(Ok(r))
            && r.data@.len() == metrics@.len() && {
            let m = metrics@[i];
            let shown = r.data@[i]@;
            &&& shown.name == m.name@
            &&& shown.expression == m.expression@
            &&& shown.expressions.len() == 1
            &&& shown.expressions[0] == m.expression@
            &&& shown.group == opt_view(m.group)
            &&& shown.enabled == m.enabled
            &&& m.location matches Some((file, line)) ==> shown.location == "@"@ + file@ + "#"@
                + decimal(line as nat)
            &&& m.location is None ==> shown.location.len() == 0
            &&& m.mode is None || m.mode->0.mode is None ==> shown.mode is None
            &&& m.mode is Some && m.mode->0.mode == Some(Mode::Stream) ==> shown.mode == Some(
                "stream"@,
            )
            &&& m.mode is Some && m.mode->0.mode == Some(Mode::First) ==> shown.mode == Some(
                "first"@,
            )
            &&& m.mode is Some && m.mode->0.mode is Some && m.mode->0.mode->0 is Sample
                ==> shown.mode == Some("sample"@)
            &&& m.mode is Some && m.mode->0.mode is Some && m.mode->0.mode->0 is Throttle
                ==> shown.mode == Some("throttle"@)
            &&& m.mode is Some && m.mode->0.mode is Some && m.mode->0.mode->0 is SampleInterval
                ==> shown.mode == Some("sample_interval"@)
        },
{
    if let GrpcReply::Metrics { metrics } = reply {
        if let Event::Metrics(Ok(r)) = event {
            assert(r.data@[i]@ == listed_metric("@"@, metrics@[i]));
        }
    }
}

/// The events in an answer are those of the reply, in their order: an error has its message as the
/// value, and a value is no error; the age is told from the time of the event.
pub proof fn law_listed_events(reply: GrpcReply, now_micros: i64, event: Event, i: int)
    requires
        answered(reply, now_micros, event),
        reply matches GrpcReply::Events { events } && 0 <= i < events@.len(),
    ensures
        reply matches GrpcReply::Events { events } && event matches Event::Events(Ok(r))
            && r.data@.len() == events@.len() && {
            let e = events@[i];
            let shown = r.data@[i];
            &&& shown.metric_name == e.metric_name
            &&& shown.stack_trace == e.stack_trace
            &&& shown.memory_snapshot == e.memory_snapshot
            &&& match e.result {
                Some(EventResult::ValueJson { value }) => shown.value@ == value@ && !shown.is_error,
                Some(EventResult::Error { message }) => shown.value@ == message@ && shown.is_error,
                None => shown.value@.len() == 0 && !shown.is_error,
            }
        },
{
    if let GrpcReply::Events { events } = reply {
        if let Event::Events(Ok(r)) = event {
            assert(event_is(r.data@[i], events@[i], now_micros));
        }
    }
}

/// The connections in an answer are those of the reply, in their order; the state is shown by its
/// number.
pub proof fn law_listed_connections(reply: GrpcReply, now_micros: i64, event: Event, i: int)
    requires
        answered(reply, now_micros, event),
        reply matches GrpcReply::Connections { connections } && 0 <= i < connections@.len(),
    ensures
        reply matches GrpcReply::Connections { connections } && event matches Event::Connections(
            Ok(r),
        ) && r.data@.len() == connections@.len() && {
            let c = connections@[i];
            let shown = r.data@[i]@;
            &&& shown.connection_id == c.connection_id@
            &&& shown.host == c.host@
            &&& c.port <= u16::MAX ==> shown.port == c.port
            &&& shown.language == c.language@
            &&& shown.status == signed_decimal(c.status as int)
            &&& shown.safe_mode == c.safe_mode
        },
{
    if let GrpcReply::Connections { connections } = reply {
        if let Event::Connections(Ok(r)) = event {
            assert(r.data@[i]@ == numbered_connection(Some(connections@[i])));
        }
    }
}

/// What a reply says is what the answer says: the numbers of the status, the text, the id of the
/// metric that was added, how many metrics were affected, and what was found.
pub proof fn law_replies_are_handed_on(reply: GrpcReply, now_micros: i64, event: Event)
    requires
        answered(reply, now_micros, event),
    ensures
        match reply {
            GrpcReply::Status {
                mode,
                uptime_seconds,
                active_connections,
                total_metrics,
                enabled_metrics,
            } => event matches Event::Status(Ok(r)) && r.data.mode == mode && r.data.uptime_seconds
                == uptime_seconds && r.data.active_connections == active_connections as usize
                && r.data.total_metrics == total_metrics as usize && r.data.enabled_metrics
                == enabled_metrics as usize,
            GrpcReply::Text { text } => event matches Event::Text(Ok(r)) && r.data == text,
            GrpcReply::Created { connection_id, status, .. } => event matches Event::Connection(
                Ok(r),
            ) && r.data@.connection_id == connection_id@ && r.data@.status == status@,
            GrpcReply::MetricId { metric_id } => event matches Event::Text(Ok(r)) && r.data@
                == decimal(metric_id as nat),
            GrpcReply::Affected { metrics_affected } => event matches Event::Count(Ok(r)) && r.data
                == metrics_affected as usize,
            GrpcReply::Validation { is_safe, violations } => event matches Event::Validation(Ok(r))
                && r.data.is_safe == is_safe && r.data.issues == violations,
            GrpcReply::Inspected { content, .. } => event matches Event::Text(Ok(r)) && r.data
                == content,
            GrpcReply::Valid { valid } => event matches Event::Valid(Ok(r)) && r.data == valid,
            GrpcReply::Groups { groups } => event matches Event::Groups(Ok(r)) && r.data == groups,
            GrpcReply::Metric { name, .. } => event matches Event::Metric(Ok(r)) && r.data@.name
                == name@ && r.data@.enabled,
            _ => true,
        },
{
}

} // verus!
