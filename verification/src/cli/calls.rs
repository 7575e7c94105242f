//! The calls of the command line backend: which commands an action runs one after the other, and
//! what their output means.

use vstd::prelude::*;

use crate::cli::{
    command_args, failure_text, full_args, is_empty_output, printed_connection, printed_event_is,
    printed_metric, printed_validation, CliClient, CliConnectionResponse, CliEventResponse,
    CliMetricResponse, CliValidationResponse,
};
use crate::client::{
    plain_error, ApiError, ApiErrorView, ApiResponse, ConnectionInfo, EventInfo, GroupInfo,
    McpUsageInfo, MetricInfo, StatusInfo, SystemEventInfo,
};
use crate::exchange::{failure, mcp_only, Action, ActionView, Event};
use crate::lists::reversed;
use crate::mcp::first_number_or_zero;
use crate::text::{has_text, trim, trimmed, views};

verus! {

// ---------------------------------------------------------------------------
// Output
// ---------------------------------------------------------------------------

/// What a command that ran to its end left behind.
#[derive(Debug)]
pub struct CliOutput {
    pub success: bool,
    pub code: Option<i32>,
    pub stdout: String,
    pub stderr: String,
}

/// What the output of a command was read as.
#[derive(Debug)]
pub enum CliReply {
    Status { status: StatusInfo },
    Connection { connection: CliConnectionResponse },
    Connections { connections: Vec<CliConnectionResponse> },
    Metric { metric: CliMetricResponse },
    Metrics { metrics: Vec<CliMetricResponse> },
    Events { events: Vec<CliEventResponse> },
    Groups { groups: Vec<GroupInfo> },
    Validation { validation: CliValidationResponse },
    SystemEvents { events: Vec<SystemEventInfo> },
    Usage { usage: McpUsageInfo },
    /// The output is taken as it is.
    Plain,
}

/// The kinds of what an output is read as.
#[derive(Debug, Clone, Copy, PartialEq, Eq, Structural)]
pub enum CliKind {
    Status,
    Connection,
    Connections,
    Metric,
    Metrics,
    Events,
    Groups,
    Validation,
    SystemEvents,
    Usage,
    Plain,
}

impl CliReply {
    /// The kind.
    pub open spec fn spec_kind(&self) -> CliKind {
        match self {
            CliReply::Status { .. } => CliKind::Status,
            CliReply::Connection { .. } => CliKind::Connection,
            CliReply::Connections { .. } => CliKind::Connections,
            CliReply::Metric { .. } => CliKind::Metric,
            CliReply::Metrics { .. } => CliKind::Metrics,
            CliReply::Events { .. } => CliKind::Events,
            CliReply::Groups { .. } => CliKind::Groups,
            CliReply::Validation { .. } => CliKind::Validation,
            CliReply::SystemEvents { .. } => CliKind::SystemEvents,
            CliReply::Usage { .. } => CliKind::Usage,
            CliReply::Plain => CliKind::Plain,
        }
    }

    /// The kind.
    pub fn kind(&self) -> (r: CliKind)
        ensures
            r == self.spec_kind(),
    {
        match self {
            CliReply::Status { .. } => CliKind::Status,
            CliReply::Connection { .. } => CliKind::Connection,
            CliReply::Connections { .. } => CliKind::Connections,
            CliReply::Metric { .. } => CliKind::Metric,
            CliReply::Metrics { .. } => CliKind::Metrics,
            CliReply::Events { .. } => CliKind::Events,
            CliReply::Groups { .. } => CliKind::Groups,
            CliReply::Validation { .. } => CliKind::Validation,
            CliReply::SystemEvents { .. } => CliKind::SystemEvents,
            CliReply::Usage { .. } => CliKind::Usage,
            CliReply::Plain => CliKind::Plain,
        }
    }
}

/// What the output of an action's command is read as.
pub open spec fn printed_kind(action: ActionView) -> CliKind {
    match action {
        ActionView::GetStatus => CliKind::Status,
        ActionView::CreateConnection(..) | ActionView::GetConnection(_) => CliKind::Connection,
        ActionView::ListConnections => CliKind::Connections,
        ActionView::GetMetric(_) => CliKind::Metric,
        ActionView::ListMetrics => CliKind::Metrics,
        ActionView::QueryEvents(..) => CliKind::Events,
        ActionView::ListGroups => CliKind::Groups,
        ActionView::ValidateExpression(..) => CliKind::Validation,
        ActionView::QuerySystemEvents(..) => CliKind::SystemEvents,
        ActionView::GetMcpUsage => CliKind::Usage,
        _ => CliKind::Plain,
    }
}

/// The output is a list.
pub open spec fn is_list(kind: CliKind) -> bool {
    kind is Connections || kind is Metrics || kind is Events || kind is Groups
        || kind is SystemEvents
}

/// The error of an output that is not what it should be; a list may also be empty output, and
/// output that is taken as it is cannot be wrong.
pub open spec fn output_error(
    action: ActionView,
    stdout: Seq<char>,
    parsed: Result<CliReply, String>,
) -> Option<ApiErrorView> {
    let kind = printed_kind(action);
    if kind is Plain || (is_list(kind) && is_empty_output(stdout)) {
        None
    } else {
        match parsed {
            Ok(_) => None,
            Err(e) => Some(
                plain_error(
                    "Failed to parse JSON response: "@ + e@ + " (input: "@ + stdout + ")"@,
                ),
            ),
        }
    }
}

/// An event is an empty list of the kind.
pub open spec fn is_empty_list_event(kind: CliKind, event: Event) -> bool {
    match kind {
        CliKind::Connections => event matches Event::Connections(Ok(r)) && r.data@.len() == 0
            && r.raw_response is None,
        CliKind::Metrics => event matches Event::Metrics(Ok(r)) && r.data@.len() == 0
            && r.raw_response is None,
        CliKind::Events => event matches Event::Events(Ok(r)) && r.data@.len() == 0
            && r.raw_response is None,
        CliKind::Groups => event matches Event::Groups(Ok(r)) && r.data@.len() == 0
            && r.raw_response is None,
        CliKind::SystemEvents => event matches Event::SystemEvents(Ok(r)) && r.data@.len() == 0
            && r.raw_response is None,
        _ => false,
    }
}

/// An event is what an output that was read as a reply means.
pub open spec fn printed_reply_is(reply: CliReply, event: Event) -> bool {
    match reply {
        CliReply::Status { status } => event matches Event::Status(Ok(r)) && r.data == status
            && r.raw_response is None,
        CliReply::Connection { connection } => event matches Event::Connection(Ok(r)) && r.data
            == printed_connection(connection) && r.raw_response is None,
        CliReply::Connections { connections } => event matches Event::Connections(Ok(r))
            && r.raw_response is None && r.data@.len() == connections@.len() && forall|i: int|
            0 <= i < connections@.len() ==> #[trigger] r.data@[i] == printed_connection(
                connections@[i],
            ),
        CliReply::Metric { metric } => event matches Event::Metric(Ok(r)) && r.data@
            == printed_metric(metric) && r.raw_response is None,
        CliReply::Metrics { metrics } => event matches Event::Metrics(Ok(r))
            && r.raw_response is None && r.data@.len() == metrics@.len() && forall|i: int|
            0 <= i < metrics@.len() ==> (#[trigger] r.data@[i])@ == printed_metric(metrics@[i]),
        CliReply::Events { events } => event matches Event::Events(Ok(r)) && r.raw_response is None
            && r.data@.len() == events@.len() && forall|i: int|
            0 <= i < events@.len() ==> printed_event_is(#[trigger] r.data@[i], events@[i]),
        CliReply::Groups { groups } => event matches Event::Groups(Ok(r)) && r.data == groups
            && r.raw_response is None,
        CliReply::Validation { validation } => event matches Event::Validation(Ok(r)) && r.data@
            == printed_validation(validation) && r.raw_response is None,
        CliReply::SystemEvents { events } => event matches Event::SystemEvents(Ok(r)) && r.data
            == events && r.raw_response is None,
        CliReply::Usage { usage } => event matches Event::Usage(Ok(r)) && r.data == usage
            && r.raw_response is None,
        CliReply::Plain => false,
    }
}

/// An event is what the output of a command that succeeded means for its action, where it is no
/// error.
pub open spec fn output_is(
    action: ActionView,
    stdout: Seq<char>,
    parsed: Result<CliReply, String>,
    event: Event,
) -> bool {
    let kind = printed_kind(action);
    match action {
        ActionView::Health => event matches Event::Health(Ok(healthy)) && healthy,
        ActionView::Wake | ActionView::Sleep => event matches Event::Text(Ok(r)) && r.data@
            == trimmed(stdout) && r.raw_response is None,
        ActionView::InspectFile(..) | ActionView::GetConfig => event matches Event::Text(Ok(r))
            && r.data@ == stdout && r.raw_response is None,
        ActionView::AddMetric(request) => event matches Event::Text(Ok(r)) && r.data@
            == request.name && r.raw_response is None,
        ActionView::EnableGroup(_) | ActionView::DisableGroup(_) =>
            event matches Event::Count(Ok(r)) && r.data == first_number_or_zero(
            stdout,
            usize::MAX as nat,
        ) && r.raw_response is None,
        ActionView::ValidateConfig(_) => event matches Event::Valid(Ok(r)) && r.data == (has_text(
            stdout,
            "valid"@,
        ) || has_text(stdout, "OK"@)) && r.raw_response is None,
        _ => if kind is Plain {
            event matches Event::Done(Ok(r)) && r.raw_response is None
        } else if is_list(kind) && is_empty_output(stdout) {
            is_empty_list_event(kind, event)
        } else {
            match parsed {
                Ok(reply) => printed_reply_is(reply, event),
                Err(_) => false,
            }
        },
    }
}

fn take_connections(connections: Vec<CliConnectionResponse>) -> (r: Vec<ConnectionInfo>)
    ensures
        r@.len() == connections@.len(),
        forall|i: int|
            0 <= i < connections@.len() ==> #[trigger] r@[i] == printed_connection(
                connections@[i],
            ),
{
    let ghost all = connections@;
    let mut rest: Vec<CliConnectionResponse> = connections;
    let mut back: Vec<ConnectionInfo> = Vec::new();
    while rest.len() > 0
        invariant
            rest@ == all.subrange(0, rest@.len() as int),
            rest@.len() + back@.len() == all.len(),
            forall|i: int|
                0 <= i < back@.len() ==> #[trigger] back@[i] == printed_connection(
                    all[all.len() - 1 - i],
                ),
        decreases rest.len(),
    {
        match rest.pop() {
            Some(c) => {
                assert(c == all[rest@.len() as int]);
                back.push(c.into_info());
                assert(rest@ =~= all.subrange(0, rest@.len() as int));
            },
            None => {},
        }
    }
    reversed(back)
}

fn take_metrics(metrics: Vec<CliMetricResponse>) -> (r: Vec<MetricInfo>)
    ensures
        r@.len() == metrics@.len(),
        forall|i: int|
            0 <= i < metrics@.len() ==> (#[trigger] r@[i])@ == printed_metric(metrics@[i]),
{
    let ghost all = metrics@;
    let mut rest: Vec<CliMetricResponse> = metrics;
    let mut back: Vec<MetricInfo> = Vec::new();
    while rest.len() > 0
        invariant
            rest@ == all.subrange(0, rest@.len() as int),
            rest@.len() + back@.len() == all.len(),
            forall|i: int|
                0 <= i < back@.len() ==> (#[trigger] back@[i])@ == printed_metric(
                    all[all.len() - 1 - i],
                ),
        decreases rest.len(),
    {
        match rest.pop() {
            Some(m) => {
                assert(m == all[rest@.len() as int]);
                back.push(m.into_info());
                assert(rest@ =~= all.subrange(0, rest@.len() as int));
            },
            None => {},
        }
    }
    reversed(back)
}

fn take_events(events: Vec<CliEventResponse>) -> (r: Vec<EventInfo>)
    ensures
        r@.len() == events@.len(),
        forall|i: int|
            0 <= i < events@.len() ==> printed_event_is(#[trigger] r@[i], events@[i]),
{
    let ghost all = events@;
    let mut rest: Vec<CliEventResponse> = events;
    let mut back: Vec<EventInfo> = Vec::new();
    while rest.len() > 0
        invariant
            rest@ == all.subrange(0, rest@.len() as int),
            rest@.len() + back@.len() == all.len(),
            forall|i: int|
                0 <= i < back@.len() ==> printed_event_is(
                    #[trigger] back@[i],
                    all[all.len() - 1 - i],
                ),
        decreases rest.len(),
    {
        match rest.pop() {
            Some(e) => {
                assert(e == all[rest@.len() as int]);
                back.push(e.into_info());
                assert(rest@ =~= all.subrange(0, rest@.len() as int));
            },
            None => {},
        }
    }
    reversed(back)
}

fn printed(action: &Action) -> (r: CliKind)
    ensures
        r == printed_kind(action@),
{
    match action {
        Action::GetStatus => CliKind::Status,
        Action::CreateConnection { .. } | Action::GetConnection { .. } => CliKind::Connection,
        Action::ListConnections => CliKind::Connections,
        Action::GetMetric { .. } => CliKind::Metric,
        Action::ListMetrics => CliKind::Metrics,
        Action::QueryEvents { .. } => CliKind::Events,
        Action::ListGroups => CliKind::Groups,
        Action::ValidateExpression { .. } => CliKind::Validation,
        Action::QuerySystemEvents { .. } => CliKind::SystemEvents,
        Action::GetMcpUsage => CliKind::Usage,
        _ => CliKind::Plain,
    }
}

fn empty_list_event(kind: CliKind) -> (r: Option<Event>)
    ensures
        r is Some <==> is_list(kind),
        r matches Some(event) ==> is_empty_list_event(kind, event),
{
    match kind {
        CliKind::Connections => Some(Event::Connections(Ok(ApiResponse::new(Vec::new())))),
        CliKind::Metrics => Some(Event::Metrics(Ok(ApiResponse::new(Vec::new())))),
        CliKind::Events => Some(Event::Events(Ok(ApiResponse::new(Vec::new())))),
        CliKind::Groups => Some(Event::Groups(Ok(ApiResponse::new(Vec::new())))),
        CliKind::SystemEvents => Some(Event::SystemEvents(Ok(ApiResponse::new(Vec::new())))),
        _ => None,
    }
}

fn read_reply(reply: CliReply) -> (event: Event)
    requires
        !(reply is Plain),
    ensures
        printed_reply_is(reply, event),
{
    match reply {
        CliReply::Status { status } => Event::Status(Ok(ApiResponse::new(status))),
        CliReply::Connection { connection } => Event::Connection(
            Ok(ApiResponse::new(connection.into_info())),
        ),
        CliReply::Connections { connections } => Event::Connections(
            Ok(ApiResponse::new(take_connections(connections))),
        ),
        CliReply::Metric { metric } => Event::Metric(Ok(ApiResponse::new(metric.into_info()))),
        CliReply::Metrics { metrics } => Event::Metrics(
            Ok(ApiResponse::new(take_metrics(metrics))),
        ),
        CliReply::Events { events } => Event::Events(Ok(ApiResponse::new(take_events(events)))),
        CliReply::Groups { groups } => Event::Groups(Ok(ApiResponse::new(groups))),
        CliReply::Validation { validation } => Event::Validation(
            Ok(ApiResponse::new(validation.to_validation_result())),
        ),
        CliReply::SystemEvents { events } => Event::SystemEvents(Ok(ApiResponse::new(events))),
        CliReply::Usage { usage } => Event::Usage(Ok(ApiResponse::new(usage))),
        CliReply::Plain => Event::Paused,
    }
}

impl CliClient {
    /// What the output of a command that succeeded means for its action.
    pub fn read_output(action: &Action, stdout: &str, parsed: Result<CliReply, String>) -> (r:
        Result<Event, ApiError>)
        requires
            parsed matches Ok(reply) ==> reply.spec_kind() == printed_kind(action@),
        ensures
            match r {
                Ok(event) => output_error(action@, stdout@, parsed) is None && output_is(
                    action@,
                    stdout@,
                    parsed,
                    event,
                ),
                Err(e) => output_error(action@, stdout@, parsed) == Some(e@),
            },
    {
        let kind: CliKind = printed(action);
        match action {
            Action::Health => {
                return Ok(Event::Health(Ok(true)));
            },
            Action::Wake | Action::Sleep => {
                return Ok(Event::Text(Ok(ApiResponse::new(trim(stdout)))));
            },
            Action::InspectFile { .. } | Action::GetConfig => {
                return Ok(Event::Text(Ok(ApiResponse::new(stdout.to_owned()))));
            },
            Action::AddMetric { request } => {
                return Ok(Event::Text(Ok(ApiResponse::new(request.name.clone()))));
            },
            Action::EnableGroup { .. } | Action::DisableGroup { .. } => {
                return Ok(
                    Event::Count(Ok(ApiResponse::new(Self::parse_count_from_message(stdout)))),
                );
            },
            Action::ValidateConfig { .. } => {
                return Ok(Event::Valid(Ok(ApiResponse::new(Self::config_is_valid(stdout)))));
            },
            _ => {},
        }
        if kind == CliKind::Plain {
            return Ok(Event::Done(Ok(ApiResponse::new(()))));
        }
        if Self::is_empty_list(stdout) {
            if let Some(event) = empty_list_event(kind) {
                return Ok(event);
            }
        }
        match parsed {
            Ok(reply) => Ok(read_reply(reply)),
            Err(e) => Err(Self::parse_failure(e.as_str(), stdout)),
        }
    }
}

// ---------------------------------------------------------------------------
// Calls
// ---------------------------------------------------------------------------

/// Where a call stands.
#[derive(Debug, Clone, Copy, PartialEq, Eq, Structural)]
pub enum CliPhase {
    /// It writes the configuration that the command reads to a file.
    Writing,
    /// It runs the command of the action.
    Running,
    /// It disables the metric that it has added.
    Disabling,
    /// It removes the file with the configuration; `valid` is whether the output of the command
    /// calls it valid.
    Removing { valid: bool },
    Over,
}

/// An action that is performed with the command line client.
#[derive(Debug)]
pub struct CliCall {
    pub action: Action,
    /// Where the configuration was written to.
    pub file: String,
    pub phase: CliPhase,
}

/// The mathematical counterpart of [`CliCall`].
pub struct CliCallView {
    pub action: ActionView,
    pub file: Seq<char>,
    pub phase: CliPhase,
}

impl View for CliCall {
    type V = CliCallView;

    open spec fn view(&self) -> CliCallView {
        CliCallView { action: self.action@, file: self.file@, phase: self.phase }
    }
}

/// What came of a step.
#[derive(Debug)]
pub enum CliInput {
    /// A file was written: its path, or the error.
    Written { outcome: Result<String, String> },
    /// A command was run: what it left behind, and what its output was read as; or why it could
    /// not be run.
    Ran { outcome: Result<CliOutput, String>, parsed: Result<CliReply, String> },
    /// A file was removed, or could not be.
    Removed,
}

/// How a call goes on.
#[derive(Debug)]
pub enum CliStep {
    /// Write a file with the name into the directory for temporary files.
    Write { name: &'static str, content: String },
    /// Run the client with the arguments.
    Run { args: Vec<String> },
    Remove { path: String },
    Finish(Event),
}

/// The mathematical counterpart of [`CliStep`].
pub enum CliNext {
    Write(Seq<char>, Seq<char>),
    Run(Seq<Seq<char>>),
    Remove(Seq<char>),
    /// It ends with an error.
    Fail(ApiErrorView),
    /// It ends with the answer that the daemon is not healthy.
    Unhealthy,
    /// It ends with what the output of its command means.
    Output(Seq<char>, Result<CliReply, String>),
    /// It ends with whether the configuration is valid.
    Valid(bool),
    /// It ends without data.
    Done,
}

/// One turn of a call: its state, and how it goes on.
pub struct CliTurn {
    pub state: CliCallView,
    pub next: CliNext,
}

/// The error of an action that the command line does not offer.
pub open spec fn cli_refused(action: ActionView) -> Option<ApiErrorView> {
    match action {
        ActionView::Observe(_) => Some(
            plain_error("observe tool is only supported on MCP backend, not "@ + "CLI"@),
        ),
        ActionView::EnableFromDiff(_) => Some(
            plain_error("enable_from_diff tool is only supported on MCP backend, not "@ + "CLI"@),
        ),
        ActionView::AcknowledgeSystemEvents(_) => Some(
            plain_error("acknowledge_system_events not yet implemented in CLI"@),
        ),
        _ => None,
    }
}

impl CliCallView {
    /// The phase is one that a call of the action can be in.
    pub open spec fn wf(self) -> bool {
        &&& self.action.is_call()
        &&& match self.phase {
            CliPhase::Writing | CliPhase::Removing { .. } => self.action is UpdateConfig
                || self.action is ValidateConfig,
            CliPhase::Running => cli_refused(self.action) is None,
            CliPhase::Disabling => self.action is AddMetric,
            CliPhase::Over => true,
        }
    }

    /// The call goes on in a phase.
    pub open spec fn goes_on(self, phase: CliPhase, next: CliNext) -> CliTurn {
        CliTurn { state: CliCallView { phase, ..self }, next }
    }

    /// The call fails.
    pub open spec fn fails(self, error: ApiErrorView) -> CliTurn {
        self.goes_on(CliPhase::Over, CliNext::Fail(error))
    }
}

/// How a call begins: a configuration is written to a file first, and everything else is a
/// command.
pub open spec fn cli_begun(action: ActionView) -> CliTurn {
    let s = CliCallView { action, file: Seq::empty(), phase: CliPhase::Running };
    match cli_refused(action) {
        Some(e) => s.fails(e),
        None => match action {
            ActionView::UpdateConfig(toml, _) => s.goes_on(
                CliPhase::Writing,
                CliNext::Write("detrix_test_update_config.toml"@, toml),
            ),
            ActionView::ValidateConfig(toml) => s.goes_on(
                CliPhase::Writing,
                CliNext::Write("detrix_test_config.toml"@, toml),
            ),
            _ => s.goes_on(
                CliPhase::Running,
                CliNext::Run(full_args(command_args(action, Seq::empty())->0)),
            ),
        },
    }
}

/// How a call goes on with the output of a command that succeeded. A metric that is to be disabled
/// is disabled once it is there, and the file of a configuration is removed.
pub open spec fn on_output(
    s: CliCallView,
    stdout: Seq<char>,
    parsed: Result<CliReply, String>,
) -> CliTurn {
    match s.action {
        ActionView::AddMetric(request) if s.phase is Running && request.enabled == Some(false) =>
            s.goes_on(
            CliPhase::Disabling,
            CliNext::Run(
                full_args(
                    command_args(ActionView::ToggleMetric(request.name, false), Seq::empty())->0,
                ),
            ),
        ),
        ActionView::UpdateConfig(..) | ActionView::ValidateConfig(_) => s.goes_on(
            CliPhase::Removing {
                valid: has_text(stdout, "valid"@) || has_text(stdout, "OK"@),
            },
            CliNext::Remove(s.file),
        ),
        _ => match output_error(s.action, stdout, parsed) {
            Some(e) => s.fails(e),
            None => s.goes_on(CliPhase::Over, CliNext::Output(stdout, parsed)),
        },
    }
}

/// How a call goes on with what came of its last step. A health check is answered by every
/// command, and by one that could not be run.
pub open spec fn on_cli_input(s: CliCallView, input: CliInput) -> CliTurn {
    match input {
        CliInput::Written { outcome: Err(e) } => s.fails(
            plain_error("Failed to write temp config: "@ + e@),
        ),
        CliInput::Written { outcome: Ok(path) } => CliTurn {
            state: CliCallView { file: path@, phase: CliPhase::Running, ..s },
            next: CliNext::Run(full_args(command_args(s.action, path@)->0)),
        },
        CliInput::Ran { outcome, parsed } => match outcome {
            Err(e) => if s.action is Health {
                s.goes_on(CliPhase::Over, CliNext::Unhealthy)
            } else {
                s.fails(plain_error("Failed to execute detrix command: "@ + e@))
            },
            Ok(out) => if out.success {
                on_output(s, out.stdout@, parsed)
            } else if s.action is Health {
                s.goes_on(CliPhase::Over, CliNext::Unhealthy)
            } else {
                s.fails(plain_error(failure_text(out.code, out.stdout@, out.stderr@)))
            },
        },
        CliInput::Removed => match s.phase {
            CliPhase::Removing { valid } if s.action is ValidateConfig => s.goes_on(
                CliPhase::Over,
                CliNext::Valid(valid),
            ),
            _ => s.goes_on(CliPhase::Over, CliNext::Done),
        },
    }
}

/// What came of a step is of the kind that the call waits for.
pub open spec fn cli_accepts(s: CliCallView, input: CliInput) -> bool {
    match input {
        CliInput::Written { .. } => s.phase is Writing,
        CliInput::Ran { parsed, .. } => (s.phase is Running || s.phase is Disabling) && (
        parsed matches Ok(reply) ==> reply.spec_kind() == printed_kind(s.action)),
        CliInput::Removed => s.phase is Removing,
    }
}

/// A step is how a call goes on.
pub open spec fn cli_step_is(step: CliStep, turn: CliTurn) -> bool {
    match turn.next {
        CliNext::Write(name, content) => step matches CliStep::Write { name: n, content: c } && n@
            == name && c@ == content,
        CliNext::Run(args) => step matches CliStep::Run { args: a } && views(a@) == args,
        CliNext::Remove(path) => step matches CliStep::Remove { path: p } && p@ == path,
        CliNext::Fail(error) => step matches CliStep::Finish(event) && event.spec_kind()
            == turn.state.action.answer() && event.error() is Some && event.error()->0@ == error,
        CliNext::Unhealthy => step matches CliStep::Finish(event)
            && event matches Event::Health(Ok(healthy)) && !healthy,
        CliNext::Output(stdout, parsed) => step matches CliStep::Finish(event) && output_is(
            turn.state.action,
            stdout,
            parsed,
            event,
        ),
        CliNext::Valid(valid) => step matches CliStep::Finish(event)
            && event matches Event::Valid(Ok(r)) && r.data == valid && r.raw_response is None,
        CliNext::Done => step matches CliStep::Finish(event) && event matches Event::Done(Ok(r))
            && r.raw_response is None,
    }
}

fn cli_ended(action: &Action, error: ApiError) -> (r: CliStep)
    requires
        action@.is_call(),
    ensures
        r matches CliStep::Finish(event) && event.spec_kind() == action@.answer() && event.error()
            == Some(error),
{
    match failure(action, error) {
        Some(event) => CliStep::Finish(event),
        None => CliStep::Finish(Event::Paused),
    }
}

fn command(action: &Action, file: &str) -> (r: CliStep)
    requires
        command_args(action@, file@) is Some,
    ensures
        r matches CliStep::Run { args } && views(args@) == full_args(
            command_args(action@, file@)->0,
        ),
{
    match CliClient::arguments(action, file) {
        Some(args) => CliStep::Run { args },
        None => CliStep::Finish(Event::Paused),
    }
}

impl CliCall {
    /// Begins to perform an action.
    pub fn start(action: Action) -> (r: (CliCall, CliStep))
        requires
            action@.is_call(),
        ensures
            r.0@ == cli_begun(action@).state,
            r.0@.wf(),
            cli_step_is(r.1, cli_begun(action@)),
    {
        let error: Option<ApiError> = match mcp_only(&action, "CLI") {
            Some(e) => Some(e),
            None => match &action {
                Action::AcknowledgeSystemEvents { .. } => Some(
                    CliClient::acknowledge_unsupported(),
                ),
                _ => None,
            },
        };
        if let Some(e) = error {
            let step: CliStep = cli_ended(&action, e);
            return (CliCall { action, file: String::new(), phase: CliPhase::Over }, step);
        }
        match CliClient::config_file(&action) {
            Some((name, content)) => (
                CliCall { action, file: String::new(), phase: CliPhase::Writing },
                CliStep::Write { name, content },
            ),
            None => {
                let step: CliStep = command(&action, "");
                (CliCall { action, file: String::new(), phase: CliPhase::Running }, step)
            },
        }
    }

    /// What the output of the next command is to be read as.
    pub fn expects(&self) -> (r: CliKind)
        ensures
            r == printed_kind(self@.action),
    {
        printed(&self.action)
    }

    /// Whether what came of a step is of the kind that the call waits for.
    pub fn accepts(&self, input: &CliInput) -> (r: bool)
        ensures
            r == cli_accepts(self@, *input),
    {
        match input {
            CliInput::Written { .. } => matches!(self.phase, CliPhase::Writing),
            CliInput::Ran { parsed, .. } => matches!(
                self.phase,
                CliPhase::Running | CliPhase::Disabling
            ) && match parsed {
                Ok(reply) => reply.kind() == self.expects(),
                Err(_) => true,
            },
            CliInput::Removed => matches!(self.phase, CliPhase::Removing { .. }),
        }
    }

    fn ran(&mut self, stdout: String, parsed: Result<CliReply, String>) -> (r: CliStep)
        requires
            old(self)@.wf(),
            old(self).phase is Running || old(self).phase is Disabling,
            parsed matches Ok(reply) ==> reply.spec_kind() == printed_kind(old(self)@.action),
        ensures
            final(self)@ == on_output(old(self)@, stdout@, parsed).state,
            final(self)@.wf(),
            cli_step_is(r, on_output(old(self)@, stdout@, parsed)),
    {
        match &self.action {
            Action::AddMetric { request } => {
                if self.phase == CliPhase::Running && CliClient::disable_after_add(request) {
                    let disable: Action = Action::ToggleMetric {
                        name: request.name.clone(),
                        enabled: false,
                    };
                    self.phase = CliPhase::Disabling;
                    return command(&disable, "");
                }
            },
            Action::UpdateConfig { .. } | Action::ValidateConfig { .. } => {
                self.phase =
                CliPhase::Removing { valid: CliClient::config_is_valid(stdout.as_str()) };
                return CliStep::Remove { path: self.file.clone() };
            },
            _ => {},
        }
        self.phase = CliPhase::Over;
        match CliClient::read_output(&self.action, stdout.as_str(), parsed) {
            Ok(event) => CliStep::Finish(event),
            Err(e) => cli_ended(&self.action, e),
        }
    }

    /// Takes what came of the last step.
    pub fn resume(&mut self, input: CliInput) -> (r: CliStep)
        requires
            old(self)@.wf(),
            cli_accepts(old(self)@, input),
        ensures
            final(self)@ == on_cli_input(old(self)@, input).state,
            final(self)@.wf(),
            cli_step_is(r, on_cli_input(old(self)@, input)),
    {
        match input {
            CliInput::Written { outcome } => match outcome {
                Err(e) => {
                    self.phase = CliPhase::Over;
                    cli_ended(&self.action, CliClient::config_file_error(e.as_str()))
                },
                Ok(path) => {
                    let step: CliStep = command(&self.action, path.as_str());
                    self.file = path;
                    self.phase = CliPhase::Running;
                    step
                },
            },
            CliInput::Ran { outcome, parsed } => {
                let result: Result<String, ApiError> = match outcome {
                    Err(e) => Err(CliClient::execution_error(e.as_str())),
                    Ok(out) => CliClient::command_result(
                        out.success,
                        out.code,
                        out.stdout,
                        out.stderr,
                    ),
                };
                match result {
                    Ok(stdout) => self.ran(stdout, parsed),
                    Err(e) => {
                        self.phase = CliPhase::Over;
                        if let Action::Health = &self.action {
                            CliStep::Finish(Event::Health(Ok(false)))
                        } else {
                            cli_ended(&self.action, e)
                        }
                    },
                }
            },
            CliInput::Removed => {
                let valid: Option<bool> = match (&self.action, self.phase) {
                    (Action::ValidateConfig { .. }, CliPhase::Removing { valid }) => Some(valid),
                    _ => None,
                };
                self.phase = CliPhase::Over;
                match valid {
                    Some(valid) => CliStep::Finish(Event::Valid(Ok(ApiResponse::new(valid)))),
                    None => CliStep::Finish(Event::Done(Ok(ApiResponse::new(())))),
                }
            },
        }
    }
}

/// The number of steps that a call can still take.
pub open spec fn cli_steps_left(s: CliCallView) -> nat {
    match s.phase {
        CliPhase::Writing => 3,
        CliPhase::Running => 2,
        CliPhase::Disabling | CliPhase::Removing { .. } => 1,
        CliPhase::Over => 0,
    }
}

/// A call always comes to its end: every input brings it closer, and it has ended exactly when it
/// no longer writes, runs or removes anything.
pub proof fn law_cli_call_ends(s: CliCallView, input: CliInput)
    requires
        s.wf(),
        cli_accepts(s, input),
    ensures
        ({
            let turn = on_cli_input(s, input);
            &&& turn.state.wf()
            &&& cli_steps_left(turn.state) < cli_steps_left(s)
            &&& turn.state.phase is Over <==> !(turn.next is Write || turn.next is Run
                || turn.next is Remove)
        }),
{
}

/// Whatever ends a call, the event is of the kind that answers its action.
pub proof fn law_cli_call_answers_its_action(s: CliCallView, input: CliInput, event: Event)
    requires
        s.wf(),
        cli_accepts(s, input),
        cli_step_is(CliStep::Finish(event), on_cli_input(s, input)),
    ensures
        event.spec_kind() == s.action.answer(),
{
}

/// A health check over the command line is never an error.
pub proof fn law_cli_health_is_answered(s: CliCallView, input: CliInput, event: Event)
    requires
        s.wf(),
        s.action is Health,
        cli_accepts(s, input),
        cli_step_is(CliStep::Finish(event), on_cli_input(s, input)),
    ensures
        event matches Event::Health(Ok(healthy)) && healthy == (input matches CliInput::Ran {
            outcome: Ok(out),
            ..
        } && out.success),
{
}

} // verus!
