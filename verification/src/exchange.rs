//! The exchange between a scenario and what runs it: the actions that a scenario asks for, and
//! the events that answer them.

use vstd::prelude::*;

use crate::client::{
    enable_from_diff_unsupported, observe_unsupported, plain_error, AddMetricRequest,
    AddMetricRequestView, ApiError, ApiResult, ConnectionInfo, EnableFromDiffRequest,
    EnableFromDiffRequestView, EnableFromDiffResponse, EventInfo, GroupInfo, McpUsageInfo,
    MetricInfo, ObserveRequest, ObserveRequestView, ObserveResponse, StatusInfo, SystemEventInfo,
    ValidationResult,
};
use crate::report::ReportView;
use crate::text::{opt_view, views};

verus! {

/// What a scenario asks to be done next.
#[derive(Debug, Clone)]
pub enum Action {
    Health,
    GetStatus,
    Wake,
    Sleep,
    CreateConnection { host: String, port: u16, language: String, program: Option<String> },
    CloseConnection { id: String },
    GetConnection { id: String },
    ListConnections,
    AddMetric { request: AddMetricRequest },
    Observe { request: ObserveRequest },
    EnableFromDiff { request: EnableFromDiffRequest },
    RemoveMetric { name: String },
    ToggleMetric { name: String, enabled: bool },
    GetMetric { name: String },
    ListMetrics,
    QueryEvents { name: String, limit: u32 },
    EnableGroup { group: String },
    DisableGroup { group: String },
    ListGroups,
    ValidateExpression { expression: String, language: String },
    InspectFile { path: String, line: Option<u32>, variable: Option<String> },
    GetConfig,
    UpdateConfig { toml: String, persist: bool },
    ValidateConfig { toml: String },
    ReloadConfig,
    QuerySystemEvents { limit: u32, unacknowledged_only: bool, types: Option<Vec<String>> },
    AcknowledgeSystemEvents { ids: Vec<i64> },
    GetMcpUsage,
    /// Wait for a number of milliseconds.
    Pause { millis: u64 },
    /// Tell whether more than the limit has passed since the timer was last restarted; with
    /// `restart`, restart it first.
    CheckTimer { restart: bool, limit_secs: u64 },
    /// Restart the debugger under test.
    RestartDebugger,
    /// Send a number of GET requests for a path at the same time.
    Burst { path: String, requests: usize, timeout_secs: u64 },
}

/// The mathematical counterpart of [`Action`].
pub enum ActionView {
    Health,
    GetStatus,
    Wake,
    Sleep,
    CreateConnection(Seq<char>, u16, Seq<char>, Option<Seq<char>>),
    CloseConnection(Seq<char>),
    GetConnection(Seq<char>),
    ListConnections,
    AddMetric(AddMetricRequestView),
    Observe(ObserveRequestView),
    EnableFromDiff(EnableFromDiffRequestView),
    RemoveMetric(Seq<char>),
    ToggleMetric(Seq<char>, bool),
    GetMetric(Seq<char>),
    ListMetrics,
    QueryEvents(Seq<char>, u32),
    EnableGroup(Seq<char>),
    DisableGroup(Seq<char>),
    ListGroups,
    ValidateExpression(Seq<char>, Seq<char>),
    InspectFile(Seq<char>, Option<u32>, Option<Seq<char>>),
    GetConfig,
    UpdateConfig(Seq<char>, bool),
    ValidateConfig(Seq<char>),
    ReloadConfig,
    QuerySystemEvents(u32, bool, Option<Seq<Seq<char>>>),
    AcknowledgeSystemEvents(Seq<i64>),
    GetMcpUsage,
    Pause(u64),
    CheckTimer(bool, u64),
    RestartDebugger,
    Burst(Seq<char>, usize, u64),
}

impl View for Action {
    type V = ActionView;

    open spec fn view(&self) -> ActionView {
        match self {
            Action::Health => ActionView::Health,
            Action::GetStatus => ActionView::GetStatus,
            Action::Wake => ActionView::Wake,
            Action::Sleep => ActionView::Sleep,
            Action::CreateConnection { host, port, language, program } =>
                ActionView::CreateConnection(host@, *port, language@, opt_view(*program)),
            Action::CloseConnection { id } => ActionView::CloseConnection(id@),
            Action::GetConnection { id } => ActionView::GetConnection(id@),
            Action::ListConnections => ActionView::ListConnections,
            Action::AddMetric { request } => ActionView::AddMetric(request@),
            Action::Observe { request } => ActionView::Observe(request@),
            Action::EnableFromDiff { request } => ActionView::EnableFromDiff(request@),
            Action::RemoveMetric { name } => ActionView::RemoveMetric(name@),
            Action::ToggleMetric { name, enabled } => ActionView::ToggleMetric(name@, *enabled),
            Action::GetMetric { name } => ActionView::GetMetric(name@),
            Action::ListMetrics => ActionView::ListMetrics,
            Action::QueryEvents { name, limit } => ActionView::QueryEvents(name@, *limit),
            Action::EnableGroup { group } => ActionView::EnableGroup(group@),
            Action::DisableGroup { group } => ActionView::DisableGroup(group@),
            Action::ListGroups => ActionView::ListGroups,
            Action::ValidateExpression { expression, language } => ActionView::ValidateExpression(
                expression@,
                language@,
            ),
            Action::InspectFile { path, line, variable } => ActionView::InspectFile(
                path@,
                *line,
                opt_view(*variable),
            ),
            Action::GetConfig => ActionView::GetConfig,
            Action::UpdateConfig { toml, persist } => ActionView::UpdateConfig(toml@, *persist),
            Action::ValidateConfig { toml } => ActionView::ValidateConfig(toml@),
            Action::ReloadConfig => ActionView::ReloadConfig,
            Action::QuerySystemEvents { limit, unacknowledged_only, types } =>
                ActionView::QuerySystemEvents(
                *limit,
                *unacknowledged_only,
                match types {
                    Some(t) => Some(views(t@)),
                    None => None,
                },
            ),
            Action::AcknowledgeSystemEvents { ids } => ActionView::AcknowledgeSystemEvents(ids@),
            Action::GetMcpUsage => ActionView::GetMcpUsage,
            Action::Pause { millis } => ActionView::Pause(*millis),
            Action::CheckTimer { restart, limit_secs } => ActionView::CheckTimer(
                *restart,
                *limit_secs,
            ),
            Action::RestartDebugger => ActionView::RestartDebugger,
            Action::Burst { path, requests, timeout_secs } => ActionView::Burst(
                path@,
                *requests,
                *timeout_secs,
            ),
        }
    }
}

/// How a scenario goes on: it asks for an action, or it is over.
#[derive(Debug)]
pub enum Next<T> {
    Ask(Action),
    Finish(Result<T, String>),
}

/// The mathematical counterpart of [`Next`].
pub enum NextView<V> {
    Ask(ActionView),
    Finish(Result<V, Seq<char>>),
}

impl<T: View> View for Next<T> {
    type V = NextView<T::V>;

    open spec fn view(&self) -> NextView<T::V> {
        match self {
            Next::Ask(action) => NextView::Ask(action@),
            Next::Finish(Ok(value)) => NextView::Finish(Ok(value@)),
            Next::Finish(Err(error)) => NextView::Finish(Err(error@)),
        }
    }
}

/// One turn of a scenario: its reports so far, its state, and how it goes on.
pub struct Turn<S, V> {
    pub log: Seq<ReportView>,
    pub state: S,
    pub next: NextView<V>,
}

/// The scenario asks for an action.
pub open spec fn ask<S, V>(state: S, log: Seq<ReportView>, action: ActionView) -> Turn<S, V> {
    Turn { log, state, next: NextView::Ask(action) }
}

/// The scenario ends with an error.
pub open spec fn fail<S, V>(state: S, log: Seq<ReportView>, error: Seq<char>) -> Turn<S, V> {
    Turn { log, state, next: NextView::Finish(Err(error)) }
}

/// The scenario ends well.
pub open spec fn finish<S, V>(state: S, log: Seq<ReportView>, value: V) -> Turn<S, V> {
    Turn { log, state, next: NextView::Finish(Ok(value)) }
}

/// The number of events that a query gave; none where it failed.
pub open spec fn event_count(reply: ApiResult<Vec<EventInfo>>) -> usize {
    match reply {
        Ok(r) => r.data@.len() as usize,
        Err(_) => 0,
    }
}

/// The number of events that a query gave; none where it failed.
pub fn count_events(reply: &ApiResult<Vec<EventInfo>>) -> (n: usize)
    ensures
        n == event_count(*reply),
{
    match reply {
        Ok(r) => r.data.len(),
        Err(_) => 0,
    }
}

/// The answer to an action.
#[derive(Debug)]
pub enum Event {
    Health(Result<bool, ApiError>),
    Status(ApiResult<StatusInfo>),
    Text(ApiResult<String>),
    Connection(ApiResult<ConnectionInfo>),
    Connections(ApiResult<Vec<ConnectionInfo>>),
    Done(ApiResult<()>),
    Metric(ApiResult<MetricInfo>),
    Metrics(ApiResult<Vec<MetricInfo>>),
    Events(ApiResult<Vec<EventInfo>>),
    Observed(ApiResult<ObserveResponse>),
    FromDiff(ApiResult<EnableFromDiffResponse>),
    Count(ApiResult<usize>),
    Groups(ApiResult<Vec<GroupInfo>>),
    Validation(ApiResult<ValidationResult>),
    Valid(ApiResult<bool>),
    SystemEvents(ApiResult<Vec<SystemEventInfo>>),
    Acknowledged(ApiResult<u64>),
    Usage(ApiResult<McpUsageInfo>),
    Paused,
    Timer { expired: bool },
    Restarted(Result<(), String>),
    /// How many requests of a burst were answered with success.
    Burst { succeeded: usize },
}

/// The kinds of events.
#[derive(Debug, Clone, Copy, PartialEq, Eq, Structural)]
pub enum EventKind {
    Health,
    Status,
    Text,
    Connection,
    Connections,
    Done,
    Metric,
    Metrics,
    Events,
    Observed,
    FromDiff,
    Count,
    Groups,
    Validation,
    Valid,
    SystemEvents,
    Acknowledged,
    Usage,
    Paused,
    Timer,
    Restarted,
    Burst,
}

impl Event {
    /// The kind of an event.
    pub open spec fn spec_kind(&self) -> EventKind {
        match self {
            Event::Health(_) => EventKind::Health,
            Event::Status(_) => EventKind::Status,
            Event::Text(_) => EventKind::Text,
            Event::Connection(_) => EventKind::Connection,
            Event::Connections(_) => EventKind::Connections,
            Event::Done(_) => EventKind::Done,
            Event::Metric(_) => EventKind::Metric,
            Event::Metrics(_) => EventKind::Metrics,
            Event::Events(_) => EventKind::Events,
            Event::Observed(_) => EventKind::Observed,
            Event::FromDiff(_) => EventKind::FromDiff,
            Event::Count(_) => EventKind::Count,
            Event::Groups(_) => EventKind::Groups,
            Event::Validation(_) => EventKind::Validation,
            Event::Valid(_) => EventKind::Valid,
            Event::SystemEvents(_) => EventKind::SystemEvents,
            Event::Acknowledged(_) => EventKind::Acknowledged,
            Event::Usage(_) => EventKind::Usage,
            Event::Paused => EventKind::Paused,
            Event::Timer { .. } => EventKind::Timer,
            Event::Restarted(_) => EventKind::Restarted,
            Event::Burst { .. } => EventKind::Burst,
        }
    }

    /// The kind of an event.
    pub fn kind(&self) -> (r: EventKind)
        ensures
            r == self.spec_kind(),
    {
        match self {
            Event::Health(_) => EventKind::Health,
            Event::Status(_) => EventKind::Status,
            Event::Text(_) => EventKind::Text,
            Event::Connection(_) => EventKind::Connection,
            Event::Connections(_) => EventKind::Connections,
            Event::Done(_) => EventKind::Done,
            Event::Metric(_) => EventKind::Metric,
            Event::Metrics(_) => EventKind::Metrics,
            Event::Events(_) => EventKind::Events,
            Event::Observed(_) => EventKind::Observed,
            Event::FromDiff(_) => EventKind::FromDiff,
            Event::Count(_) => EventKind::Count,
            Event::Groups(_) => EventKind::Groups,
            Event::Validation(_) => EventKind::Validation,
            Event::Valid(_) => EventKind::Valid,
            Event::SystemEvents(_) => EventKind::SystemEvents,
            Event::Acknowledged(_) => EventKind::Acknowledged,
            Event::Usage(_) => EventKind::Usage,
            Event::Paused => EventKind::Paused,
            Event::Timer { .. } => EventKind::Timer,
            Event::Restarted(_) => EventKind::Restarted,
            Event::Burst { .. } => EventKind::Burst,
        }
    }
}

impl Event {
    /// The error that a call was answered with, if it was.
    pub open spec fn error(&self) -> Option<ApiError> {
        match self {
            Event::Health(Err(e)) => Some(*e),
            Event::Status(Err(e)) => Some(*e),
            Event::Text(Err(e)) => Some(*e),
            Event::Connection(Err(e)) => Some(*e),
            Event::Connections(Err(e)) => Some(*e),
            Event::Done(Err(e)) => Some(*e),
            Event::Metric(Err(e)) => Some(*e),
            Event::Metrics(Err(e)) => Some(*e),
            Event::Events(Err(e)) => Some(*e),
            Event::Observed(Err(e)) => Some(*e),
            Event::FromDiff(Err(e)) => Some(*e),
            Event::Count(Err(e)) => Some(*e),
            Event::Groups(Err(e)) => Some(*e),
            Event::Validation(Err(e)) => Some(*e),
            Event::Valid(Err(e)) => Some(*e),
            Event::SystemEvents(Err(e)) => Some(*e),
            Event::Acknowledged(Err(e)) => Some(*e),
            Event::Usage(Err(e)) => Some(*e),
            _ => None,
        }
    }

    /// The error that a call was answered with, if it was.
    pub fn get_error(&self) -> (r: Option<&ApiError>)
        ensures
            r is Some <==> self.error() is Some,
            r matches Some(e) ==> self.error() == Some(*e),
    {
        match self {
            Event::Health(Err(e)) => Some(e),
            Event::Status(Err(e)) => Some(e),
            Event::Text(Err(e)) => Some(e),
            Event::Connection(Err(e)) => Some(e),
            Event::Connections(Err(e)) => Some(e),
            Event::Done(Err(e)) => Some(e),
            Event::Metric(Err(e)) => Some(e),
            Event::Metrics(Err(e)) => Some(e),
            Event::Events(Err(e)) => Some(e),
            Event::Observed(Err(e)) => Some(e),
            Event::FromDiff(Err(e)) => Some(e),
            Event::Count(Err(e)) => Some(e),
            Event::Groups(Err(e)) => Some(e),
            Event::Validation(Err(e)) => Some(e),
            Event::Valid(Err(e)) => Some(e),
            Event::SystemEvents(Err(e)) => Some(e),
            Event::Acknowledged(Err(e)) => Some(e),
            Event::Usage(Err(e)) => Some(e),
            _ => None,
        }
    }
}

impl ActionView {
    /// The kind of event that answers the action.
    pub open spec fn answer(self) -> EventKind {
        match self {
            ActionView::Health => EventKind::Health,
            ActionView::GetStatus => EventKind::Status,
            ActionView::Wake => EventKind::Text,
            ActionView::Sleep => EventKind::Text,
            ActionView::CreateConnection(..) => EventKind::Connection,
            ActionView::CloseConnection(_) => EventKind::Done,
            ActionView::GetConnection(_) => EventKind::Connection,
            ActionView::ListConnections => EventKind::Connections,
            ActionView::AddMetric(_) => EventKind::Text,
            ActionView::Observe(_) => EventKind::Observed,
            ActionView::EnableFromDiff(_) => EventKind::FromDiff,
            ActionView::RemoveMetric(_) => EventKind::Done,
            ActionView::ToggleMetric(..) => EventKind::Done,
            ActionView::GetMetric(_) => EventKind::Metric,
            ActionView::ListMetrics => EventKind::Metrics,
            ActionView::QueryEvents(..) => EventKind::Events,
            ActionView::EnableGroup(_) => EventKind::Count,
            ActionView::DisableGroup(_) => EventKind::Count,
            ActionView::ListGroups => EventKind::Groups,
            ActionView::ValidateExpression(..) => EventKind::Validation,
            ActionView::InspectFile(..) => EventKind::Text,
            ActionView::GetConfig => EventKind::Text,
            ActionView::UpdateConfig(..) => EventKind::Done,
            ActionView::ValidateConfig(_) => EventKind::Valid,
            ActionView::ReloadConfig => EventKind::Done,
            ActionView::QuerySystemEvents(..) => EventKind::SystemEvents,
            ActionView::AcknowledgeSystemEvents(_) => EventKind::Acknowledged,
            ActionView::GetMcpUsage => EventKind::Usage,
            ActionView::Pause(_) => EventKind::Paused,
            ActionView::CheckTimer(..) => EventKind::Timer,
            ActionView::RestartDebugger => EventKind::Restarted,
            ActionView::Burst(..) => EventKind::Burst,
        }
    }
}

impl ActionView {
    /// The action is a call of the daemon, which can be answered with an error.
    pub open spec fn is_call(self) -> bool {
        !(self is Pause || self is CheckTimer || self is RestartDebugger || self is Burst)
    }
}

impl Action {
    /// The kind of event that answers the action.
    pub fn answer_kind(&self) -> (r: EventKind)
        ensures
            r == self@.answer(),
    {
        match self {
            Action::Health => EventKind::Health,
            Action::GetStatus => EventKind::Status,
            Action::Wake | Action::Sleep | Action::AddMetric { .. } | Action::InspectFile { .. }
            | Action::GetConfig => EventKind::Text,
            Action::CreateConnection { .. } | Action::GetConnection { .. } => EventKind::Connection,
            Action::CloseConnection { .. } | Action::RemoveMetric { .. }
            | Action::ToggleMetric { .. } | Action::UpdateConfig { .. } | Action::ReloadConfig => {
                EventKind::Done
            },
            Action::ListConnections => EventKind::Connections,
            Action::Observe { .. } => EventKind::Observed,
            Action::EnableFromDiff { .. } => EventKind::FromDiff,
            Action::GetMetric { .. } => EventKind::Metric,
            Action::ListMetrics => EventKind::Metrics,
            Action::QueryEvents { .. } => EventKind::Events,
            Action::EnableGroup { .. } | Action::DisableGroup { .. } => EventKind::Count,
            Action::ListGroups => EventKind::Groups,
            Action::ValidateExpression { .. } => EventKind::Validation,
            Action::ValidateConfig { .. } => EventKind::Valid,
            Action::QuerySystemEvents { .. } => EventKind::SystemEvents,
            Action::AcknowledgeSystemEvents { .. } => EventKind::Acknowledged,
            Action::GetMcpUsage => EventKind::Usage,
            Action::Pause { .. } => EventKind::Paused,
            Action::CheckTimer { .. } => EventKind::Timer,
            Action::RestartDebugger => EventKind::Restarted,
            Action::Burst { .. } => EventKind::Burst,
        }
    }

    /// Whether the action is a call of the daemon.
    pub fn is_call(&self) -> (r: bool)
        ensures
            r == self@.is_call(),
    {
        !matches!(
            self,
            Action::Pause { .. } | Action::CheckTimer { .. } | Action::RestartDebugger
            | Action::Burst { .. }
        )
    }
}

/// The event of a call that failed; none for an action that is no call.
pub fn failure(action: &Action, error: ApiError) -> (r: Option<Event>)
    ensures
        r is Some <==> action@.is_call(),
        r matches Some(event) ==> event.spec_kind() == action@.answer() && event.error() == Some(
            error,
        ),
{
    match action {
        Action::Health => Some(Event::Health(Err(error))),
        Action::GetStatus => Some(Event::Status(Err(error))),
        Action::Wake | Action::Sleep | Action::AddMetric { .. } | Action::InspectFile { .. }
        | Action::GetConfig => Some(Event::Text(Err(error))),
        Action::CreateConnection { .. } | Action::GetConnection { .. } => Some(
            Event::Connection(Err(error)),
        ),
        Action::ListConnections => Some(Event::Connections(Err(error))),
        Action::CloseConnection { .. } | Action::RemoveMetric { .. } | Action::ToggleMetric { .. }
        | Action::UpdateConfig { .. } | Action::ReloadConfig => Some(Event::Done(Err(error))),
        Action::GetMetric { .. } => Some(Event::Metric(Err(error))),
        Action::ListMetrics => Some(Event::Metrics(Err(error))),
        Action::QueryEvents { .. } => Some(Event::Events(Err(error))),
        Action::Observe { .. } => Some(Event::Observed(Err(error))),
        Action::EnableFromDiff { .. } => Some(Event::FromDiff(Err(error))),
        Action::EnableGroup { .. } | Action::DisableGroup { .. } => Some(
            Event::Count(Err(error)),
        ),
        Action::ListGroups => Some(Event::Groups(Err(error))),
        Action::ValidateExpression { .. } => Some(Event::Validation(Err(error))),
        Action::ValidateConfig { .. } => Some(Event::Valid(Err(error))),
        Action::QuerySystemEvents { .. } => Some(Event::SystemEvents(Err(error))),
        Action::AcknowledgeSystemEvents { .. } => Some(Event::Acknowledged(Err(error))),
        Action::GetMcpUsage => Some(Event::Usage(Err(error))),
        Action::Pause { .. } | Action::CheckTimer { .. } | Action::RestartDebugger
        | Action::Burst { .. } => None,
    }
}

/// The error of an action that only MCP offers, on a backend with the given name; none for the
/// others.
pub fn mcp_only(action: &Action, api_type: &str) -> (r: Option<ApiError>)
    ensures
        match r {
            Some(e) => match action@ {
                ActionView::Observe(_) => e@ == plain_error(
                    "observe tool is only supported on MCP backend, not "@ + api_type@,
                ),
                ActionView::EnableFromDiff(_) => e@ == plain_error(
                    "enable_from_diff tool is only supported on MCP backend, not "@ + api_type@,
                ),
                _ => false,
            },
            None => !(action@ is Observe || action@ is EnableFromDiff),
        },
{
    match action {
        Action::Observe { .. } => Some(observe_unsupported(api_type)),
        Action::EnableFromDiff { .. } => Some(enable_from_diff_unsupported(api_type)),
        _ => None,
    }
}

} // verus!
