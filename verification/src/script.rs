//! Scenarios as scripts: a list of items, and the machine that works through it.
//!
//! An item reports something, waits, or makes one call. A call carries the rules by which its
//! answer is reported and judged: an [`OkRule`] for success, an [`ErrRule`] for an error. The
//! machine takes the items in order; a rule may put further items in front of the rest, or end
//! the script with an error.

use vstd::prelude::*;

pub mod rules;

use crate::client::{
    metric_index, find_metric, plain_error, AddMetricRequestView, ApiError, ApiErrorView,
    ConnectionInfo, EventInfo, GroupInfo, McpErrorCountInfo, McpUsageInfo, MetricInfo,
    ObserveRequestView, ObserveResponse,
};
use crate::dap_scenarios::workflow::{value_json, value_json_text};
use crate::exchange::{Action, ActionView, Event, EventKind};
use crate::json::{
    debug_json, debug_json_list, format_json_debug, format_json_list_debug, json_views, Json,
    JsonView,
};
use crate::report::{failed, request, response, start, success, Log, ReportView};
use crate::text::{
    bool_str, bool_text, byte_len, cat2, cat3, cat4, cat5, cat6, cat7, cat8, cat9, contains,
    decimal, has_text, join, joined, num, num_signed, num_usize, opt_view, same_text, sat_add,
    sat_sum, signed_decimal, views,
};

verus! {

// ---------------------------------------------------------------------------
// Items
// ---------------------------------------------------------------------------

/// A text that may have the id of the script's connection in its middle.
#[derive(Debug)]
pub struct Text {
    pub before: String,
    pub connection: bool,
    pub after: String,
}

/// The mathematical counterpart of [`Text`].
pub struct TextView {
    pub before: Seq<char>,
    pub connection: bool,
    pub after: Seq<char>,
}

impl View for Text {
    type V = TextView;

    open spec fn view(&self) -> TextView {
        TextView { before: self.before@, connection: self.connection, after: self.after@ }
    }
}

/// A text without the connection.
pub open spec fn plain(text: Seq<char>) -> TextView {
    TextView { before: text, connection: false, after: Seq::empty() }
}

/// A text around the connection.
pub open spec fn around(before: Seq<char>, after: Seq<char>) -> TextView {
    TextView { before, connection: true, after }
}

/// The text with the connection filled in.
pub open spec fn render(t: TextView, connection: Seq<char>) -> Seq<char> {
    if t.connection {
        t.before + connection + t.after
    } else {
        t.before
    }
}

impl Text {
    /// A text without the connection.
    pub fn plain(text: &str) -> (r: Text)
        ensures
            r@ == plain(text@),
    {
        Text { before: text.to_owned(), connection: false, after: String::new() }
    }

    /// A text around the connection.
    pub fn around(before: &str, after: &str) -> (r: Text)
        ensures
            r@ == around(before@, after@),
    {
        Text { before: before.to_owned(), connection: true, after: after.to_owned() }
    }

    /// The text with the connection filled in.
    pub fn render(&self, connection: &str) -> (r: String)
        ensures
            r@ == render(self@, connection@),
    {
        if self.connection {
            cat3(self.before.as_str(), connection, self.after.as_str())
        } else {
            self.before.clone()
        }
    }
}

/// How a successful answer is reported and judged. `S` is the type of texts, `L` that of lists
/// of texts.
#[derive(Debug)]
pub enum Rule<S, L> {
    /// Nothing is reported.
    Nothing,
    /// The API must be healthy.
    Healthy,
    /// The status is shown.
    StatusShown,
    /// The text is shown.
    TextShown { success: S },
    /// The text is shown as a status.
    TextStatus { success: S },
    /// The connection is remembered; id and status are shown.
    Connected,
    /// The connection is remembered; the id is shown.
    ConnectedShort,
    /// The connection is remembered; the id is the detail of the step.
    ConnectedBare,
    /// The connection is remembered; there is no step.
    ConnectedProbe,
    /// The connections are listed.
    ConnectionsListed,
    /// The step succeeds.
    Done { success: S },
    /// A fixed response is shown.
    Fixed { status: S, body: S, success: S },
    /// The id of the added metric is shown.
    MetricAdded { name: S },
    /// The metrics are listed.
    MetricsListed,
    /// The events are listed.
    EventsListed,
    /// The finding on an expression must be the expected one.
    Validated { expect_safe: bool },
    /// The metric is shown.
    MetricShown,
    /// The groups are listed.
    GroupsListed,
    /// The number of metrics is shown.
    CountShown { verb: S, success: S },
    /// The length of the text is shown.
    CharsShown { success: S },
    /// The finding on a configuration is shown.
    ValidShown,
    /// The number of events is shown.
    EventsCounted { success: S },
    /// The status of the connection is shown.
    ConnectionShown,
    /// The usage statistics are shown.
    UsageShown,
    /// The id of the metric that was added disabled is shown.
    DisabledAdded { name: S },
    /// The group should have no enabled metric yet.
    GroupChecked { group: S, expected: usize },
    /// The group must have enabled the expected number of metrics; else the connection is
    /// closed and the script ends.
    GroupEnabled { expected: usize },
    /// The state of the group is shown.
    GroupVerified { group: S },
    /// The number of disabled metrics is shown.
    GroupDisabled,
    /// The metric must be listed with three expressions.
    MultiListed { metric: S },
    /// The first event must hold a value for every expression.
    MultiVerified { expressions: L },
    /// The observed line is shown.
    ObservedLine,
    /// The line that was found is shown, with the alternatives.
    ObservedFound,
    /// The observed metric is shown, with warnings.
    ObservedIntrospection,
    /// The connection that was selected should be the only one.
    ObservedSelected,
    /// The events of the observed metrics are to be counted.
    ObservedListed,
    /// The events of one observed metric are counted.
    ObservedCounted { name: S },
    /// The metrics with generated names are to be removed.
    LeftoversListed,
    /// The metric was added: three more calls are to be tried.
    ProbeMetricAdded,
    /// The call should have failed.
    ErrorExpected,
    /// The finding on the empty expression is shown.
    EmptyValidated,
    /// The finding on the malformed configuration is shown.
    ConfigJudged,
    /// Most of the requests of a burst must have succeeded.
    BurstHealthy,
    /// The number of requests of a burst that succeeded is shown.
    BurstShown { shown: S, completed: S },
}

/// How a successful answer is reported and judged.
pub type OkRule = Rule<String, Vec<String>>;

/// The mathematical counterpart of [`OkRule`].
pub type OkRuleView = Rule<Seq<char>, Seq<Seq<char>>>;

/// The rule as mathematical data.
pub open spec fn rule_view(r: OkRule) -> OkRuleView {
    match r {
        Rule::Nothing => Rule::Nothing,
        Rule::Healthy => Rule::Healthy,
        Rule::StatusShown => Rule::StatusShown,
        Rule::TextShown { success } => Rule::TextShown { success: success@ },
        Rule::TextStatus { success } => Rule::TextStatus { success: success@ },
        Rule::Connected => Rule::Connected,
        Rule::ConnectedShort => Rule::ConnectedShort,
        Rule::ConnectedBare => Rule::ConnectedBare,
        Rule::ConnectedProbe => Rule::ConnectedProbe,
        Rule::ConnectionsListed => Rule::ConnectionsListed,
        Rule::Done { success } => Rule::Done { success: success@ },
        Rule::Fixed { status, body, success } => Rule::Fixed {
            status: status@,
            body: body@,
            success: success@,
        },
        Rule::MetricAdded { name } => Rule::MetricAdded { name: name@ },
        Rule::MetricsListed => Rule::MetricsListed,
        Rule::EventsListed => Rule::EventsListed,
        Rule::Validated { expect_safe } => Rule::Validated { expect_safe },
        Rule::MetricShown => Rule::MetricShown,
        Rule::GroupsListed => Rule::GroupsListed,
        Rule::CountShown { verb, success } => Rule::CountShown { verb: verb@, success: success@ },
        Rule::CharsShown { success } => Rule::CharsShown { success: success@ },
        Rule::ValidShown => Rule::ValidShown,
        Rule::EventsCounted { success } => Rule::EventsCounted { success: success@ },
        Rule::ConnectionShown => Rule::ConnectionShown,
        Rule::UsageShown => Rule::UsageShown,
        Rule::DisabledAdded { name } => Rule::DisabledAdded { name: name@ },
        Rule::GroupChecked { group, expected } => Rule::GroupChecked { group: group@, expected },
        Rule::GroupEnabled { expected } => Rule::GroupEnabled { expected },
        Rule::GroupVerified { group } => Rule::GroupVerified { group: group@ },
        Rule::GroupDisabled => Rule::GroupDisabled,
        Rule::MultiListed { metric } => Rule::MultiListed { metric: metric@ },
        Rule::MultiVerified { expressions } => Rule::MultiVerified {
            expressions: views(expressions@),
        },
        Rule::ObservedLine => Rule::ObservedLine,
        Rule::ObservedFound => Rule::ObservedFound,
        Rule::ObservedIntrospection => Rule::ObservedIntrospection,
        Rule::ObservedSelected => Rule::ObservedSelected,
        Rule::ObservedListed => Rule::ObservedListed,
        Rule::ObservedCounted { name } => Rule::ObservedCounted { name: name@ },
        Rule::LeftoversListed => Rule::LeftoversListed,
        Rule::ProbeMetricAdded => Rule::ProbeMetricAdded,
        Rule::ErrorExpected => Rule::ErrorExpected,
        Rule::EmptyValidated => Rule::EmptyValidated,
        Rule::ConfigJudged => Rule::ConfigJudged,
        Rule::BurstHealthy => Rule::BurstHealthy,
        Rule::BurstShown { shown, completed } => Rule::BurstShown {
            shown: shown@,
            completed: completed@,
        },
    }
}

/// How an error is reported and judged. `S` is the type of texts.
#[derive(Debug)]
pub enum Fault<S> {
    /// The step fails, and the script ends with the error.
    FailStep,
    /// The script ends with the error; the step stays open.
    Propagate,
    /// Nothing happens.
    Ignore,
    /// The error is as good as a success.
    Accept { status: S, success: S },
    /// The error is as good as a success if it says that the call is not offered.
    AcceptUnsupported,
    /// The error is as good as a success if it says that there is no configuration.
    AcceptUnconfigured,
    /// The step fails, the connection is closed, and the script ends with the error.
    FailAndClose,
    /// The step fails, and the script goes on.
    FailContinue,
    /// The error is shown, and the check of the group is taken as done.
    GroupChecked { expected: usize },
    /// The error is shown as a warning.
    AutoFindFailed,
    /// The error is put on the list of failures.
    Probe { label: S },
}

/// How an error is reported and judged.
pub type ErrRule = Fault<String>;

/// The mathematical counterpart of [`ErrRule`].
pub type ErrRuleView = Fault<Seq<char>>;

/// The rule as mathematical data.
pub open spec fn fault_view(r: ErrRule) -> ErrRuleView {
    match r {
        Fault::FailStep => Fault::FailStep,
        Fault::Propagate => Fault::Propagate,
        Fault::Ignore => Fault::Ignore,
        Fault::Accept { status, success } => Fault::Accept { status: status@, success: success@ },
        Fault::AcceptUnsupported => Fault::AcceptUnsupported,
        Fault::AcceptUnconfigured => Fault::AcceptUnconfigured,
        Fault::FailAndClose => Fault::FailAndClose,
        Fault::FailContinue => Fault::FailContinue,
        Fault::GroupChecked { expected } => Fault::GroupChecked { expected },
        Fault::AutoFindFailed => Fault::AutoFindFailed,
        Fault::Probe { label } => Fault::Probe { label: label@ },
    }
}

/// One call of a script.
#[derive(Debug)]
pub struct Call {
    /// A message in front of everything else.
    pub info: Option<String>,
    /// The name and the description of the step that the call opens.
    pub step: Option<(String, Text)>,
    /// The method and the details of the request, as it is reported.
    pub request: Option<(String, Option<Text>)>,
    /// Whether the call is left out where there is no connection.
    pub needs_connection: bool,
    pub action: Action,
    /// Whether the script's connection is put into the action.
    pub bind: bool,
    pub ok: OkRule,
    pub err: ErrRule,
}

/// The mathematical counterpart of [`Call`].
pub struct CallView {
    pub info: Option<Seq<char>>,
    pub step: Option<(Seq<char>, TextView)>,
    pub request: Option<(Seq<char>, Option<TextView>)>,
    pub needs_connection: bool,
    pub action: ActionView,
    pub bind: bool,
    pub ok: OkRuleView,
    pub err: ErrRuleView,
}

impl View for Call {
    type V = CallView;

    open spec fn view(&self) -> CallView {
        CallView {
            info: opt_view(self.info),
            step: match self.step {
                Some((name, text)) => Some((name@, text@)),
                None => None,
            },
            request: match self.request {
                Some((method, Some(text))) => Some((method@, Some(text@))),
                Some((method, None)) => Some((method@, None)),
                None => None,
            },
            needs_connection: self.needs_connection,
            action: self.action@,
            bind: self.bind,
            ok: rule_view(self.ok),
            err: fault_view(self.err),
        }
    }
}

/// What a script waits for when it waits for events.
#[derive(Debug)]
pub struct Wait {
    pub metric: String,
    pub min_events: usize,
    pub timeout_secs: u64,
}

/// The mathematical counterpart of [`Wait`].
pub struct WaitView {
    pub metric: Seq<char>,
    pub min_events: usize,
    pub timeout_secs: u64,
}

impl View for Wait {
    type V = WaitView;

    open spec fn view(&self) -> WaitView {
        WaitView {
            metric: self.metric@,
            min_events: self.min_events,
            timeout_secs: self.timeout_secs,
        }
    }
}

/// One item of a script.
#[derive(Debug)]
pub enum Item {
    Section { title: String },
    Info { message: String },
    /// A message around the number that was counted last.
    InfoCount { before: String, after: String },
    /// A step begins that later items belong to.
    Step { name: String, description: String },
    Pause { millis: u64 },
    Call { call: Call },
    /// Polls until a metric has enough events or the time is up.
    Wait { wait: Wait },
    /// The step ends with the number of events that were counted.
    Total,
    /// The script ends with an error if something failed.
    Verdict,
}

/// The mathematical counterpart of [`Item`].
pub enum ItemView {
    Section(Seq<char>),
    Info(Seq<char>),
    InfoCount(Seq<char>, Seq<char>),
    Step(Seq<char>, Seq<char>),
    Pause(u64),
    Call(CallView),
    Wait(WaitView),
    Total,
    Verdict,
}

impl View for Item {
    type V = ItemView;

    open spec fn view(&self) -> ItemView {
        match self {
            Item::Section { title } => ItemView::Section(title@),
            Item::Info { message } => ItemView::Info(message@),
            Item::InfoCount { before, after } => ItemView::InfoCount(before@, after@),
            Item::Step { name, description } => ItemView::Step(name@, description@),
            Item::Pause { millis } => ItemView::Pause(*millis),
            Item::Call { call } => ItemView::Call(call@),
            Item::Wait { wait } => ItemView::Wait(wait@),
            Item::Total => ItemView::Total,
            Item::Verdict => ItemView::Verdict,
        }
    }
}

/// The items of a list.
pub open spec fn item_views(items: Seq<Item>) -> Seq<ItemView> {
    items.map_values(|i: Item| i@)
}

// ---------------------------------------------------------------------------
// State
// ---------------------------------------------------------------------------

/// What a call gave.
#[derive(Debug)]
pub enum Outcome {
    Unit,
    Text(String),
    Count(usize),
    Flag(bool),
}

/// The mathematical counterpart of [`Outcome`].
pub enum OutcomeView {
    Unit,
    Text(Seq<char>),
    Count(usize),
    Flag(bool),
}

impl View for Outcome {
    type V = OutcomeView;

    open spec fn view(&self) -> OutcomeView {
        match self {
            Outcome::Unit => OutcomeView::Unit,
            Outcome::Text(s) => OutcomeView::Text(s@),
            Outcome::Count(n) => OutcomeView::Count(*n),
            Outcome::Flag(b) => OutcomeView::Flag(*b),
        }
    }
}

/// What a script is waiting for.
#[derive(Debug)]
pub enum Waiting {
    Nothing,
    Call { kind: EventKind, ok: OkRule, err: ErrRule },
    Pause,
    WaitTimer { wait: Wait },
    WaitQuery { wait: Wait },
    WaitPause { wait: Wait },
    /// The connection is closed before the script ends with the error.
    Closing { error: ApiError },
}

/// The mathematical counterpart of [`Waiting`].
pub enum WaitingView {
    Nothing,
    Call(EventKind, OkRuleView, ErrRuleView),
    Pause,
    WaitTimer(WaitView),
    WaitQuery(WaitView),
    WaitPause(WaitView),
    Closing(ApiErrorView),
}

impl View for Waiting {
    type V = WaitingView;

    open spec fn view(&self) -> WaitingView {
        match self {
            Waiting::Nothing => WaitingView::Nothing,
            Waiting::Call { kind, ok, err } => WaitingView::Call(
                *kind,
                rule_view(*ok),
                fault_view(*err),
            ),
            Waiting::Pause => WaitingView::Pause,
            Waiting::WaitTimer { wait } => WaitingView::WaitTimer(wait@),
            Waiting::WaitQuery { wait } => WaitingView::WaitQuery(wait@),
            Waiting::WaitPause { wait } => WaitingView::WaitPause(wait@),
            Waiting::Closing { error } => WaitingView::Closing(error@),
        }
    }
}

impl WaitingView {
    /// The kind of event that is waited for.
    pub open spec fn answer(self) -> EventKind {
        match self {
            WaitingView::Call(kind, _, _) => kind,
            WaitingView::WaitTimer(_) => EventKind::Timer,
            WaitingView::WaitQuery(_) => EventKind::Events,
            WaitingView::Closing(_) => EventKind::Done,
            _ => EventKind::Paused,
        }
    }
}

/// The state of a script.
pub struct ScriptState {
    pub todo: Seq<ItemView>,
    pub waiting: WaitingView,
    pub connection: Option<Seq<char>>,
    /// What was counted last.
    pub count: usize,
    /// The events of the observed metrics.
    pub total: usize,
    pub failures: Seq<Seq<char>>,
    /// What the last call gave.
    pub value: OutcomeView,
}

/// A script at work.
#[derive(Debug)]
pub struct Script {
    pub todo: Vec<Item>,
    pub waiting: Waiting,
    pub connection: Option<String>,
    pub count: usize,
    pub total: usize,
    pub failures: Vec<String>,
    pub value: Outcome,
}

impl View for Script {
    type V = ScriptState;

    open spec fn view(&self) -> ScriptState {
        ScriptState {
            todo: item_views(self.todo@),
            waiting: self.waiting@,
            connection: opt_view(self.connection),
            count: self.count,
            total: self.total,
            failures: views(self.failures@),
            value: self.value@,
        }
    }
}

/// How a script goes on.
#[derive(Debug)]
pub enum ScriptNext {
    Ask(Action),
    Finish(Result<Outcome, ApiError>),
}

/// The mathematical counterpart of [`ScriptNext`].
pub enum ScriptNextView {
    Ask(ActionView),
    Finish(Result<OutcomeView, ApiErrorView>),
}

impl View for ScriptNext {
    type V = ScriptNextView;

    open spec fn view(&self) -> ScriptNextView {
        match self {
            ScriptNext::Ask(a) => ScriptNextView::Ask(a@),
            ScriptNext::Finish(Ok(v)) => ScriptNextView::Finish(Ok(v@)),
            ScriptNext::Finish(Err(e)) => ScriptNextView::Finish(Err(e@)),
        }
    }
}

/// One turn of a script.
pub struct ScriptTurn {
    pub log: Seq<ReportView>,
    pub state: ScriptState,
    pub next: ScriptNextView,
}

/// How a rule has judged an answer.
pub enum Judgement {
    Go,
    Fail(ApiErrorView),
    FailAfterClose(ApiErrorView),
}

/// The outcome of a rule.
pub struct Judged {
    pub log: Seq<ReportView>,
    pub state: ScriptState,
    pub judgement: Judgement,
}

/// The script goes on.
pub open spec fn go(log: Seq<ReportView>, s: ScriptState, value: OutcomeView) -> Judged {
    Judged { log, state: ScriptState { value, ..s }, judgement: Judgement::Go }
}

/// The script ends with a new error.
pub open spec fn stop(log: Seq<ReportView>, s: ScriptState, message: Seq<char>) -> Judged {
    Judged { log, state: s, judgement: Judgement::Fail(plain_error(message)) }
}

// ---------------------------------------------------------------------------
// Reports on lists
// ---------------------------------------------------------------------------

/// The reports on the first `n` connections.
pub open spec fn log_connections(log: Seq<ReportView>, list: Seq<ConnectionInfo>, n: nat) -> Seq<
    ReportView,
>
    decreases n,
{
    if n == 0 {
        log
    } else {
        let c = list[n - 1];
        log_connections(log, list, (n - 1) as nat).push(
            ReportView::Info(
                "  "@ + c.connection_id@ + " -> "@ + c.host@ + ":"@ + decimal(c.port as nat) + (
                " ("@ + c.language@ + ") ["@ + c.status@ + "]"@),
            ),
        )
    }
}

fn report_connections(log: &mut Log, list: &Vec<ConnectionInfo>)
    ensures
        final(log)@ == log_connections(old(log)@, list@, list@.len()),
{
    let mut i: usize = 0;
    while i < list.len()
        invariant
            i <= list.len(),
            log@ == log_connections(old(log)@, list@, i as nat),
        decreases list.len() - i,
    {
        let c: &ConnectionInfo = &list[i];
        let tail: String = cat5(" (", c.language.as_str(), ") [", c.status.as_str(), "]");
        let text: String = cat7(
            "  ",
            c.connection_id.as_str(),
            " -> ",
            c.host.as_str(),
            ":",
            num(c.port as u64).as_str(),
            tail.as_str(),
        );
        log.info(text.as_str());
        i = i + 1;
    }
}

/// The state of a metric, for people.
pub open spec fn enabled_text(enabled: bool) -> Seq<char> {
    if enabled {
        "enabled"@
    } else {
        "disabled"@
    }
}

/// The state of a metric, for people.
pub fn enabled_str(enabled: bool) -> (r: &'static str)
    ensures
        r@ == enabled_text(enabled),
{
    if enabled {
        "enabled"
    } else {
        "disabled"
    }
}

/// The reports on the first `n` metrics.
pub open spec fn log_metrics(log: Seq<ReportView>, list: Seq<MetricInfo>, n: nat) -> Seq<ReportView>
    decreases n,
{
    if n == 0 {
        log
    } else {
        let m = list[n - 1];
        log_metrics(log, list, (n - 1) as nat).push(
            ReportView::Info(
                "  "@ + m.name@ + " @ "@ + m.location@ + " -> "@ + m.expression@ + " ["@
                    + enabled_text(m.enabled) + "]"@,
            ),
        )
    }
}

fn report_metrics(log: &mut Log, list: &Vec<MetricInfo>)
    ensures
        final(log)@ == log_metrics(old(log)@, list@, list@.len()),
{
    let mut i: usize = 0;
    while i < list.len()
        invariant
            i <= list.len(),
            log@ == log_metrics(old(log)@, list@, i as nat),
        decreases list.len() - i,
    {
        let m: &MetricInfo = &list[i];
        let text: String = cat9(
            "  ",
            m.name.as_str(),
            " @ ",
            m.location.as_str(),
            " -> ",
            m.expression.as_str(),
            " [",
            enabled_str(m.enabled),
            "]",
        );
        log.info(text.as_str());
        i = i + 1;
    }
}

/// The reports on the first `n` events.
pub open spec fn log_events(log: Seq<ReportView>, list: Seq<EventInfo>, n: nat) -> Seq<ReportView>
    decreases n,
{
    if n == 0 {
        log
    } else {
        let e = list[n - 1];
        log_events(log, list, (n - 1) as nat).push(
            ReportView::Info(
                "  ["@ + e.timestamp_iso@ + "] "@ + e.metric_name@ + " = "@ + e.value@ + " (age: "@
                    + signed_decimal(e.age_seconds as int) + "s)"@,
            ),
        )
    }
}

fn report_events(log: &mut Log, list: &Vec<EventInfo>)
    ensures
        final(log)@ == log_events(old(log)@, list@, list@.len()),
{
    let mut i: usize = 0;
    while i < list.len()
        invariant
            i <= list.len(),
            log@ == log_events(old(log)@, list@, i as nat),
        decreases list.len() - i,
    {
        let e: &EventInfo = &list[i];
        let text: String = cat9(
            "  [",
            e.timestamp_iso.as_str(),
            "] ",
            e.metric_name.as_str(),
            " = ",
            e.value.as_str(),
            " (age: ",
            num_signed(e.age_seconds).as_str(),
            "s)",
        );
        log.info(text.as_str());
        i = i + 1;
    }
}

/// The reports on the first `n` groups.
pub open spec fn log_groups(log: Seq<ReportView>, list: Seq<GroupInfo>, n: nat) -> Seq<ReportView>
    decreases n,
{
    if n == 0 {
        log
    } else {
        let g = list[n - 1];
        log_groups(log, list, (n - 1) as nat).push(
            ReportView::Info(
                "  "@ + g.name@ + " ("@ + decimal(g.enabled_count as nat) + "/"@ + decimal(
                    g.metric_count as nat,
                ) + " enabled)"@,
            ),
        )
    }
}

fn report_groups(log: &mut Log, list: &Vec<GroupInfo>)
    ensures
        final(log)@ == log_groups(old(log)@, list@, list@.len()),
{
    let mut i: usize = 0;
    while i < list.len()
        invariant
            i <= list.len(),
            log@ == log_groups(old(log)@, list@, i as nat),
        decreases list.len() - i,
    {
        let g: &GroupInfo = &list[i];
        let text: String = cat7(
            "  ",
            g.name.as_str(),
            " (",
            num(g.enabled_count as u64).as_str(),
            "/",
            num(g.metric_count as u64).as_str(),
            " enabled)",
        );
        log.info(text.as_str());
        i = i + 1;
    }
}

/// The position of the first group with the name; the number of groups where there is none.
pub open spec fn group_index(list: Seq<GroupInfo>, name: Seq<char>) -> nat
    decreases list.len(),
{
    if list.len() == 0 || list[0].name@ == name {
        0
    } else {
        1 + group_index(list.drop_first(), name)
    }
}

proof fn lemma_group_index_is(list: Seq<GroupInfo>, name: Seq<char>, k: nat)
    requires
        k <= list.len(),
        k < list.len() ==> list[k as int].name@ == name,
        forall|j: int| 0 <= j < k ==> (#[trigger] list[j]).name@ != name,
    ensures
        group_index(list, name) == k,
    decreases list.len(),
{
    if k > 0 {
        assert(list[0].name@ != name);
        let t = list.drop_first();
        assert forall|j: int| 0 <= j < k - 1 implies (#[trigger] t[j]).name@ != name by {
            assert(t[j] == list[j + 1]);
        }
        lemma_group_index_is(t, name, (k - 1) as nat);
    }
}

/// The position of the first group with the name; the number of groups where there is none.
pub fn find_group(list: &Vec<GroupInfo>, name: &str) -> (r: usize)
    ensures
        r <= list.len(),
        r == group_index(list@, name@),
{
    let mut i: usize = 0;
    while i < list.len()
        invariant
            i <= list.len(),
            forall|j: int| 0 <= j < i ==> (#[trigger] list@[j]).name@ != name@,
        decreases list.len() - i,
    {
        if same_text(list[i].name.as_str(), name) {
            proof {
                lemma_group_index_is(list@, name@, i as nat);
            }
            return i;
        }
        i = i + 1;
    }
    proof {
        lemma_group_index_is(list@, name@, i as nat);
    }
    i
}

/// The reports on the first `n` error codes.
pub open spec fn log_top_errors(
    log: Seq<ReportView>,
    list: Seq<McpErrorCountInfo>,
    n: nat,
) -> Seq<ReportView>
    decreases n,
{
    if n == 0 {
        log
    } else {
        let e = list[n - 1];
        log_top_errors(log, list, (n - 1) as nat).push(
            ReportView::Info(
                "    - "@ + e.code@ + ": "@ + decimal(e.count as nat) + " occurrences"@,
            ),
        )
    }
}

/// The reports on usage statistics.
pub open spec fn log_usage(log: Seq<ReportView>, u: McpUsageInfo) -> Seq<ReportView> {
    let l = log.push(
        response(
            "OK"@,
            "calls="@ + decimal(u.total_calls as nat) + ", success_rate="@ + u.success_percent@
                + "%"@,
        ),
    ).push(
        ReportView::Info(
            "  Successes: "@ + decimal(u.total_success as nat) + ", Errors: "@ + decimal(
                u.total_errors as nat,
            ) + ", Avg Latency: "@ + u.avg_latency@ + "ms"@,
        ),
    );
    let t = if u.top_errors@.len() > 0 {
        log_top_errors(
            l.push(ReportView::Info("  Top Errors:"@)),
            u.top_errors@,
            u.top_errors@.len(),
        )
    } else {
        l
    };
    t.push(
        ReportView::Info(
            "  Workflow: correct="@ + decimal(u.workflow.correct_workflows as nat)
                + ", skipped_inspect="@ + decimal(u.workflow.skipped_inspect as nat)
                + ", no_connection="@ + decimal(u.workflow.no_connection as nat) + ", adherence="@
                + u.workflow.adherence_percent@ + "%"@,
        ),
    ).push(success("Got MCP usage statistics"@))
}

fn report_usage(log: &mut Log, u: &McpUsageInfo)
    ensures
        final(log)@ == log_usage(old(log)@, *u),
{
    log.response(
        "OK",
        cat5(
            "calls=",
            num(u.total_calls).as_str(),
            ", success_rate=",
            u.success_percent.as_str(),
            "%",
        ).as_str(),
    );
    log.info(
        cat7(
            "  Successes: ",
            num(u.total_success).as_str(),
            ", Errors: ",
            num(u.total_errors).as_str(),
            ", Avg Latency: ",
            u.avg_latency.as_str(),
            "ms",
        ).as_str(),
    );
    if u.top_errors.len() > 0 {
        log.info("  Top Errors:");
        let ghost base = log@;
        let mut i: usize = 0;
        while i < u.top_errors.len()
            invariant
                i <= u.top_errors.len(),
                log@ == log_top_errors(base, u.top_errors@, i as nat),
            decreases u.top_errors.len() - i,
        {
            let e: &McpErrorCountInfo = &u.top_errors[i];
            let text: String = cat5(
                "    - ",
                e.code.as_str(),
                ": ",
                num(e.count).as_str(),
                " occurrences",
            );
            log.info(text.as_str());
            i = i + 1;
        }
    }
    log.info(
        cat9(
            "  Workflow: correct=",
            num(u.workflow.correct_workflows).as_str(),
            ", skipped_inspect=",
            num(u.workflow.skipped_inspect).as_str(),
            ", no_connection=",
            num(u.workflow.no_connection).as_str(),
            ", adherence=",
            u.workflow.adherence_percent.as_str(),
            "%",
        ).as_str(),
    );
    log.success("Got MCP usage statistics");
}

/// The reports on the first `n` alternative lines.
pub open spec fn log_alternatives(log: Seq<ReportView>, list: Seq<(u32, String)>, n: nat) -> Seq<
    ReportView,
>
    decreases n,
{
    if n == 0 {
        log
    } else {
        log_alternatives(log, list, (n - 1) as nat).push(
            ReportView::Info(
                "    Line "@ + decimal(list[n - 1].0 as nat) + ": "@ + list[n - 1].1@,
            ),
        )
    }
}

fn report_alternatives(log: &mut Log, list: &Vec<(u32, String)>)
    ensures
        final(log)@ == log_alternatives(old(log)@, list@, list@.len()),
{
    let mut i: usize = 0;
    while i < list.len()
        invariant
            i <= list.len(),
            log@ == log_alternatives(old(log)@, list@, i as nat),
        decreases list.len() - i,
    {
        let text: String = cat4(
            "    Line ",
            num(list[i].0 as u64).as_str(),
            ": ",
            list[i].1.as_str(),
        );
        log.info(text.as_str());
        i = i + 1;
    }
}

/// The warnings among the first `n`.
pub open spec fn log_warnings(log: Seq<ReportView>, list: Seq<String>, n: nat) -> Seq<ReportView>
    decreases n,
{
    if n == 0 {
        log
    } else {
        log_warnings(log, list, (n - 1) as nat).push(
            ReportView::Warn("  Warning: "@ + list[n - 1]@),
        )
    }
}

fn report_warnings(log: &mut Log, list: &Vec<String>)
    ensures
        final(log)@ == log_warnings(old(log)@, list@, list@.len()),
{
    let mut i: usize = 0;
    while i < list.len()
        invariant
            i <= list.len(),
            log@ == log_warnings(old(log)@, list@, i as nat),
        decreases list.len() - i,
    {
        log.warn(cat2("  Warning: ", list[i].as_str()).as_str());
        i = i + 1;
    }
}

/// The reports on the first `n` failures.
pub open spec fn log_failures(log: Seq<ReportView>, list: Seq<Seq<char>>, n: nat) -> Seq<ReportView>
    decreases n,
{
    if n == 0 {
        log
    } else {
        log_failures(log, list, (n - 1) as nat).push(ReportView::Error("  - "@ + list[n - 1]))
    }
}

fn report_failures(log: &mut Log, list: &Vec<String>)
    ensures
        final(log)@ == log_failures(old(log)@, views(list@), list@.len()),
{
    let ghost vs = views(list@);
    let mut i: usize = 0;
    while i < list.len()
        invariant
            i <= list.len(),
            vs == views(list@),
            log@ == log_failures(old(log)@, vs, i as nat),
        decreases list.len() - i,
    {
        assert(vs[i as int] == list@[i as int]@);
        log.error(cat2("  - ", list[i].as_str()).as_str());
        i = i + 1;
    }
}

// ---------------------------------------------------------------------------
// Items that rules add
// ---------------------------------------------------------------------------

/// A call that reports nothing by itself.
pub open spec fn silent(action: ActionView, bind: bool, ok: OkRuleView, err: ErrRuleView) -> ItemView {
    ItemView::Call(
        CallView {
            info: None,
            step: None,
            request: None,
            needs_connection: false,
            action,
            bind,
            ok,
            err,
        },
    )
}

/// A call that opens a step and reports its request.
pub open spec fn step_call(
    name: Seq<char>,
    description: TextView,
    method: Seq<char>,
    details: Option<TextView>,
    action: ActionView,
    bind: bool,
    ok: OkRuleView,
    err: ErrRuleView,
) -> ItemView {
    ItemView::Call(
        CallView {
            info: None,
            step: Some((name, description)),
            request: Some((method, details)),
            needs_connection: false,
            action,
            bind,
            ok,
            err,
        },
    )
}

/// A call that opens a step and does not report its request.
pub open spec fn quiet_call(
    name: Seq<char>,
    description: TextView,
    action: ActionView,
    bind: bool,
    ok: OkRuleView,
    err: ErrRuleView,
) -> ItemView {
    ItemView::Call(
        CallView {
            info: None,
            step: Some((name, description)),
            request: None,
            needs_connection: false,
            action,
            bind,
            ok,
            err,
        },
    )
}

/// The rule is for events of the kind.
pub open spec fn fits<S, L>(rule: Rule<S, L>, kind: EventKind) -> bool {
    match rule {
        Rule::Nothing | Rule::Done { .. } | Rule::Fixed { .. } | Rule::ErrorExpected => true,
        Rule::Healthy => kind == EventKind::Health,
        Rule::StatusShown => kind == EventKind::Status,
        Rule::TextShown { .. } | Rule::TextStatus { .. } | Rule::MetricAdded { .. }
        | Rule::CharsShown { .. } | Rule::DisabledAdded { .. } | Rule::ProbeMetricAdded => kind
            == EventKind::Text,
        Rule::Connected | Rule::ConnectedShort | Rule::ConnectedBare | Rule::ConnectedProbe
        | Rule::ConnectionShown => kind == EventKind::Connection,
        Rule::ConnectionsListed => kind == EventKind::Connections,
        Rule::MetricsListed | Rule::MultiListed { .. } | Rule::ObservedListed
        | Rule::LeftoversListed => kind == EventKind::Metrics,
        Rule::EventsListed | Rule::EventsCounted { .. } | Rule::ObservedCounted { .. }
        | Rule::MultiVerified { .. } => kind == EventKind::Events,
        Rule::Validated { .. } | Rule::EmptyValidated => kind == EventKind::Validation,
        Rule::MetricShown => kind == EventKind::Metric,
        Rule::GroupsListed | Rule::GroupChecked { .. } | Rule::GroupVerified { .. } => kind
            == EventKind::Groups,
        Rule::CountShown { .. } | Rule::GroupEnabled { .. } | Rule::GroupDisabled => kind
            == EventKind::Count,
        Rule::ValidShown | Rule::ConfigJudged => kind == EventKind::Valid,
        Rule::UsageShown => kind == EventKind::Usage,
        Rule::ObservedLine | Rule::ObservedFound | Rule::ObservedIntrospection
        | Rule::ObservedSelected => kind == EventKind::Observed,
        Rule::BurstHealthy | Rule::BurstShown { .. } => kind == EventKind::Burst,
    }
}

/// A call that is announced, and whose error is put on the list of failures.
pub open spec fn probe(
    info: Seq<char>,
    label: Seq<char>,
    needs_connection: bool,
    action: ActionView,
    bind: bool,
    ok: OkRuleView,
) -> ItemView {
    ItemView::Call(
        CallView {
            info: Some(info),
            step: None,
            request: None,
            needs_connection,
            action,
            bind,
            ok,
            err: Fault::Probe { label },
        },
    )
}

impl Item {
    /// A call that opens a step and reports its request.
    pub fn step_call(
        name: &str,
        description: Text,
        method: &str,
        details: Option<Text>,
        action: Action,
        bind: bool,
        ok: OkRule,
        err: ErrRule,
    ) -> (r: Item)
        requires
            fits(ok, action@.answer()),
        ensures
            r@ == step_call(
                name@,
                description@,
                method@,
                match details {
                    Some(t) => Some(t@),
                    None => None,
                },
                action@,
                bind,
                rule_view(ok),
                fault_view(err),
            ),
    {
        Item::Call {
            call: Call {
                info: None,
                step: Some((name.to_owned(), description)),
                request: Some((method.to_owned(), details)),
                needs_connection: false,
                action,
                bind,
                ok,
                err,
            },
        }
    }

    /// A call that opens a step and does not report its request.
    pub fn quiet_call(
        name: &str,
        description: Text,
        action: Action,
        bind: bool,
        ok: OkRule,
        err: ErrRule,
    ) -> (r: Item)
        requires
            fits(ok, action@.answer()),
        ensures
            r@ == quiet_call(name@, description@, action@, bind, rule_view(ok), fault_view(err)),
    {
        Item::Call {
            call: Call {
                info: None,
                step: Some((name.to_owned(), description)),
                request: None,
                needs_connection: false,
                action,
                bind,
                ok,
                err,
            },
        }
    }

    /// A call that reports nothing by itself.
    pub fn silent(action: Action, bind: bool, ok: OkRule, err: ErrRule) -> (r: Item)
        requires
            fits(ok, action@.answer()),
        ensures
            r@ == silent(action@, bind, rule_view(ok), fault_view(err)),
    {
        Item::Call {
            call: Call {
                info: None,
                step: None,
                request: None,
                needs_connection: false,
                action,
                bind,
                ok,
                err,
            },
        }
    }

    /// A call that is announced, and whose error is put on the list of failures.
    pub fn probe(
        info: &str,
        label: &str,
        needs_connection: bool,
        action: Action,
        bind: bool,
        ok: OkRule,
    ) -> (r: Item)
        requires
            fits(ok, action@.answer()),
        ensures
            r@ == probe(info@, label@, needs_connection, action@, bind, rule_view(ok)),
    {
        Item::Call {
            call: Call {
                info: Some(info.to_owned()),
                step: None,
                request: None,
                needs_connection,
                action,
                bind,
                ok,
                err: Fault::Probe { label: label.to_owned() },
            },
        }
    }

    /// A section heading.
    pub fn section(title: &str) -> (r: Item)
        ensures
            r@ == ItemView::Section(title@),
    {
        Item::Section { title: title.to_owned() }
    }

    /// A message.
    pub fn info(message: &str) -> (r: Item)
        ensures
            r@ == ItemView::Info(message@),
    {
        Item::Info { message: message.to_owned() }
    }

    /// A pause.
    pub fn pause(millis: u64) -> (r: Item)
        ensures
            r@ == ItemView::Pause(millis),
    {
        Item::Pause { millis }
    }
}

/// The metrics whose events are counted after observing.
pub open spec fn is_observed(name: Seq<char>) -> bool {
    has_text(name, "metric"@) || has_text(name, "observe"@)
}

/// The metrics that observing has named by itself.
pub open spec fn is_leftover(name: Seq<char>) -> bool {
    has_text(name, "symbol_at_"@) || has_text(name, "quantity_at_"@)
}

/// The queries for the observed ones among the first `n` metrics.
pub open spec fn observed_queries(list: Seq<MetricInfo>, n: nat) -> Seq<ItemView>
    decreases n,
{
    if n == 0 {
        Seq::empty()
    } else {
        let q = observed_queries(list, (n - 1) as nat);
        let name = list[n - 1].name@;
        if is_observed(name) {
            q.push(
                silent(
                    ActionView::QueryEvents(name, 10),
                    false,
                    Rule::ObservedCounted { name },
                    Fault::Ignore,
                ),
            )
        } else {
            q
        }
    }
}

fn queries_for_observed(list: &Vec<MetricInfo>) -> (r: Vec<Item>)
    ensures
        item_views(r@) == observed_queries(list@, list@.len()),
{
    let mut out: Vec<Item> = Vec::new();
    assert(item_views(out@) =~= Seq::<ItemView>::empty());
    let mut i: usize = 0;
    while i < list.len()
        invariant
            i <= list.len(),
            item_views(out@) == observed_queries(list@, i as nat),
        decreases list.len() - i,
    {
        let name: &String = &list[i].name;
        if contains(name.as_str(), "metric") || contains(name.as_str(), "observe") {
            let ghost before = out@;
            let item: Item = Item::silent(
                Action::QueryEvents { name: name.clone(), limit: 10 },
                false,
                Rule::ObservedCounted { name: name.clone() },
                Fault::Ignore,
            );
            out.push(item);
            assert(item_views(out@) =~= item_views(before).push(item@));
        }
        i = i + 1;
    }
    out
}

/// The removals of the leftovers among the first `n` metrics.
pub open spec fn leftover_removals(list: Seq<MetricInfo>, n: nat) -> Seq<ItemView>
    decreases n,
{
    if n == 0 {
        Seq::empty()
    } else {
        let q = leftover_removals(list, (n - 1) as nat);
        let name = list[n - 1].name@;
        if is_leftover(name) {
            q.push(silent(ActionView::RemoveMetric(name), false, Rule::Nothing, Fault::Ignore))
        } else {
            q
        }
    }
}

fn removals_of_leftovers(list: &Vec<MetricInfo>) -> (r: Vec<Item>)
    ensures
        item_views(r@) == leftover_removals(list@, list@.len()),
{
    let mut out: Vec<Item> = Vec::new();
    assert(item_views(out@) =~= Seq::<ItemView>::empty());
    let mut i: usize = 0;
    while i < list.len()
        invariant
            i <= list.len(),
            item_views(out@) == leftover_removals(list@, i as nat),
        decreases list.len() - i,
    {
        let name: &String = &list[i].name;
        if contains(name.as_str(), "symbol_at_") || contains(name.as_str(), "quantity_at_") {
            let ghost before = out@;
            let item: Item = Item::silent(
                Action::RemoveMetric { name: name.clone() },
                false,
                Rule::Nothing,
                Fault::Ignore,
            );
            out.push(item);
            assert(item_views(out@) =~= item_views(before).push(item@));
        }
        i = i + 1;
    }
    out
}

/// The calls that are tried on a metric that could be added.
pub open spec fn metric_probes() -> Seq<ItemView> {
    let name = "coverage_test_metric"@;
    seq![
        probe(
            "Testing toggle_metric..."@,
            "toggle_metric"@,
            false,
            ActionView::ToggleMetric(name, false),
            false,
            Rule::Nothing,
        ),
        probe(
            "Testing query_events..."@,
            "query_events"@,
            false,
            ActionView::QueryEvents(name, 10),
            false,
            Rule::Nothing,
        ),
        probe(
            "Testing remove_metric..."@,
            "remove_metric"@,
            false,
            ActionView::RemoveMetric(name),
            false,
            Rule::Nothing,
        ),
    ]
}

fn probes_of_metric() -> (r: Vec<Item>)
    ensures
        item_views(r@) == metric_probes(),
{
    let name: String = "coverage_test_metric".to_owned();
    let r: Vec<Item> = vec![
        Item::probe(
            "Testing toggle_metric...",
            "toggle_metric",
            false,
            Action::ToggleMetric { name: name.clone(), enabled: false },
            false,
            Rule::Nothing,
        ),
        Item::probe(
            "Testing query_events...",
            "query_events",
            false,
            Action::QueryEvents { name: name.clone(), limit: 10 },
            false,
            Rule::Nothing,
        ),
        Item::probe(
            "Testing remove_metric...",
            "remove_metric",
            false,
            Action::RemoveMetric { name },
            false,
            Rule::Nothing,
        ),
    ];
    assert(item_views(r@) =~= metric_probes());
    r
}

// ---------------------------------------------------------------------------
// Values of several expressions
// ---------------------------------------------------------------------------

/// The reports on the values from position `i` on, up to the first empty one, and the error if
/// there is one.
pub open spec fn check_values(log: Seq<ReportView>, values: Seq<JsonView>, i: nat) -> (
    Seq<ReportView>,
    Option<Seq<char>>,
)
    decreases values.len() - i,
{
    if i >= values.len() {
        (log, None)
    } else {
        let text = value_json(values[i as int]);
        if text.len() == 0 {
            (
                log,
                Some(
                    "Expression value ["@ + decimal(i) + "] has empty valueJson: "@ + debug_json(
                        values[i as int],
                    ),
                ),
            )
        } else {
            check_values(
                log.push(
                    ReportView::Info(
                        "  Expression ["@ + decimal(i) + "]: valueJson='"@ + text + "'"@,
                    ),
                ),
                values,
                i + 1,
            )
        }
    }
}

fn report_values(log: &mut Log, values: &Vec<Json>) -> (r: Option<String>)
    ensures
        (final(log)@, opt_view(r)) == check_values(old(log)@, json_views(values@), 0),
{
    let ghost vs = json_views(values@);
    let mut i: usize = 0;
    while i < values.len()
        invariant
            i <= values.len(),
            vs == json_views(values@),
            check_values(log@, vs, i as nat) == check_values(old(log)@, vs, 0),
        decreases values.len() - i,
    {
        assert(vs[i as int] == values@[i as int]@);
        let text: String = value_json_text(&values[i]);
        if text.as_str().is_empty() {
            return Some(
                cat4(
                    "Expression value [",
                    num_usize(i).as_str(),
                    "] has empty valueJson: ",
                    format_json_debug(&values[i]).as_str(),
                ),
            );
        }
        log.info(
            cat5(
                "  Expression [",
                num_usize(i).as_str(),
                "]: valueJson='",
                text.as_str(),
                "'",
            ).as_str(),
        );
        i = i + 1;
    }
    None
}

/// Some value says which expression it belongs to.
pub open spec fn has_names(values: Seq<JsonView>) -> bool {
    exists|i: int| 0 <= i < values.len() && (#[trigger] values[i]).field("expression"@) is Some
}

fn has_names_exec(values: &Vec<Json>) -> (r: bool)
    ensures
        r == has_names(json_views(values@)),
{
    let ghost vs = json_views(values@);
    let mut i: usize = 0;
    while i < values.len()
        invariant
            i <= values.len(),
            vs == json_views(values@),
            forall|j: int| 0 <= j < i ==> (#[trigger] vs[j]).field("expression"@) is None,
        decreases values.len() - i,
    {
        assert(vs[i as int] == values@[i as int]@);
        if values[i].get("expression").is_some() {
            return true;
        }
        i = i + 1;
    }
    false
}

/// The first value from position `i` on that names another expression than the one asked for.
pub open spec fn name_mismatch(
    values: Seq<JsonView>,
    expressions: Seq<Seq<char>>,
    i: nat,
) -> Option<Seq<char>>
    decreases values.len() - i,
{
    if i >= values.len() || i >= expressions.len() {
        None
    } else {
        let actual = values[i as int].str_field_or("expression"@, ""@);
        if actual != expressions[i as int] {
            Some(
                "Expression ["@ + decimal(i) + "]: expected name '"@ + expressions[i as int]
                    + "', got '"@ + actual + "'"@,
            )
        } else {
            name_mismatch(values, expressions, i + 1)
        }
    }
}

fn find_name_mismatch(values: &Vec<Json>, expressions: &Vec<String>) -> (r: Option<String>)
    ensures
        opt_view(r) == name_mismatch(json_views(values@), views(expressions@), 0),
{
    let ghost vs = json_views(values@);
    let ghost es = views(expressions@);
    let mut i: usize = 0;
    while i < values.len() && i < expressions.len()
        invariant
            i <= values.len(),
            i <= expressions.len(),
            vs == json_views(values@),
            es == views(expressions@),
            name_mismatch(vs, es, i as nat) == name_mismatch(vs, es, 0),
        decreases values.len() - i,
    {
        assert(vs[i as int] == values@[i as int]@);
        assert(es[i as int] == expressions@[i as int]@);
        let actual: String = values[i].get_str_or("expression", "");
        if !same_text(actual.as_str(), expressions[i].as_str()) {
            return Some(
                cat7(
                    "Expression [",
                    num_usize(i).as_str(),
                    "]: expected name '",
                    expressions[i].as_str(),
                    "', got '",
                    actual.as_str(),
                    "'",
                ),
            );
        }
        i = i + 1;
    }
    None
}

/// The first event of a metric with several expressions must hold a value for each of them.
pub open spec fn judge_multi(
    log: Seq<ReportView>,
    s: ScriptState,
    events: Seq<EventInfo>,
    expressions: Seq<Seq<char>>,
) -> Judged {
    if events.len() == 0 {
        stop(log.push(failed("No events found"@)), s, "No events for multi-expression metric"@)
    } else {
        let values = json_views(events[0].values@);
        let l = log.push(
            ReportView::Info(
                "  First event: value='"@ + events[0].value@ + "', values count="@ + decimal(
                    values.len(),
                ) + ", values="@ + debug_json_list(values),
            ),
        );
        if values.len() < expressions.len() {
            let msg = "Event has "@ + decimal(values.len()) + " values but expected at least "@
                + decimal(expressions.len()) + " (one per expression: ["@ + joined(
                expressions,
                ", "@,
            ) + "]). values="@ + debug_json_list(values);
            stop(l.push(failed(msg)), s, msg)
        } else {
            let (v, empty) = check_values(l, values, 0);
            match empty {
                Some(msg) => stop(v.push(failed(msg)), s, msg),
                None => {
                    let mismatch = name_mismatch(values, expressions, 0);
                    if has_names(values) && mismatch is Some {
                        stop(v.push(failed(mismatch->0)), s, mismatch->0)
                    } else {
                        let n = if has_names(values) {
                            v.push(
                                ReportView::Info("  Expression names verified: all match expected"@),
                            )
                        } else {
                            v
                        };
                        go(
                            n.push(
                                success(
                                    decimal(events.len()) + " events, each with "@ + decimal(
                                        values.len(),
                                    ) + " expression values verified"@,
                                ),
                            ),
                            s,
                            OutcomeView::Unit,
                        )
                    }
                },
            }
        }
    }
}

// ---------------------------------------------------------------------------
// Rules
// ---------------------------------------------------------------------------

/// Safe or unsafe, for people.
pub open spec fn safety_text(safe: bool) -> Seq<char> {
    if safe {
        "safe"@
    } else {
        "unsafe"@
    }
}

/// Safe or unsafe, for people.
pub fn safety_str(safe: bool) -> (r: &'static str)
    ensures
        r@ == safety_text(safe),
{
    if safe {
        "safe"
    } else {
        "unsafe"
    }
}

/// The error of a group that enabled another number of metrics than expected.
pub open spec fn enable_error(count: usize, expected: usize) -> Seq<char> {
    if count == 0 {
        "enable_group returned 0 metrics - expected "@ + decimal(expected as nat)
            + " to be enabled. This indicates group name mismatch or metrics not saved with correct group."@
    } else {
        "enable_group returned "@ + decimal(count as nat) + " metrics - expected "@ + decimal(
            expected as nat,
        ) + " to be enabled"@
    }
}

/// The connection is remembered.
pub open spec fn with_connection(s: ScriptState, id: Seq<char>) -> ScriptState {
    ScriptState { connection: Some(id), ..s }
}

/// The number is remembered.
pub open spec fn with_count(s: ScriptState, count: usize) -> ScriptState {
    ScriptState { count, ..s }
}

/// The items are put in front of the rest.
pub open spec fn with_items(s: ScriptState, items: Seq<ItemView>) -> ScriptState {
    ScriptState { todo: items + s.todo, ..s }
}

/// How a rule reports and judges an answer that is no error.
pub open spec fn on_ok(rule: OkRuleView, event: Event, s: ScriptState, log: Seq<ReportView>) -> Judged {
    let unit = OutcomeView::Unit;
    match (rule, event) {
        (Rule::Healthy, Event::Health(Ok(healthy))) => if healthy {
            go(
                log.push(response("200 OK"@, "healthy"@)).push(success("API is healthy"@)),
                s,
                unit,
            )
        } else {
            stop(
                log.push(response("503"@, "unhealthy"@)).push(failed("API is not healthy"@)),
                s,
                "API is not healthy"@,
            )
        },
        (Rule::StatusShown, Event::Status(Ok(r))) => go(
            log.push(
                response(
                    "OK"@,
                    "mode="@ + r.data.mode@ + ", uptime="@ + decimal(r.data.uptime_seconds as nat)
                        + "s, connections="@ + decimal(r.data.active_connections as nat)
                        + ", metrics="@ + decimal(r.data.total_metrics as nat),
                ),
            ).push(success("Status retrieved"@)),
            s,
            unit,
        ),
        (Rule::TextShown { success: done }, Event::Text(Ok(r))) => go(
            log.push(response("OK"@, r.data@)).push(success(done)),
            s,
            unit,
        ),
        (Rule::TextStatus { success: done }, Event::Text(Ok(r))) => go(
            log.push(response("OK"@, "status="@ + r.data@)).push(success(done)),
            s,
            unit,
        ),
        (Rule::Connected, Event::Connection(Ok(r))) => {
            let id = r.data.connection_id@;
            go(
                log.push(
                    response("OK"@, "connection_id="@ + id + ", status="@ + r.data.status@),
                ).push(success("Connected: "@ + id)),
                with_connection(s, id),
                OutcomeView::Text(id),
            )
        },
        (Rule::ConnectedShort, Event::Connection(Ok(r))) => {
            let id = r.data.connection_id@;
            go(
                log.push(response("OK"@, "id="@ + id)).push(success("Connected: "@ + id)),
                with_connection(s, id),
                OutcomeView::Text(id),
            )
        },
        (Rule::ConnectedBare, Event::Connection(Ok(r))) => {
            let id = r.data.connection_id@;
            go(log.push(success("id="@ + id)), with_connection(s, id), OutcomeView::Text(id))
        },
        (Rule::ConnectedProbe, Event::Connection(Ok(r))) => {
            let id = r.data.connection_id@;
            go(
                log.push(ReportView::Info("  OK create_connection: "@ + id)),
                with_connection(s, id),
                OutcomeView::Text(id),
            )
        },
        (Rule::ConnectionsListed, Event::Connections(Ok(r))) => {
            let n = r.data@.len() as usize;
            go(
                log_connections(log, r.data@, r.data@.len()).push(
                    success(decimal(n as nat) + " connection(s)"@),
                ),
                with_count(s, n),
                OutcomeView::Count(n),
            )
        },
        (Rule::Done { success: done }, _) => go(log.push(success(done)), s, unit),
        (Rule::Fixed { status, body, success: done }, _) => go(
            log.push(response(status, body)).push(success(done)),
            s,
            unit,
        ),
        (Rule::MetricAdded { name }, Event::Text(Ok(r))) => go(
            log.push(response("OK"@, "metric_id="@ + r.data@)).push(
                success("Metric '"@ + name + "' added"@),
            ),
            s,
            OutcomeView::Text(r.data@),
        ),
        (Rule::MetricsListed, Event::Metrics(Ok(r))) => {
            let n = r.data@.len() as usize;
            go(
                log_metrics(log, r.data@, r.data@.len()).push(
                    success(decimal(n as nat) + " metric(s)"@),
                ),
                with_count(s, n),
                OutcomeView::Count(n),
            )
        },
        (Rule::EventsListed, Event::Events(Ok(r))) => {
            let n = r.data@.len() as usize;
            go(
                log_events(log, r.data@, r.data@.len()).push(
                    success(decimal(n as nat) + " event(s) found"@),
                ),
                with_count(s, n),
                OutcomeView::Count(n),
            )
        },
        (Rule::Validated { expect_safe }, Event::Validation(Ok(r))) => {
            let is_safe = r.data.is_safe;
            let l = log.push(
                response(
                    "OK"@,
                    "is_safe="@ + bool_text(is_safe) + ", issues=["@ + joined(
                        views(r.data.issues@),
                        ", "@,
                    ) + "]"@,
                ),
            );
            if is_safe == expect_safe {
                go(
                    l.push(success("Expression is "@ + safety_text(is_safe))),
                    s,
                    OutcomeView::Flag(is_safe),
                )
            } else {
                stop(
                    l.push(
                        failed(
                            "Expected "@ + bool_text(expect_safe) + ", got "@ + bool_text(is_safe),
                        ),
                    ),
                    s,
                    "Expression validation mismatch: expected "@ + bool_text(expect_safe)
                        + ", got "@ + bool_text(is_safe),
                )
            }
        },
        (Rule::MetricShown, Event::Metric(Ok(r))) => go(
            log.push(
                response(
                    "OK"@,
                    "name="@ + r.data.name@ + ", enabled="@ + bool_text(r.data.enabled),
                ),
            ).push(success("Got metric"@)),
            s,
            unit,
        ),
        (Rule::GroupsListed, Event::Groups(Ok(r))) => go(
            log_groups(
                log.push(response("OK"@, decimal(r.data@.len()) + " groups"@)),
                r.data@,
                r.data@.len(),
            ).push(success("Listed groups"@)),
            s,
            unit,
        ),
        (Rule::CountShown { verb, success: done }, Event::Count(Ok(r))) => go(
            log.push(response("OK"@, decimal(r.data as nat) + " metrics "@ + verb)).push(
                success(done),
            ),
            s,
            unit,
        ),
        (Rule::CharsShown { success: done }, Event::Text(Ok(r))) => go(
            log.push(response("OK"@, decimal(byte_len(r.data@) as nat) + " chars"@)).push(
                success(done),
            ),
            s,
            unit,
        ),
        (Rule::ValidShown, Event::Valid(Ok(r))) => go(
            log.push(response("OK"@, "is_valid: "@ + bool_text(r.data))).push(
                success("Validated configuration"@),
            ),
            s,
            unit,
        ),
        (Rule::EventsCounted { success: done }, Event::Events(Ok(r))) => go(
            log.push(response("OK"@, decimal(r.data@.len()) + " events"@)).push(success(done)),
            s,
            unit,
        ),
        (Rule::ConnectionShown, Event::Connection(Ok(r))) => go(
            log.push(response("OK"@, "status="@ + r.data.status@)).push(
                success("Got connection details"@),
            ),
            s,
            unit,
        ),
        (Rule::UsageShown, Event::Usage(Ok(r))) => go(log_usage(log, r.data), s, unit),
        (Rule::DisabledAdded { name }, Event::Text(Ok(r))) => go(
            log.push(response("OK"@, "id="@ + r.data@ + " (disabled)"@)).push(
                success("Added '"@ + name + "' as disabled"@),
            ),
            s,
            unit,
        ),
        (Rule::GroupChecked { group, expected }, Event::Groups(Ok(r))) => {
            let k = group_index(r.data@, group);
            let l = if k < r.data@.len() {
                let g = r.data@[k as int];
                let shown = log.push(
                    response(
                        "OK"@,
                        decimal(g.metric_count as nat) + " metrics, "@ + decimal(
                            g.enabled_count as nat,
                        ) + " enabled"@,
                    ),
                );
                if g.enabled_count > 0 {
                    shown.push(
                        ReportView::Warn("Some metrics already enabled - test may be invalid"@),
                    )
                } else {
                    shown
                }
            } else {
                log.push(response("NOT_FOUND"@, "Group not in list"@))
            };
            go(
                l.push(
                    success(decimal(expected as nat) + " disabled metrics verified in group"@),
                ),
                s,
                unit,
            )
        },
        (Rule::GroupEnabled { expected }, Event::Count(Ok(r))) => {
            let l = log.push(response("OK"@, decimal(r.data as nat) + " metrics enabled"@));
            if r.data != expected {
                let msg = enable_error(r.data, expected);
                Judged {
                    log: l.push(failed(msg)),
                    state: s,
                    judgement: Judgement::FailAfterClose(plain_error(msg)),
                }
            } else {
                go(l.push(success(decimal(r.data as nat) + " metrics enabled"@)), s, unit)
            }
        },
        (Rule::GroupVerified { group }, Event::Groups(Ok(r))) => {
            let k = group_index(r.data@, group);
            go(
                if k < r.data@.len() {
                    let g = r.data@[k as int];
                    let enabled = decimal(g.enabled_count as nat);
                    let all = decimal(g.metric_count as nat);
                    log.push(
                        response("OK"@, all + " metrics, "@ + enabled + " enabled"@),
                    ).push(success(enabled + "/"@ + all + " enabled"@))
                } else {
                    log.push(success("Group not in list (may be normal)"@))
                },
                s,
                unit,
            )
        },
        (Rule::GroupDisabled, Event::Count(Ok(r))) => {
            let text = decimal(r.data as nat) + " metrics disabled"@;
            go(log.push(response("OK"@, text)).push(success(text)), s, unit)
        },
        (Rule::MultiListed { metric }, Event::Metrics(Ok(r))) => {
            let k = metric_index(r.data@, metric);
            if k < r.data@.len() {
                let exprs = r.data@[k as int].expressions@;
                let shown = joined(views(exprs), ", "@);
                let l = log.push(response("OK"@, "expressions=["@ + shown + "]"@));
                if exprs.len() == 3 {
                    go(
                        l.push(
                            success(
                                "Metric has "@ + decimal(exprs.len())
                                    + " expressions as expected"@,
                            ),
                        ),
                        s,
                        unit,
                    )
                } else {
                    let msg = "Expected 3 expressions, got "@ + decimal(exprs.len()) + ": ["@
                        + shown + "]"@;
                    stop(l.push(failed(msg)), s, msg)
                }
            } else {
                stop(
                    log.push(failed("Multi-expression metric not found in list"@)),
                    s,
                    "Multi-expression metric not found"@,
                )
            }
        },
        (Rule::MultiVerified { expressions }, Event::Events(Ok(r))) => judge_multi(
            log,
            s,
            r.data@,
            expressions,
        ),
        (Rule::ObservedLine, Event::Observed(Ok(r))) => go(
            log.push(
                response(
                    "OK"@,
                    "metric="@ + r.data.metric_name@ + ", line="@ + decimal(r.data.line as nat)
                        + ", line_source="@ + r.data.line_source@,
                ),
            ).push(
                success(
                    "Observing '"@ + r.data.expression@ + "' at "@ + r.data.file@ + ":"@ + decimal(
                        r.data.line as nat,
                    ),
                ),
            ).push(
                ReportView::Info(
                    "  Metric ID: "@ + signed_decimal(r.data.metric_id as int) + ", Connection: "@
                        + r.data.connection_id@,
                ),
            ),
            s,
            unit,
        ),
        (Rule::ObservedFound, Event::Observed(Ok(r))) => {
            let line = decimal(r.data.line as nat);
            let l = log.push(
                response(
                    "OK"@,
                    "metric="@ + r.data.metric_name@ + ", line="@ + line
                        + " (auto), line_source="@ + r.data.line_source@,
                ),
            ).push(
                success("Auto-found line "@ + line + " for '"@ + r.data.expression@ + "'"@),
            );
            go(
                if r.data.alternatives@.len() > 0 {
                    log_alternatives(
                        l.push(ReportView::Info("  Alternatives found:"@)),
                        r.data.alternatives@,
                        r.data.alternatives@.len(),
                    )
                } else {
                    l
                },
                s,
                unit,
            )
        },
        (Rule::ObservedIntrospection, Event::Observed(Ok(r))) => go(
            log_warnings(
                log.push(
                    response("OK"@, "metric="@ + r.data.metric_name@ + ", group=observe_test"@),
                ).push(
                    success("Observing '"@ + r.data.expression@ + "' with introspection"@),
                ),
                r.data.warnings@,
                r.data.warnings@.len(),
            ),
            s,
            unit,
        ),
        (Rule::ObservedSelected, Event::Observed(Ok(r))) => {
            let id = r.data.connection_id@;
            let expected = connection_or_unknown(s.connection);
            let l = log.push(
                response(
                    "OK"@,
                    "metric="@ + r.data.metric_name@ + ", auto_selected_connection="@ + id,
                ),
            );
            go(
                if id == expected {
                    l.push(success("Correctly auto-selected connection '"@ + id + "'"@))
                } else {
                    l.push(
                        ReportView::Warn(
                            "Selected connection '"@ + id + "' differs from expected '"@ + expected
                                + "'"@,
                        ),
                    )
                },
                s,
                unit,
            )
        },
        (Rule::ObservedListed, Event::Metrics(Ok(r))) => go(
            log,
            with_items(
                ScriptState { total: 0, ..s },
                observed_queries(r.data@, r.data@.len()),
            ),
            unit,
        ),
        (Rule::ObservedCounted { name }, Event::Events(Ok(r))) => {
            let n = r.data@.len() as usize;
            if n > 0 {
                go(
                    log.push(
                        ReportView::Info(
                            "  '"@ + name + "': "@ + decimal(n as nat) + " events captured"@,
                        ),
                    ),
                    ScriptState { total: sat_sum(s.total, n), ..s },
                    unit,
                )
            } else {
                go(log, s, unit)
            }
        },
        (Rule::LeftoversListed, Event::Metrics(Ok(r))) => go(
            log,
            with_items(s, leftover_removals(r.data@, r.data@.len())),
            unit,
        ),
        (Rule::ProbeMetricAdded, Event::Text(Ok(r))) => go(
            log.push(ReportView::Info("  OK add_metric: id="@ + r.data@)),
            with_items(s, metric_probes()),
            unit,
        ),
        (Rule::ErrorExpected, _) => stop(
            log.push(failed("Expected error but got success"@)),
            s,
            "Expected error for nonexistent connection"@,
        ),
        (Rule::EmptyValidated, Event::Validation(Ok(r))) => go(
            (if r.data.is_safe {
                log.push(response("SAFE"@, "Empty expression allowed"@))
            } else {
                log.push(response("UNSAFE"@, "Empty expression marked unsafe"@))
            }).push(success("Handled empty expression"@)),
            s,
            unit,
        ),
        (Rule::ConfigJudged, Event::Valid(Ok(r))) => go(
            (if !r.data {
                log.push(response("INVALID"@, "Correctly identified as invalid"@))
            } else {
                log.push(response("VALID"@, "Unexpectedly valid"@))
            }).push(success("Validation completed"@)),
            s,
            unit,
        ),
        (Rule::BurstHealthy, Event::Burst { succeeded }) => {
            let bad = if succeeded >= 10 {
                0
            } else {
                10 - succeeded
            };
            let l = log.push(
                response(
                    "OK"@,
                    decimal(succeeded as nat) + " succeeded, "@ + decimal(bad as nat) + " failed"@,
                ),
            );
            if bad > 2 {
                stop(
                    l.push(failed("Too many failures: "@ + decimal(bad as nat))),
                    s,
                    "Concurrent health checks had "@ + decimal(bad as nat) + " failures"@,
                )
            } else {
                go(
                    l.push(
                        success(decimal(succeeded as nat) + "/10 health checks succeeded"@),
                    ),
                    s,
                    unit,
                )
            }
        },
        (Rule::BurstShown { shown, completed }, Event::Burst { succeeded }) => go(
            log.push(response("OK"@, decimal(succeeded as nat) + shown)).push(
                success(decimal(succeeded as nat) + completed),
            ),
            s,
            unit,
        ),
        _ => go(log, s, unit),
    }
}

/// The connection, or `unknown`.
pub open spec fn connection_or_unknown(connection: Option<Seq<char>>) -> Seq<char> {
    match connection {
        Some(c) => c,
        None => "unknown"@,
    }
}

/// The texts by which an error says that there is no configuration.
pub open spec fn says_unconfigured(text: Seq<char>) -> bool {
    has_text(text, "not found"@) || has_text(text, "No config"@) || has_text(
        text,
        "not configured"@,
    )
}

/// The error, or its raw response, says that there is no configuration.
pub open spec fn is_unconfigured(e: ApiErrorView) -> bool {
    says_unconfigured(e.message) || (e.raw_response matches Some(raw) && says_unconfigured(raw))
}

/// The error says that the call is not offered.
pub open spec fn is_unsupported(e: ApiErrorView) -> bool {
    has_text(e.message, "unimplemented"@) || has_text(e.message, "not supported"@)
}

/// How a rule reports and judges an error.
pub open spec fn on_err(rule: ErrRuleView, e: ApiErrorView, s: ScriptState, log: Seq<ReportView>) -> Judged {
    let unit = OutcomeView::Unit;
    match rule {
        Fault::FailStep => Judged {
            log: log.push(failed(e.message)),
            state: s,
            judgement: Judgement::Fail(e),
        },
        Fault::Propagate => Judged { log, state: s, judgement: Judgement::Fail(e) },
        Fault::Ignore => go(log, s, unit),
        Fault::Accept { status, success: done } => go(
            log.push(response(status, e.message)).push(success(done)),
            s,
            unit,
        ),
        Fault::AcceptUnsupported => if is_unsupported(e) {
            go(
                log.push(response("UNIMPLEMENTED"@, e.message)).push(
                    success("Endpoint exists (disabled for safety)"@),
                ),
                s,
                unit,
            )
        } else {
            Judged { log, state: s, judgement: Judgement::Fail(e) }
        },
        Fault::AcceptUnconfigured => if is_unconfigured(e) {
            go(
                log.push(response("NOT_CONFIGURED"@, e.message)).push(
                    success("Endpoint exists (no config file)"@),
                ),
                s,
                unit,
            )
        } else {
            Judged { log, state: s, judgement: Judgement::Fail(e) }
        },
        Fault::FailAndClose => Judged {
            log: log.push(failed(e.message)),
            state: s,
            judgement: Judgement::FailAfterClose(e),
        },
        Fault::FailContinue => go(log.push(failed(e.message)), s, unit),
        Fault::GroupChecked { expected } => go(
            log.push(response("ERROR"@, e.message)).push(
                success(decimal(expected as nat) + " disabled metrics verified in group"@),
            ),
            s,
            unit,
        ),
        Fault::AutoFindFailed => go(
            log.push(response("WARN"@, e.message)).push(
                ReportView::Warn("Auto-find failed: "@ + e.message),
            ),
            s,
            unit,
        ),
        Fault::Probe { label } => go(
            log,
            ScriptState { failures: s.failures.push(label + ": "@ + e.message), ..s },
            unit,
        ),
    }
}

// ---------------------------------------------------------------------------
// The machine, as a function
// ---------------------------------------------------------------------------

/// The action with the script's connection in place of its own.
pub open spec fn bind_action(action: ActionView, connection: Seq<char>) -> ActionView {
    match action {
        ActionView::CloseConnection(_) => ActionView::CloseConnection(connection),
        ActionView::GetConnection(_) => ActionView::GetConnection(connection),
        ActionView::AddMetric(r) => ActionView::AddMetric(
            AddMetricRequestView { connection_id: connection, ..r },
        ),
        ActionView::Observe(r) => ActionView::Observe(
            ObserveRequestView { connection_id: Some(connection), ..r },
        ),
        _ => action,
    }
}

/// The reports in front of a call.
pub open spec fn log_call(log: Seq<ReportView>, c: CallView, connection: Seq<char>) -> Seq<ReportView> {
    let a = match c.info {
        Some(info) => log.push(ReportView::Info(info)),
        None => log,
    };
    let b = match c.step {
        Some((name, text)) => a.push(start(name, render(text, connection))),
        None => a,
    };
    match c.request {
        Some((method, Some(text))) => b.push(request(method, render(text, connection))),
        Some((method, None)) => b.push(ReportView::Request(method, None)),
        None => b,
    }
}

/// The script works through its items up to the next one that asks for something.
pub open spec fn advance(s: ScriptState, log: Seq<ReportView>) -> ScriptTurn
    decreases s.todo.len(),
{
    if s.todo.len() == 0 {
        ScriptTurn {
            log,
            state: ScriptState { waiting: WaitingView::Nothing, ..s },
            next: ScriptNextView::Finish(Ok(s.value)),
        }
    } else {
        let rest = ScriptState { todo: s.todo.drop_first(), ..s };
        let conn = connection_or_unknown(s.connection);
        match s.todo[0] {
            ItemView::Section(title) => advance(rest, log.push(ReportView::Section(title))),
            ItemView::Info(message) => advance(rest, log.push(ReportView::Info(message))),
            ItemView::InfoCount(before, after) => advance(
                rest,
                log.push(ReportView::Info(before + decimal(s.count as nat) + after)),
            ),
            ItemView::Step(name, description) => advance(rest, log.push(start(name, description))),
            ItemView::Pause(millis) => ScriptTurn {
                log,
                state: ScriptState { waiting: WaitingView::Pause, ..rest },
                next: ScriptNextView::Ask(ActionView::Pause(millis)),
            },
            ItemView::Call(c) => if c.needs_connection && s.connection is None {
                advance(rest, log)
            } else {
                let action = if c.bind {
                    bind_action(c.action, conn)
                } else {
                    c.action
                };
                ScriptTurn {
                    log: log_call(log, c, conn),
                    state: ScriptState {
                        waiting: WaitingView::Call(action.answer(), c.ok, c.err),
                        ..rest
                    },
                    next: ScriptNextView::Ask(action),
                }
            },
            ItemView::Wait(w) => ScriptTurn {
                log: log.push(
                    start(
                        "Wait for Events"@,
                        "Wait for "@ + decimal(w.min_events as nat) + " events on '"@ + w.metric
                            + "' (timeout: "@ + decimal(w.timeout_secs as nat) + "s)"@,
                    ),
                ),
                state: ScriptState { waiting: WaitingView::WaitTimer(w), ..rest },
                next: ScriptNextView::Ask(ActionView::CheckTimer(true, w.timeout_secs)),
            },
            ItemView::Total => advance(
                rest,
                if s.total > 0 {
                    log.push(success(decimal(s.total as nat) + " total events captured"@))
                } else {
                    log.push(ReportView::Warn("No events captured yet (may need more time)"@))
                },
            ),
            ItemView::Verdict => if s.failures.len() == 0 {
                advance(rest, log.push(ReportView::Info("All endpoints passed!"@)))
            } else {
                ScriptTurn {
                    log: log_failures(
                        log.push(
                            ReportView::Error(
                                decimal(s.failures.len()) + " endpoint(s) failed:"@,
                            ),
                        ),
                        s.failures,
                        s.failures.len(),
                    ),
                    state: ScriptState { waiting: WaitingView::Nothing, ..rest },
                    next: ScriptNextView::Finish(
                        Err(
                            plain_error(
                                "Comprehensive coverage failed: "@ + decimal(s.failures.len())
                                    + " endpoint(s) not working"@,
                            ),
                        ),
                    ),
                }
            },
        }
    }
}

/// How the script goes on after a judgement.
pub open spec fn after(j: Judged) -> ScriptTurn {
    match j.judgement {
        Judgement::Go => advance(j.state, j.log),
        Judgement::Fail(e) => ScriptTurn {
            log: j.log,
            state: ScriptState { waiting: WaitingView::Nothing, ..j.state },
            next: ScriptNextView::Finish(Err(e)),
        },
        Judgement::FailAfterClose(e) => ScriptTurn {
            log: j.log,
            state: ScriptState { waiting: WaitingView::Closing(e), ..j.state },
            next: ScriptNextView::Ask(
                ActionView::CloseConnection(connection_or_unknown(j.state.connection)),
            ),
        },
    }
}

/// How a script goes on after an event.
pub open spec fn on_event(state: ScriptState, event: Event) -> ScriptTurn {
    let log = Seq::<ReportView>::empty();
    let s = ScriptState { waiting: WaitingView::Nothing, ..state };
    match state.waiting {
        WaitingView::Call(_, ok, err) => match event.error() {
            Some(e) => after(on_err(err, e@, s, log)),
            None => after(on_ok(ok, event, s, log)),
        },
        WaitingView::WaitTimer(w) => match event {
            Event::Timer { expired: true } => {
                let n = decimal(w.min_events as nat);
                ScriptTurn {
                    log: log.push(failed("Timeout waiting for "@ + n + " events"@)),
                    state: ScriptState { waiting: WaitingView::Nothing, ..s },
                    next: ScriptNextView::Finish(
                        Err(
                            plain_error(
                                "Timeout waiting for "@ + n + " events on '"@ + w.metric + "'"@,
                            ),
                        ),
                    ),
                }
            },
            _ => ScriptTurn {
                log,
                state: ScriptState { waiting: WaitingView::WaitQuery(w), ..s },
                next: ScriptNextView::Ask(ActionView::QueryEvents(w.metric, 100)),
            },
        },
        WaitingView::WaitQuery(w) => {
            let again = ScriptState { waiting: WaitingView::WaitPause(w), ..s };
            match event {
                Event::Events(Ok(r)) => {
                    let n = r.data@.len() as usize;
                    let l = log.push(
                        ReportView::Progress("Found "@ + decimal(n as nat) + " events..."@),
                    );
                    if n >= w.min_events {
                        advance(
                            ScriptState { count: n, value: OutcomeView::Count(n), ..s },
                            l.push(success(decimal(n as nat) + " events captured"@)),
                        )
                    } else {
                        ScriptTurn {
                            log: l,
                            state: again,
                            next: ScriptNextView::Ask(ActionView::Pause(1000)),
                        }
                    }
                },
                Event::Events(Err(e)) => ScriptTurn {
                    log: log.push(ReportView::Warn("Query failed: "@ + e.message@)),
                    state: again,
                    next: ScriptNextView::Ask(ActionView::Pause(1000)),
                },
                _ => arbitrary(),
            }
        },
        WaitingView::WaitPause(w) => ScriptTurn {
            log,
            state: ScriptState { waiting: WaitingView::WaitTimer(w), ..s },
            next: ScriptNextView::Ask(ActionView::CheckTimer(false, w.timeout_secs)),
        },
        WaitingView::Closing(e) => ScriptTurn {
            log,
            state: ScriptState { waiting: WaitingView::Nothing, ..s },
            next: ScriptNextView::Finish(Err(e)),
        },
        WaitingView::Pause => advance(s, log),
        WaitingView::Nothing => arbitrary(),
    }
}

/// The state of a script before it has done anything.
pub open spec fn fresh(items: Seq<ItemView>) -> ScriptState {
    ScriptState {
        todo: items,
        waiting: WaitingView::Nothing,
        connection: None,
        count: 0,
        total: 0,
        failures: Seq::empty(),
        value: OutcomeView::Unit,
    }
}

// ---------------------------------------------------------------------------
// The machine, executed
// ---------------------------------------------------------------------------

/// How a rule has judged an answer.
enum Verdict {
    Go,
    Fail(ApiError),
    FailAfterClose(ApiError),
}

impl Verdict {
    spec fn judgement(&self) -> Judgement {
        match self {
            Verdict::Go => Judgement::Go,
            Verdict::Fail(e) => Judgement::Fail(e@),
            Verdict::FailAfterClose(e) => Judgement::FailAfterClose(e@),
        }
    }
}

/// A script, its reports and a finding are those that a rule prescribes.
spec fn judged_is(script: Script, log: Seq<ReportView>, v: Verdict, j: Judged) -> bool {
    &&& script@ == j.state
    &&& log == j.log
    &&& v.judgement() == j.judgement
}

/// What a script reports and how it goes on.
#[derive(Debug)]
pub struct ScriptStep {
    pub log: Log,
    pub next: ScriptNext,
}

/// A script, its reports and its continuation are those of a turn.
pub open spec fn turn_is(
    script: Script,
    log: Seq<ReportView>,
    next: ScriptNext,
    turn: ScriptTurn,
) -> bool {
    &&& script@ == turn.state
    &&& log == turn.log
    &&& next@ == turn.next
}

fn kind_of(action: &Action) -> (r: EventKind)
    ensures
        r == action@.answer(),
{
    match action {
        Action::Health => EventKind::Health,
        Action::GetStatus => EventKind::Status,
        Action::Wake => EventKind::Text,
        Action::Sleep => EventKind::Text,
        Action::CreateConnection { .. } => EventKind::Connection,
        Action::CloseConnection { .. } => EventKind::Done,
        Action::GetConnection { .. } => EventKind::Connection,
        Action::ListConnections => EventKind::Connections,
        Action::AddMetric { .. } => EventKind::Text,
        Action::Observe { .. } => EventKind::Observed,
        Action::EnableFromDiff { .. } => EventKind::FromDiff,
        Action::RemoveMetric { .. } => EventKind::Done,
        Action::ToggleMetric { .. } => EventKind::Done,
        Action::GetMetric { .. } => EventKind::Metric,
        Action::ListMetrics => EventKind::Metrics,
        Action::QueryEvents { .. } => EventKind::Events,
        Action::EnableGroup { .. } => EventKind::Count,
        Action::DisableGroup { .. } => EventKind::Count,
        Action::ListGroups => EventKind::Groups,
        Action::ValidateExpression { .. } => EventKind::Validation,
        Action::InspectFile { .. } => EventKind::Text,
        Action::GetConfig => EventKind::Text,
        Action::UpdateConfig { .. } => EventKind::Done,
        Action::ValidateConfig { .. } => EventKind::Valid,
        Action::ReloadConfig => EventKind::Done,
        Action::QuerySystemEvents { .. } => EventKind::SystemEvents,
        Action::AcknowledgeSystemEvents { .. } => EventKind::Acknowledged,
        Action::GetMcpUsage => EventKind::Usage,
        Action::Pause { .. } => EventKind::Paused,
        Action::CheckTimer { .. } => EventKind::Timer,
        Action::RestartDebugger => EventKind::Restarted,
        Action::Burst { .. } => EventKind::Burst,
    }
}

fn bind_action_exec(action: Action, connection: &str) -> (r: Action)
    ensures
        r@ == bind_action(action@, connection@),
{
    match action {
        Action::CloseConnection { .. } => Action::CloseConnection { id: connection.to_owned() },
        Action::GetConnection { .. } => Action::GetConnection { id: connection.to_owned() },
        Action::AddMetric { request } => {
            let mut bound = request;
            bound.connection_id = connection.to_owned();
            Action::AddMetric { request: bound }
        },
        Action::Observe { request } => {
            let mut bound = request;
            bound.connection_id = Some(connection.to_owned());
            Action::Observe { request: bound }
        },
        other => other,
    }
}

fn says_unconfigured_exec(text: &str) -> (r: bool)
    ensures
        r == says_unconfigured(text@),
{
    contains(text, "not found") || contains(text, "No config") || contains(text, "not configured")
}

fn is_unconfigured_exec(e: &ApiError) -> (r: bool)
    ensures
        r == is_unconfigured(e@),
{
    says_unconfigured_exec(e.message.as_str()) || match &e.raw_response {
        Some(raw) => says_unconfigured_exec(raw.as_str()),
        None => false,
    }
}

fn is_unsupported_exec(e: &ApiError) -> (r: bool)
    ensures
        r == is_unsupported(e@),
{
    contains(e.message.as_str(), "unimplemented") || contains(e.message.as_str(), "not supported")
}

impl Script {
    fn go(&mut self, value: Outcome) -> (v: Verdict)
        ensures
            final(self)@ == (ScriptState { value: value@, ..old(self)@ }),
            v.judgement() == Judgement::Go,
    {
        self.value = value;
        Verdict::Go
    }

    fn stop(message: String) -> (v: Verdict)
        ensures
            v.judgement() == Judgement::Fail(plain_error(message@)),
    {
        Verdict::Fail(ApiError::new(message))
    }

    fn put_items(&mut self, items: Vec<Item>)
        ensures
            final(self)@ == with_items(old(self)@, item_views(items@)),
    {
        let mut all: Vec<Item> = items;
        let ghost first = all@;
        let ghost rest = self.todo@;
        all.append(&mut self.todo);
        self.todo = all;
        assert(item_views(self.todo@) =~= item_views(first) + item_views(rest));
    }

    fn put_connection(&mut self, id: &str)
        ensures
            final(self)@ == with_connection(old(self)@, id@),
    {
        self.connection = Some(id.to_owned());
    }

    fn connection_text(&self) -> (r: String)
        ensures
            r@ == connection_or_unknown(self@.connection),
    {
        match &self.connection {
            Some(c) => c.clone(),
            None => "unknown".to_owned(),
        }
    }

    fn on_connected(&mut self, rule: &OkRule, c: &ConnectionInfo, log: &mut Log) -> (v: Verdict)
        requires
            rule is Connected || rule is ConnectedShort || rule is ConnectedBare || rule
                is ConnectedProbe,
        ensures
            forall|event: Event|
                event matches Event::Connection(Ok(r)) && r.data == *c ==> judged_is(
                    *final(self),
                    final(log)@,
                    v,
                    #[trigger] on_ok(rule_view(*rule), event, old(self)@, old(log)@),
                ),
    {
        let id: &str = c.connection_id.as_str();
        match rule {
            Rule::Connected => {
                log.response(
                    "OK",
                    cat4("connection_id=", id, ", status=", c.status.as_str()).as_str(),
                );
                log.success(cat2("Connected: ", id).as_str());
            },
            Rule::ConnectedShort => {
                log.response("OK", cat2("id=", id).as_str());
                log.success(cat2("Connected: ", id).as_str());
            },
            Rule::ConnectedBare => log.success(cat2("id=", id).as_str()),
            _ => log.info(cat2("  OK create_connection: ", id).as_str()),
        }
        self.put_connection(id);
        self.go(Outcome::Text(id.to_owned()))
    }

    fn on_multi(&mut self, log: &mut Log, events: &Vec<EventInfo>, expressions: &Vec<String>) -> (v:
        Verdict)
        ensures
            judged_is(
                *final(self),
                final(log)@,
                v,
                judge_multi(old(log)@, old(self)@, events@, views(expressions@)),
            ),
    {
        if events.len() == 0 {
            log.failed("No events found");
            return Self::stop("No events for multi-expression metric".to_owned());
        }
        let first: &EventInfo = &events[0];
        let values: &Vec<Json> = &first.values;
        let shown: String = format_json_list_debug(values);
        log.info(
            cat6(
                "  First event: value='",
                first.value.as_str(),
                "', values count=",
                num_usize(values.len()).as_str(),
                ", values=",
                shown.as_str(),
            ).as_str(),
        );
        if values.len() < expressions.len() {
            let msg: String = cat8(
                "Event has ",
                num_usize(values.len()).as_str(),
                " values but expected at least ",
                num_usize(expressions.len()).as_str(),
                " (one per expression: [",
                join(expressions, ", ").as_str(),
                "]). values=",
                shown.as_str(),
            );
            log.failed(msg.as_str());
            return Self::stop(msg);
        }
        match report_values(log, values) {
            Some(msg) => {
                log.failed(msg.as_str());
                return Self::stop(msg);
            },
            None => {},
        }
        if has_names_exec(values) {
            match find_name_mismatch(values, expressions) {
                Some(msg) => {
                    log.failed(msg.as_str());
                    return Self::stop(msg);
                },
                None => {},
            }
            log.info("  Expression names verified: all match expected");
        }
        log.success(
            cat4(
                num_usize(events.len()).as_str(),
                " events, each with ",
                num_usize(values.len()).as_str(),
                " expression values verified",
            ).as_str(),
        );
        self.go(Outcome::Unit)
    }

    fn on_observed(&mut self, rule: &OkRule, o: &ObserveResponse, log: &mut Log) -> (v: Verdict)
        requires
            rule is ObservedLine || rule is ObservedFound || rule is ObservedIntrospection || rule
                is ObservedSelected,
        ensures
            forall|event: Event|
                event matches Event::Observed(Ok(r)) && r.data == *o ==> judged_is(
                    *final(self),
                    final(log)@,
                    v,
                    #[trigger] on_ok(rule_view(*rule), event, old(self)@, old(log)@),
                ),
    {
        let line: String = num(o.line as u64);
        match rule {
            Rule::ObservedLine => {
                log.response(
                    "OK",
                    cat6(
                        "metric=",
                        o.metric_name.as_str(),
                        ", line=",
                        line.as_str(),
                        ", line_source=",
                        o.line_source.as_str(),
                    ).as_str(),
                );
                log.success(
                    cat6(
                        "Observing '",
                        o.expression.as_str(),
                        "' at ",
                        o.file.as_str(),
                        ":",
                        line.as_str(),
                    ).as_str(),
                );
                log.info(
                    cat4(
                        "  Metric ID: ",
                        num_signed(o.metric_id).as_str(),
                        ", Connection: ",
                        o.connection_id.as_str(),
                    ).as_str(),
                );
            },
            Rule::ObservedFound => {
                log.response(
                    "OK",
                    cat6(
                        "metric=",
                        o.metric_name.as_str(),
                        ", line=",
                        line.as_str(),
                        " (auto), line_source=",
                        o.line_source.as_str(),
                    ).as_str(),
                );
                log.success(
                    cat5(
                        "Auto-found line ",
                        line.as_str(),
                        " for '",
                        o.expression.as_str(),
                        "'",
                    ).as_str(),
                );
                if o.alternatives.len() > 0 {
                    log.info("  Alternatives found:");
                    report_alternatives(log, &o.alternatives);
                }
            },
            Rule::ObservedIntrospection => {
                log.response(
                    "OK",
                    cat3("metric=", o.metric_name.as_str(), ", group=observe_test").as_str(),
                );
                log.success(
                    cat3("Observing '", o.expression.as_str(), "' with introspection").as_str(),
                );
                report_warnings(log, &o.warnings);
            },
            _ => {
                let id: &str = o.connection_id.as_str();
                let expected: String = self.connection_text();
                log.response(
                    "OK",
                    cat4(
                        "metric=",
                        o.metric_name.as_str(),
                        ", auto_selected_connection=",
                        id,
                    ).as_str(),
                );
                if same_text(id, expected.as_str()) {
                    log.success(cat3("Correctly auto-selected connection '", id, "'").as_str());
                } else {
                    log.warn(
                        cat5(
                            "Selected connection '",
                            id,
                            "' differs from expected '",
                            expected.as_str(),
                            "'",
                        ).as_str(),
                    );
                }
            },
        }
        self.go(Outcome::Unit)
    }

    fn on_groups(&mut self, rule: &OkRule, groups: &Vec<GroupInfo>, log: &mut Log) -> (v: Verdict)
        requires
            rule is GroupsListed || rule is GroupChecked || rule is GroupVerified,
        ensures
            forall|event: Event|
                event matches Event::Groups(Ok(r)) && r.data == *groups ==> judged_is(
                    *final(self),
                    final(log)@,
                    v,
                    #[trigger] on_ok(rule_view(*rule), event, old(self)@, old(log)@),
                ),
    {
        match rule {
            Rule::GroupChecked { group, expected } => {
                let k: usize = find_group(groups, group.as_str());
                if k < groups.len() {
                    log.response(
                        "OK",
                        cat4(
                            num(groups[k].metric_count as u64).as_str(),
                            " metrics, ",
                            num(groups[k].enabled_count as u64).as_str(),
                            " enabled",
                        ).as_str(),
                    );
                    if groups[k].enabled_count > 0 {
                        log.warn("Some metrics already enabled - test may be invalid");
                    }
                } else {
                    log.response("NOT_FOUND", "Group not in list");
                }
                log.success(
                    cat2(
                        num_usize(*expected).as_str(),
                        " disabled metrics verified in group",
                    ).as_str(),
                );
            },
            Rule::GroupVerified { group } => {
                let k: usize = find_group(groups, group.as_str());
                if k < groups.len() {
                    let enabled: String = num(groups[k].enabled_count as u64);
                    let all: String = num(groups[k].metric_count as u64);
                    log.response(
                        "OK",
                        cat4(all.as_str(), " metrics, ", enabled.as_str(), " enabled").as_str(),
                    );
                    log.success(
                        cat4(enabled.as_str(), "/", all.as_str(), " enabled").as_str(),
                    );
                } else {
                    log.success("Group not in list (may be normal)");
                }
            },
            _ => {
                log.response("OK", cat2(num_usize(groups.len()).as_str(), " groups").as_str());
                report_groups(log, groups);
                log.success("Listed groups");
            },
        }
        self.go(Outcome::Unit)
    }

    fn on_metrics(&mut self, rule: &OkRule, list: &Vec<MetricInfo>, log: &mut Log) -> (v: Verdict)
        requires
            rule is MetricsListed || rule is MultiListed || rule is ObservedListed || rule
                is LeftoversListed,
        ensures
            forall|event: Event|
                event matches Event::Metrics(Ok(r)) && r.data == *list ==> judged_is(
                    *final(self),
                    final(log)@,
                    v,
                    #[trigger] on_ok(rule_view(*rule), event, old(self)@, old(log)@),
                ),
    {
        match rule {
            Rule::MultiListed { metric } => {
                let k: usize = find_metric(list, metric.as_str());
                if k < list.len() {
                    let exprs: &Vec<String> = &list[k].expressions;
                    let shown: String = join(exprs, ", ");
                    log.response("OK", cat3("expressions=[", shown.as_str(), "]").as_str());
                    if exprs.len() == 3 {
                        log.success(
                            cat3(
                                "Metric has ",
                                num_usize(exprs.len()).as_str(),
                                " expressions as expected",
                            ).as_str(),
                        );
                        self.go(Outcome::Unit)
                    } else {
                        let msg: String = cat5(
                            "Expected 3 expressions, got ",
                            num_usize(exprs.len()).as_str(),
                            ": [",
                            shown.as_str(),
                            "]",
                        );
                        log.failed(msg.as_str());
                        Self::stop(msg)
                    }
                } else {
                    log.failed("Multi-expression metric not found in list");
                    Self::stop("Multi-expression metric not found".to_owned())
                }
            },
            Rule::ObservedListed => {
                self.total = 0;
                self.put_items(queries_for_observed(list));
                self.go(Outcome::Unit)
            },
            Rule::LeftoversListed => {
                self.put_items(removals_of_leftovers(list));
                self.go(Outcome::Unit)
            },
            _ => {
                report_metrics(log, list);
                log.success(cat2(num_usize(list.len()).as_str(), " metric(s)").as_str());
                self.count = list.len();
                self.go(Outcome::Count(list.len()))
            },
        }
    }

    fn on_text(&mut self, rule: &OkRule, text: &str, log: &mut Log) -> (v: Verdict)
        requires
            rule is TextShown || rule is TextStatus || rule is MetricAdded || rule is CharsShown
                || rule is DisabledAdded || rule is ProbeMetricAdded,
        ensures
            forall|event: Event|
                event matches Event::Text(Ok(r)) && r.data@ == text@ ==> judged_is(
                    *final(self),
                    final(log)@,
                    v,
                    #[trigger] on_ok(rule_view(*rule), event, old(self)@, old(log)@),
                ),
    {
        match rule {
            Rule::TextShown { success } => {
                log.response("OK", text);
                log.success(success.as_str());
                self.go(Outcome::Unit)
            },
            Rule::TextStatus { success } => {
                log.response("OK", cat2("status=", text).as_str());
                log.success(success.as_str());
                self.go(Outcome::Unit)
            },
            Rule::MetricAdded { name } => {
                log.response("OK", cat2("metric_id=", text).as_str());
                log.success(cat3("Metric '", name.as_str(), "' added").as_str());
                self.go(Outcome::Text(text.to_owned()))
            },
            Rule::CharsShown { success } => {
                log.response("OK", cat2(num_usize(text.len()).as_str(), " chars").as_str());
                log.success(success.as_str());
                self.go(Outcome::Unit)
            },
            Rule::DisabledAdded { name } => {
                log.response("OK", cat3("id=", text, " (disabled)").as_str());
                log.success(cat3("Added '", name.as_str(), "' as disabled").as_str());
                self.go(Outcome::Unit)
            },
            _ => {
                log.info(cat2("  OK add_metric: id=", text).as_str());
                self.put_items(probes_of_metric());
                self.go(Outcome::Unit)
            },
        }
    }

    fn on_count(&mut self, rule: &OkRule, count: usize, log: &mut Log) -> (v: Verdict)
        requires
            rule is CountShown || rule is GroupEnabled || rule is GroupDisabled,
        ensures
            forall|event: Event|
                event matches Event::Count(Ok(r)) && r.data == count ==> judged_is(
                    *final(self),
                    final(log)@,
                    v,
                    #[trigger] on_ok(rule_view(*rule), event, old(self)@, old(log)@),
                ),
    {
        let n: String = num_usize(count);
        match rule {
            Rule::CountShown { verb, success } => {
                log.response("OK", cat3(n.as_str(), " metrics ", verb.as_str()).as_str());
                log.success(success.as_str());
                self.go(Outcome::Unit)
            },
            Rule::GroupEnabled { expected } => {
                let text: String = cat2(n.as_str(), " metrics enabled");
                log.response("OK", text.as_str());
                if count != *expected {
                    let msg: String = if count == 0 {
                        cat3(
                            "enable_group returned 0 metrics - expected ",
                            num_usize(*expected).as_str(),
                            " to be enabled. This indicates group name mismatch or metrics not saved with correct group.",
                        )
                    } else {
                        cat5(
                            "enable_group returned ",
                            n.as_str(),
                            " metrics - expected ",
                            num_usize(*expected).as_str(),
                            " to be enabled",
                        )
                    };
                    log.failed(msg.as_str());
                    Verdict::FailAfterClose(ApiError::new(msg))
                } else {
                    log.success(text.as_str());
                    self.go(Outcome::Unit)
                }
            },
            _ => {
                let text: String = cat2(n.as_str(), " metrics disabled");
                log.response("OK", text.as_str());
                log.success(text.as_str());
                self.go(Outcome::Unit)
            },
        }
    }

    fn on_events(&mut self, rule: &OkRule, events: &Vec<EventInfo>, log: &mut Log) -> (v: Verdict)
        requires
            rule is EventsListed || rule is EventsCounted || rule is ObservedCounted || rule
                is MultiVerified,
        ensures
            forall|event: Event|
                event matches Event::Events(Ok(r)) && r.data == *events ==> judged_is(
                    *final(self),
                    final(log)@,
                    v,
                    #[trigger] on_ok(rule_view(*rule), event, old(self)@, old(log)@),
                ),
    {
        let n: usize = events.len();
        match rule {
            Rule::EventsCounted { success } => {
                log.response("OK", cat2(num_usize(n).as_str(), " events").as_str());
                log.success(success.as_str());
                self.go(Outcome::Unit)
            },
            Rule::ObservedCounted { name } => {
                if n > 0 {
                    log.info(
                        cat5(
                            "  '",
                            name.as_str(),
                            "': ",
                            num_usize(n).as_str(),
                            " events captured",
                        ).as_str(),
                    );
                    self.total = sat_add(self.total, n);
                }
                self.go(Outcome::Unit)
            },
            Rule::MultiVerified { expressions } => self.on_multi(log, events, expressions),
            _ => {
                report_events(log, events);
                log.success(cat2(num_usize(n).as_str(), " event(s) found").as_str());
                self.count = n;
                self.go(Outcome::Count(n))
            },
        }
    }

    fn on_validation(&mut self, rule: &OkRule, is_safe: bool, issues: &Vec<String>, log: &mut Log) -> (v:
        Verdict)
        requires
            rule is Validated || rule is EmptyValidated,
        ensures
            forall|event: Event|
                event matches Event::Validation(Ok(r)) && r.data.is_safe == is_safe
                    && r.data.issues == *issues ==> judged_is(
                    *final(self),
                    final(log)@,
                    v,
                    #[trigger] on_ok(rule_view(*rule), event, old(self)@, old(log)@),
                ),
    {
        match rule {
            Rule::Validated { expect_safe } => {
                log.response(
                    "OK",
                    cat5(
                        "is_safe=",
                        bool_str(is_safe),
                        ", issues=[",
                        join(issues, ", ").as_str(),
                        "]",
                    ).as_str(),
                );
                if is_safe == *expect_safe {
                    log.success(cat2("Expression is ", safety_str(is_safe)).as_str());
                    self.go(Outcome::Flag(is_safe))
                } else {
                    log.failed(
                        cat4(
                            "Expected ",
                            bool_str(*expect_safe),
                            ", got ",
                            bool_str(is_safe),
                        ).as_str(),
                    );
                    Self::stop(
                        cat4(
                            "Expression validation mismatch: expected ",
                            bool_str(*expect_safe),
                            ", got ",
                            bool_str(is_safe),
                        ),
                    )
                }
            },
            _ => {
                if is_safe {
                    log.response("SAFE", "Empty expression allowed");
                } else {
                    log.response("UNSAFE", "Empty expression marked unsafe");
                }
                log.success("Handled empty expression");
                self.go(Outcome::Unit)
            },
        }
    }

    fn on_burst(&mut self, rule: &OkRule, succeeded: usize, log: &mut Log) -> (v: Verdict)
        requires
            rule is BurstHealthy || rule is BurstShown,
        ensures
            judged_is(
                *final(self),
                final(log)@,
                v,
                on_ok(rule_view(*rule), Event::Burst { succeeded }, old(self)@, old(log)@),
            ),
    {
        let n: String = num_usize(succeeded);
        match rule {
            Rule::BurstShown { shown, completed } => {
                log.response("OK", cat2(n.as_str(), shown.as_str()).as_str());
                log.success(cat2(n.as_str(), completed.as_str()).as_str());
                self.go(Outcome::Unit)
            },
            _ => {
                let bad: usize = if succeeded >= 10 {
                    0
                } else {
                    10 - succeeded
                };
                let b: String = num_usize(bad);
                log.response("OK", cat4(n.as_str(), " succeeded, ", b.as_str(), " failed").as_str());
                if bad > 2 {
                    log.failed(cat2("Too many failures: ", b.as_str()).as_str());
                    Self::stop(cat3("Concurrent health checks had ", b.as_str(), " failures"))
                } else {
                    log.success(cat2(n.as_str(), "/10 health checks succeeded").as_str());
                    self.go(Outcome::Unit)
                }
            },
        }
    }

    fn on_ok(&mut self, rule: &OkRule, event: &Event, log: &mut Log) -> (v: Verdict)
        ensures
            judged_is(
                *final(self),
                final(log)@,
                v,
                on_ok(rule_view(*rule), *event, old(self)@, old(log)@),
            ),
    {
        match rule {
            Rule::Nothing => self.go(Outcome::Unit),
            Rule::Done { success } => {
                log.success(success.as_str());
                self.go(Outcome::Unit)
            },
            Rule::Fixed { status, body, success } => {
                log.response(status.as_str(), body.as_str());
                log.success(success.as_str());
                self.go(Outcome::Unit)
            },
            Rule::ErrorExpected => {
                log.failed("Expected error but got success");
                Self::stop("Expected error for nonexistent connection".to_owned())
            },
            Rule::Healthy => match event {
                Event::Health(Ok(healthy)) => if *healthy {
                    log.response("200 OK", "healthy");
                    log.success("API is healthy");
                    self.go(Outcome::Unit)
                } else {
                    log.response("503", "unhealthy");
                    log.failed("API is not healthy");
                    Self::stop("API is not healthy".to_owned())
                },
                _ => self.go(Outcome::Unit),
            },
            Rule::StatusShown => match event {
                Event::Status(Ok(r)) => {
                    log.response(
                        "OK",
                        cat8(
                            "mode=",
                            r.data.mode.as_str(),
                            ", uptime=",
                            num(r.data.uptime_seconds).as_str(),
                            "s, connections=",
                            num_usize(r.data.active_connections).as_str(),
                            ", metrics=",
                            num_usize(r.data.total_metrics).as_str(),
                        ).as_str(),
                    );
                    log.success("Status retrieved");
                    self.go(Outcome::Unit)
                },
                _ => self.go(Outcome::Unit),
            },
            Rule::Connected | Rule::ConnectedShort | Rule::ConnectedBare | Rule::ConnectedProbe =>
            match event {
                Event::Connection(Ok(r)) => self.on_connected(rule, &r.data, log),
                _ => self.go(Outcome::Unit),
            },
            Rule::ConnectionShown => match event {
                Event::Connection(Ok(r)) => {
                    log.response("OK", cat2("status=", r.data.status.as_str()).as_str());
                    log.success("Got connection details");
                    self.go(Outcome::Unit)
                },
                _ => self.go(Outcome::Unit),
            },
            Rule::ConnectionsListed => match event {
                Event::Connections(Ok(r)) => {
                    report_connections(log, &r.data);
                    log.success(cat2(num_usize(r.data.len()).as_str(), " connection(s)").as_str());
                    self.count = r.data.len();
                    self.go(Outcome::Count(r.data.len()))
                },
                _ => self.go(Outcome::Unit),
            },
            Rule::MetricShown => match event {
                Event::Metric(Ok(r)) => {
                    log.response(
                        "OK",
                        cat4(
                            "name=",
                            r.data.name.as_str(),
                            ", enabled=",
                            bool_str(r.data.enabled),
                        ).as_str(),
                    );
                    log.success("Got metric");
                    self.go(Outcome::Unit)
                },
                _ => self.go(Outcome::Unit),
            },
            Rule::UsageShown => match event {
                Event::Usage(Ok(r)) => {
                    report_usage(log, &r.data);
                    self.go(Outcome::Unit)
                },
                _ => self.go(Outcome::Unit),
            },
            Rule::ValidShown => match event {
                Event::Valid(Ok(r)) => {
                    log.response("OK", cat2("is_valid: ", bool_str(r.data)).as_str());
                    log.success("Validated configuration");
                    self.go(Outcome::Unit)
                },
                _ => self.go(Outcome::Unit),
            },
            Rule::ConfigJudged => match event {
                Event::Valid(Ok(r)) => {
                    if !r.data {
                        log.response("INVALID", "Correctly identified as invalid");
                    } else {
                        log.response("VALID", "Unexpectedly valid");
                    }
                    log.success("Validation completed");
                    self.go(Outcome::Unit)
                },
                _ => self.go(Outcome::Unit),
            },
            Rule::TextShown { .. } | Rule::TextStatus { .. } | Rule::MetricAdded { .. }
            | Rule::CharsShown { .. } | Rule::DisabledAdded { .. } | Rule::ProbeMetricAdded =>
            match event {
                Event::Text(Ok(r)) => self.on_text(rule, r.data.as_str(), log),
                _ => self.go(Outcome::Unit),
            },
            Rule::GroupsListed | Rule::GroupChecked { .. } | Rule::GroupVerified { .. } =>
            match event {
                Event::Groups(Ok(r)) => self.on_groups(rule, &r.data, log),
                _ => self.go(Outcome::Unit),
            },
            Rule::MetricsListed | Rule::MultiListed { .. } | Rule::ObservedListed
            | Rule::LeftoversListed => match event {
                Event::Metrics(Ok(r)) => self.on_metrics(rule, &r.data, log),
                _ => self.go(Outcome::Unit),
            },
            Rule::CountShown { .. } | Rule::GroupEnabled { .. } | Rule::GroupDisabled =>
            match event {
                Event::Count(Ok(r)) => self.on_count(rule, r.data, log),
                _ => self.go(Outcome::Unit),
            },
            Rule::EventsListed | Rule::EventsCounted { .. } | Rule::ObservedCounted { .. }
            | Rule::MultiVerified { .. } => match event {
                Event::Events(Ok(r)) => self.on_events(rule, &r.data, log),
                _ => self.go(Outcome::Unit),
            },
            Rule::Validated { .. } | Rule::EmptyValidated => match event {
                Event::Validation(Ok(r)) => self.on_validation(
                    rule,
                    r.data.is_safe,
                    &r.data.issues,
                    log,
                ),
                _ => self.go(Outcome::Unit),
            },
            Rule::ObservedLine | Rule::ObservedFound | Rule::ObservedIntrospection
            | Rule::ObservedSelected => match event {
                Event::Observed(Ok(r)) => self.on_observed(rule, &r.data, log),
                _ => self.go(Outcome::Unit),
            },
            Rule::BurstHealthy | Rule::BurstShown { .. } => match event {
                Event::Burst { succeeded } => self.on_burst(rule, *succeeded, log),
                _ => self.go(Outcome::Unit),
            },
        }
    }

    fn on_err(&mut self, rule: &ErrRule, e: &ApiError, log: &mut Log) -> (v: Verdict)
        ensures
            judged_is(
                *final(self),
                final(log)@,
                v,
                on_err(fault_view(*rule), e@, old(self)@, old(log)@),
            ),
    {
        match rule {
            Fault::FailStep => {
                log.failed(e.message.as_str());
                Verdict::Fail(e.duplicate())
            },
            Fault::Propagate => Verdict::Fail(e.duplicate()),
            Fault::Ignore => self.go(Outcome::Unit),
            Fault::Accept { status, success } => {
                log.response(status.as_str(), e.message.as_str());
                log.success(success.as_str());
                self.go(Outcome::Unit)
            },
            Fault::AcceptUnsupported => if is_unsupported_exec(e) {
                log.response("UNIMPLEMENTED", e.message.as_str());
                log.success("Endpoint exists (disabled for safety)");
                self.go(Outcome::Unit)
            } else {
                Verdict::Fail(e.duplicate())
            },
            Fault::AcceptUnconfigured => if is_unconfigured_exec(e) {
                log.response("NOT_CONFIGURED", e.message.as_str());
                log.success("Endpoint exists (no config file)");
                self.go(Outcome::Unit)
            } else {
                Verdict::Fail(e.duplicate())
            },
            Fault::FailAndClose => {
                log.failed(e.message.as_str());
                Verdict::FailAfterClose(e.duplicate())
            },
            Fault::FailContinue => {
                log.failed(e.message.as_str());
                self.go(Outcome::Unit)
            },
            Fault::GroupChecked { expected } => {
                log.response("ERROR", e.message.as_str());
                log.success(
                    cat2(
                        num_usize(*expected).as_str(),
                        " disabled metrics verified in group",
                    ).as_str(),
                );
                self.go(Outcome::Unit)
            },
            Fault::AutoFindFailed => {
                log.response("WARN", e.message.as_str());
                log.warn(cat2("Auto-find failed: ", e.message.as_str()).as_str());
                self.go(Outcome::Unit)
            },
            Fault::Probe { label } => {
                let text: String = cat3(label.as_str(), ": ", e.message.as_str());
                let ghost before = self.failures@;
                self.failures.push(text);
                assert(views(self.failures@) =~= views(before).push(text@));
                self.go(Outcome::Unit)
            },
        }
    }
}

impl Script {
    /// The script waits for an event.
    pub open spec fn is_waiting(&self) -> bool {
        !(self.waiting is Nothing)
    }

    fn finish(&mut self, result: Result<Outcome, ApiError>) -> (next: ScriptNext)
        ensures
            final(self)@ == (ScriptState { waiting: WaitingView::Nothing, ..old(self)@ }),
            next == ScriptNext::Finish(result),
    {
        self.waiting = Waiting::Nothing;
        ScriptNext::Finish(result)
    }

    fn report_call(log: &mut Log, c: &Call, connection: &str)
        ensures
            final(log)@ == log_call(old(log)@, c@, connection@),
    {
        match &c.info {
            Some(info) => log.info(info.as_str()),
            None => {},
        }
        match &c.step {
            Some((name, text)) => log.start(name.as_str(), text.render(connection).as_str()),
            None => {},
        }
        match &c.request {
            Some((method, Some(text))) => log.request(
                method.as_str(),
                text.render(connection).as_str(),
            ),
            Some((method, None)) => log.request_bare(method.as_str()),
            None => {},
        }
    }

    fn take_value(&mut self) -> (r: Outcome)
        ensures
            r@ == old(self)@.value,
            final(self)@ == old(self)@,
    {
        match &self.value {
            Outcome::Unit => Outcome::Unit,
            Outcome::Text(t) => Outcome::Text(t.clone()),
            Outcome::Count(n) => Outcome::Count(*n),
            Outcome::Flag(b) => Outcome::Flag(*b),
        }
    }

    fn advance(&mut self, log: &mut Log) -> (next: ScriptNext)
        ensures
            turn_is(*final(self), final(log)@, next, advance(old(self)@, old(log)@)),
            next is Ask <==> final(self).is_waiting(),
            next matches ScriptNext::Ask(a) ==> a@.answer() == final(self)@.waiting.answer(),
        decreases old(self).todo.len(),
    {
        if self.todo.len() == 0 {
            assert(self@.todo.len() == 0);
            let value: Outcome = self.take_value();
            return self.finish(Ok(value));
        }
        let ghost before = self@;
        let item: Item = self.todo.remove(0);
        let ghost rest = ScriptState { todo: before.todo.drop_first(), ..before };
        proof {
            assert(before.todo[0] == item@);
            assert(self@.todo =~= before.todo.drop_first());
        }
        match item {
            Item::Section { title } => {
                log.section(title.as_str());
                self.advance(log)
            },
            Item::Info { message } => {
                log.info(message.as_str());
                self.advance(log)
            },
            Item::InfoCount { before, after } => {
                log.info(
                    cat3(before.as_str(), num_usize(self.count).as_str(), after.as_str()).as_str(),
                );
                self.advance(log)
            },
            Item::Step { name, description } => {
                log.start(name.as_str(), description.as_str());
                self.advance(log)
            },
            Item::Pause { millis } => {
                self.waiting = Waiting::Pause;
                ScriptNext::Ask(Action::Pause { millis })
            },
            Item::Call { call } => {
                if call.needs_connection && self.connection.is_none() {
                    self.advance(log)
                } else {
                    let conn: String = self.connection_text();
                    Self::report_call(log, &call, conn.as_str());
                    let action: Action = if call.bind {
                        bind_action_exec(call.action, conn.as_str())
                    } else {
                        call.action
                    };
                    self.waiting = Waiting::Call {
                        kind: kind_of(&action),
                        ok: call.ok,
                        err: call.err,
                    };
                    ScriptNext::Ask(action)
                }
            },
            Item::Wait { wait } => {
                log.start(
                    "Wait for Events",
                    cat7(
                        "Wait for ",
                        num_usize(wait.min_events).as_str(),
                        " events on '",
                        wait.metric.as_str(),
                        "' (timeout: ",
                        num(wait.timeout_secs).as_str(),
                        "s)",
                    ).as_str(),
                );
                let limit_secs: u64 = wait.timeout_secs;
                self.waiting = Waiting::WaitTimer { wait };
                ScriptNext::Ask(Action::CheckTimer { restart: true, limit_secs })
            },
            Item::Total => {
                if self.total > 0 {
                    log.success(
                        cat2(num_usize(self.total).as_str(), " total events captured").as_str(),
                    );
                } else {
                    log.warn("No events captured yet (may need more time)");
                }
                self.advance(log)
            },
            Item::Verdict => {
                if self.failures.len() == 0 {
                    log.info("All endpoints passed!");
                    self.advance(log)
                } else {
                    let n: String = num_usize(self.failures.len());
                    log.error(cat2(n.as_str(), " endpoint(s) failed:").as_str());
                    report_failures(log, &self.failures);
                    let error: ApiError = ApiError::new(
                        cat3(
                            "Comprehensive coverage failed: ",
                            n.as_str(),
                            " endpoint(s) not working",
                        ),
                    );
                    self.finish(Err(error))
                }
            },
        }
    }

    fn after(&mut self, finding: Verdict, log: &mut Log) -> (next: ScriptNext)
        ensures
            turn_is(
                *final(self),
                final(log)@,
                next,
                after(
                    Judged {
                        log: old(log)@,
                        state: old(self)@,
                        judgement: finding.judgement(),
                    },
                ),
            ),
            next is Ask <==> final(self).is_waiting(),
            next matches ScriptNext::Ask(a) ==> a@.answer() == final(self)@.waiting.answer(),
    {
        match finding {
            Verdict::Go => self.advance(log),
            Verdict::Fail(e) => self.finish(Err(e)),
            Verdict::FailAfterClose(e) => {
                let id: String = self.connection_text();
                self.waiting = Waiting::Closing { error: e };
                ScriptNext::Ask(Action::CloseConnection { id })
            },
        }
    }

    /// Starts a script.
    pub fn start(items: Vec<Item>) -> (r: (Script, ScriptStep))
        ensures
            turn_is(
                r.0,
                r.1.log@,
                r.1.next,
                advance(fresh(item_views(items@)), Seq::empty()),
            ),
            r.1.next is Ask <==> r.0.is_waiting(),
            r.1.next matches ScriptNext::Ask(a) ==> a@.answer() == r.0@.waiting.answer(),
    {
        let mut script = Script {
            todo: items,
            waiting: Waiting::Nothing,
            connection: None,
            count: 0,
            total: 0,
            failures: Vec::new(),
            value: Outcome::Unit,
        };
        proof {
            assert(script@.failures =~= Seq::<Seq<char>>::empty());
        }
        let mut log: Log = Log::new();
        let next: ScriptNext = script.advance(&mut log);
        (script, ScriptStep { log, next })
    }

    /// Takes the event that answers the last action; gives the reports and how the script goes
    /// on.
    pub fn resume(&mut self, event: &Event) -> (step: ScriptStep)
        requires
            old(self).is_waiting(),
            event.spec_kind() == old(self)@.waiting.answer(),
        ensures
            turn_is(*final(self), step.log@, step.next, on_event(old(self)@, *event)),
            step.next is Ask <==> final(self).is_waiting(),
            step.next matches ScriptNext::Ask(a) ==> a@.answer() == final(self)@.waiting.answer(),
    {
        let mut log: Log = Log::new();
        let mut waiting: Waiting = Waiting::Nothing;
        std::mem::swap(&mut waiting, &mut self.waiting);
        let next: ScriptNext = match waiting {
            Waiting::Call { kind: _, ok, err } => {
                let finding: Verdict = match event.get_error() {
                    Some(e) => self.on_err(&err, e, &mut log),
                    None => self.on_ok(&ok, event, &mut log),
                };
                self.after(finding, &mut log)
            },
            Waiting::WaitTimer { wait } => match event {
                Event::Timer { expired: true } => {
                    let n: String = num_usize(wait.min_events);
                    log.failed(cat3("Timeout waiting for ", n.as_str(), " events").as_str());
                    let error: ApiError = ApiError::new(
                        cat5(
                            "Timeout waiting for ",
                            n.as_str(),
                            " events on '",
                            wait.metric.as_str(),
                            "'",
                        ),
                    );
                    self.finish(Err(error))
                },
                _ => {
                    let name: String = wait.metric.clone();
                    self.waiting = Waiting::WaitQuery { wait };
                    ScriptNext::Ask(Action::QueryEvents { name, limit: 100 })
                },
            },
            Waiting::WaitQuery { wait } => {
                match event {
                    Event::Events(Ok(r)) => {
                        let n: usize = r.data.len();
                        let text: String = num_usize(n);
                        log.push(
                            crate::report::Report::Progress {
                                message: cat3("Found ", text.as_str(), " events..."),
                            },
                        );
                        if n >= wait.min_events {
                            log.success(cat2(text.as_str(), " events captured").as_str());
                            self.count = n;
                            self.value = Outcome::Count(n);
                            self.advance(&mut log)
                        } else {
                            self.waiting = Waiting::WaitPause { wait };
                            ScriptNext::Ask(Action::Pause { millis: 1000 })
                        }
                    },
                    Event::Events(Err(e)) => {
                        log.warn(cat2("Query failed: ", e.message.as_str()).as_str());
                        self.waiting = Waiting::WaitPause { wait };
                        ScriptNext::Ask(Action::Pause { millis: 1000 })
                    },
                    _ => {
                        self.waiting = Waiting::WaitPause { wait };
                        ScriptNext::Ask(Action::Pause { millis: 1000 })
                    },
                }
            },
            Waiting::WaitPause { wait } => {
                let limit_secs: u64 = wait.timeout_secs;
                self.waiting = Waiting::WaitTimer { wait };
                ScriptNext::Ask(Action::CheckTimer { restart: false, limit_secs })
            },
            Waiting::Closing { error } => self.finish(Err(error)),
            Waiting::Pause => self.advance(&mut log),
            Waiting::Nothing => self.advance(&mut log),
        };
        ScriptStep { log, next }
    }
}

/// Puts further items behind those of a script.
pub fn followed_by(items: Vec<Item>, more: Vec<Item>) -> (r: Vec<Item>)
    ensures
        item_views(r@) == item_views(items@) + item_views(more@),
{
    let mut all: Vec<Item> = items;
    let mut rest: Vec<Item> = more;
    all.append(&mut rest);
    assert(item_views(all@) =~= item_views(items@) + item_views(more@));
    all
}

} // verus!
