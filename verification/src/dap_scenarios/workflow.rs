//! The complete workflow against a debug adapter, as a state machine.
//!
//! [`DapWorkflowScenarios::run_workflow`] starts a run; [`WorkflowRun::resume`] takes the event
//! that answers the last action and says how the run goes on. The run connects, inspects the
//! code, adds disabled metrics, enables them as a group, waits until each has captured an
//! event, disables one and checks that only that one stops, disables the group and checks that
//! all stop, tries introspection, and cleans up.

use vstd::prelude::*;

use super::{
    adapter_name, api_name, DapLanguageExt, DapWorkflowConfig, DapWorkflowScenarios, MetricPoint,
};
use crate::client::{
    bare_request, find_metric, metric_index, AddMetricRequest, AddMetricRequestView, EventInfo,
    MemorySnapshot, MetricInfo, SnapshotVariable, StackFrame,
};
use crate::exchange::{
    ask, count_events, event_count, fail, finish, Action, ActionView, Event, EventKind, Next,
    NextView, Turn,
};
use crate::json::{debug_json, debug_json_list, format_json_debug, format_json_list_debug};
use crate::json::{json_views, Json, JsonView};
use crate::report::{failed, request, response, start, success, Log, ReportView};
use crate::text::{
    bool_str, bool_text, byte_len, cat2, cat3, cat4, cat5, cat6, cat7, cat8, cat9, clone_opt,
    clone_strings, contains, debug_opt_text, decimal, first_chars, format_debug_opt, has_text, join,
    joined, num, num_usize, opt_view, sat_add, sat_sum, take_chars, views,
};

verus! {

/// What a run is about.
pub struct WorkflowSetup {
    pub config: DapWorkflowConfig,
    /// The language with its adapter, for people.
    pub adapter: String,
    /// Whether the daemon checks scopes for the language.
    pub scope_validation: bool,
    pub debugger_port: u16,
    pub source_path: String,
    pub program: Option<String>,
}

/// The result of a run.
#[derive(Debug, Clone, Copy)]
pub struct WorkflowResult {
    pub metrics_added: usize,
    pub total_events: usize,
    pub introspection_metrics_added: usize,
    pub introspection_events: usize,
    pub stack_trace_events: usize,
    pub memory_snapshot_events: usize,
}

impl View for WorkflowResult {
    type V = WorkflowResult;

    open spec fn view(&self) -> WorkflowResult {
        *self
    }
}

/// The action that a run is waiting for.
#[derive(Debug, Clone, Copy)]
pub enum Phase {
    Health,
    Connect,
    Handshake,
    InspectCode,
    InspectVariable,
    AddMetric { index: usize },
    AddInvalid,
    EnableGroup,
    WaitTimer,
    WaitPoll { index: usize, total: usize, active: usize },
    WaitPause,
    WaitMissing { index: usize },
    MultiList { index: usize },
    MultiEvents { index: usize },
    BaselineFirst,
    BaselineOther { first: usize },
    ToggleFirst { first: usize, other: usize },
    SettleFirst { first: usize, other: usize },
    VerifyStopped { first: usize, other: usize },
    VerifyOther { other: usize },
    BaselineAll { index: usize },
    DisableGroup,
    SettleGroup,
    VerifyGroup { index: usize },
    IntroAdd { index: usize },
    IntroTimer,
    IntroPoll { index: usize, total: usize, stacks: usize, memories: usize },
    IntroPause,
    IntroRemove { index: usize },
    Remove { index: usize },
    RemoveInvalid,
    Close,
    Finished,
}

/// The state of a run.
pub struct WorkflowState {
    pub phase: Phase,
    pub connection_id: Seq<char>,
    pub missing: Seq<Seq<char>>,
    pub baselines: Seq<usize>,
    pub capturing: Seq<Seq<char>>,
    pub result: WorkflowResult,
}

pub type WorkflowTurn = Turn<WorkflowState, WorkflowResult>;

/// A run of the workflow.
pub struct WorkflowRun {
    pub setup: WorkflowSetup,
    pub phase: Phase,
    pub connection_id: String,
    /// The metrics without an event when the time was up.
    pub missing: Vec<String>,
    /// The number of events of each metric before the group was disabled.
    pub baselines: Vec<usize>,
    /// The metrics that went on capturing after the group was disabled.
    pub capturing: Vec<String>,
    pub result: WorkflowResult,
}

impl View for WorkflowRun {
    type V = WorkflowState;

    open spec fn view(&self) -> WorkflowState {
        WorkflowState {
            phase: self.phase,
            connection_id: self.connection_id@,
            missing: views(self.missing@),
            baselines: self.baselines@,
            capturing: views(self.capturing@),
            result: self.result,
        }
    }
}

impl WorkflowState {
    /// The state in another phase.
    pub open spec fn at(self, phase: Phase) -> WorkflowState {
        WorkflowState { phase, ..self }
    }
}

impl WorkflowSetup {
    /// The metrics of the configuration.
    pub open spec fn metrics(&self) -> Seq<MetricPoint> {
        self.config.metrics@
    }

    /// The introspection metrics of the configuration.
    pub open spec fn intro(&self) -> Seq<MetricPoint> {
        self.config.introspection_metrics@
    }

    /// Twice the time of an iteration is a number of milliseconds that a wait can have.
    pub open spec fn valid(&self) -> bool {
        self.config.iteration_duration_ms * 2 <= u64::MAX
    }
}

// ---------------------------------------------------------------------------
// Formulas
// ---------------------------------------------------------------------------

/// Two and a half iterations, rounded down.
pub open spec fn single_wait(iteration_ms: u64) -> u64 {
    if iteration_ms * 5 / 2 > u64::MAX {
        u64::MAX
    } else {
        (iteration_ms * 5 / 2) as u64
    }
}

/// How many new events are tolerated after a wait: one for each iteration that may have begun,
/// and seven for what was under way and for delays between the layers.
pub open spec fn allowance(wait_ms: u64, iteration_ms: u64) -> usize {
    if iteration_ms == 0 {
        7
    } else {
        ((wait_ms + iteration_ms - 1) / (iteration_ms as int) + 7) as usize
    }
}

/// Two and a half iterations, rounded down.
pub fn single_wait_ms(iteration_ms: u64) -> (r: u64)
    ensures
        r == single_wait(iteration_ms),
        r <= iteration_ms * 3,
{
    let wide: u128 = (iteration_ms as u128) * 5 / 2;
    if wide > u64::MAX as u128 {
        u64::MAX
    } else {
        wide as u64
    }
}

/// How many new events are tolerated after a wait of at most three iterations.
pub fn allowed_new_events(wait_ms: u64, iteration_ms: u64) -> (r: usize)
    requires
        wait_ms <= iteration_ms * 3,
    ensures
        r == allowance(wait_ms, iteration_ms),
        7 <= r <= 10,
{
    if iteration_ms == 0 {
        7
    } else {
        let wide: u128 = (wait_ms as u128 + iteration_ms as u128 - 1) / (iteration_ms as u128);
        proof {
            let i = iteration_ms as int;
            let w = wait_ms as int;
            assert((w + i - 1) / i <= 3) by (nonlinear_arith)
                requires
                    0 < i,
                    0 <= w <= i * 3,
            ;
        }
        wide as usize + 7
    }
}

// ---------------------------------------------------------------------------
// Texts
// ---------------------------------------------------------------------------

/// Where a metric is placed: the file and the line.
pub open spec fn location_text(path: Seq<char>, line: u32) -> Seq<char> {
    "@"@ + path + "#"@ + decimal(line as nat)
}

/// Where a metric is placed: the file and the line.
pub fn location(path: &str, line: u32) -> (r: String)
    ensures
        r@ == location_text(path@, line),
{
    cat4("@", path, "#", num(line as u64).as_str())
}

/// The number of values that a metric captures at once.
pub open spec fn expression_count(metric: MetricPoint) -> nat {
    1 + metric.extra_expressions@.len()
}

/// The expressions of a metric, the first one first.
pub open spec fn all_expressions(metric: MetricPoint) -> Seq<Seq<char>> {
    seq![metric.expression@] + views(metric.extra_expressions@)
}

/// What an introspection metric captures, for people.
pub open spec fn feature(metric: MetricPoint) -> Seq<char> {
    if metric.capture_stack_trace && metric.capture_memory_snapshot {
        "stack trace + memory snapshot"@
    } else if metric.capture_stack_trace {
        "stack trace"@
    } else if metric.capture_memory_snapshot {
        "memory snapshot"@
    } else {
        "no introspection"@
    }
}

fn feature_text(metric: &MetricPoint) -> (r: &'static str)
    ensures
        r@ == feature(*metric),
{
    if metric.capture_stack_trace && metric.capture_memory_snapshot {
        "stack trace + memory snapshot"
    } else if metric.capture_stack_trace {
        "stack trace"
    } else if metric.capture_memory_snapshot {
        "memory snapshot"
    } else {
        "no introspection"
    }
}

/// The request that adds a metric of the workflow, disabled.
pub open spec fn metric_request(
    setup: WorkflowSetup,
    metric: MetricPoint,
    connection_id: Seq<char>,
) -> AddMetricRequestView {
    AddMetricRequestView {
        language: Some(api_name(setup.config.language)),
        group: opt_view(metric.group),
        enabled: Some(false),
        ..bare_request(
            metric.name@,
            location_text(setup.source_path@, metric.line),
            all_expressions(metric),
            connection_id,
        )
    }
}

/// The request that tries to add a metric for a variable that is not in scope.
pub open spec fn invalid_request(
    setup: WorkflowSetup,
    metric: MetricPoint,
    connection_id: Seq<char>,
) -> AddMetricRequestView {
    AddMetricRequestView {
        language: Some(api_name(setup.config.language)),
        group: opt_view(metric.group),
        ..bare_request(
            metric.name@,
            location_text(setup.source_path@, metric.line),
            seq![metric.expression@],
            connection_id,
        )
    }
}

/// The request that adds an introspection metric, enabled.
pub open spec fn introspection_request(
    setup: WorkflowSetup,
    metric: MetricPoint,
    connection_id: Seq<char>,
) -> AddMetricRequestView {
    AddMetricRequestView {
        enabled: Some(true),
        capture_stack_trace: if metric.capture_stack_trace {
            Some(true)
        } else {
            None
        },
        capture_memory_snapshot: if metric.capture_memory_snapshot {
            Some(true)
        } else {
            None
        },
        ..invalid_request(setup, metric, connection_id)
    }
}

/// The text of an event in the log.
pub open spec fn event_line(i: int, event: EventInfo) -> Seq<char> {
    "    [Event "@ + decimal(i as nat) + "] value="@ + event.value@ + ", timestamp="@
        + event.timestamp_iso@ + ", is_error="@ + bool_text(event.is_error)
}

/// The reports on the first `n` events.
pub open spec fn log_events(
    log: Seq<ReportView>,
    events: Seq<EventInfo>,
    n: nat,
) -> Seq<ReportView>
    decreases n,
{
    if n == 0 {
        log
    } else {
        log_events(log, events, (n - 1) as nat).push(
            ReportView::Info(event_line(n - 1, events[n - 1])),
        )
    }
}

fn report_events(log: &mut Log, events: &Vec<EventInfo>)
    ensures
        final(log)@ == log_events(old(log)@, events@, events@.len()),
{
    let mut i: usize = 0;
    while i < events.len()
        invariant
            i <= events.len(),
            log@ == log_events(old(log)@, events@, i as nat),
        decreases events.len() - i,
    {
        let event: &EventInfo = &events[i];
        let line: String = cat8(
            "    [Event ",
            num_usize(i).as_str(),
            "] value=",
            event.value.as_str(),
            ", timestamp=",
            event.timestamp_iso.as_str(),
            ", is_error=",
            bool_str(event.is_error),
        );
        log.info(line.as_str());
        i = i + 1;
    }
}

/// The text of a stack frame in the log.
pub open spec fn frame_line(i: int, frame: StackFrame) -> Seq<char> {
    "        ["@ + decimal(i as nat) + "] "@ + (match frame.file {
        Some(f) => f@,
        None => "<unknown>"@,
    }) + ":"@ + decimal(
        match frame.line {
            Some(l) => l as nat,
            None => 0,
        },
    ) + " in "@ + frame.name@
}

/// The reports on the first `n` frames.
pub open spec fn log_frames(log: Seq<ReportView>, frames: Seq<StackFrame>, n: nat) -> Seq<
    ReportView,
>
    decreases n,
{
    if n == 0 {
        log
    } else {
        log_frames(log, frames, (n - 1) as nat).push(
            ReportView::Info(frame_line(n - 1, frames[n - 1])),
        )
    }
}

/// The reports on a stack trace: its size, at most five frames, and how many more there are.
pub open spec fn log_stack(log: Seq<ReportView>, frames: Seq<StackFrame>) -> Seq<ReportView> {
    let shown = if frames.len() < 5 {
        frames.len()
    } else {
        5
    };
    let l = log_frames(
        log.push(
            ReportView::Info("      Stack trace ("@ + decimal(frames.len()) + " frames):"@),
        ),
        frames,
        shown,
    );
    if frames.len() > 5 {
        l.push(
            ReportView::Info(
                "        ... and "@ + decimal((frames.len() - 5) as nat) + " more frames"@,
            ),
        )
    } else {
        l
    }
}

fn report_stack(log: &mut Log, frames: &Vec<StackFrame>)
    ensures
        final(log)@ == log_stack(old(log)@, frames@),
{
    let head: String = cat3(
        "      Stack trace (",
        num_usize(frames.len()).as_str(),
        " frames):",
    );
    log.info(head.as_str());
    let shown: usize = if frames.len() < 5 {
        frames.len()
    } else {
        5
    };
    let ghost base = log@;
    let mut i: usize = 0;
    while i < shown
        invariant
            i <= shown <= frames.len(),
            log@ == log_frames(base, frames@, i as nat),
        decreases shown - i,
    {
        let frame: &StackFrame = &frames[i];
        let file: &str = match &frame.file {
            Some(f) => f.as_str(),
            None => "<unknown>",
        };
        let line: u32 = match frame.line {
            Some(l) => l,
            None => 0,
        };
        let text: String = cat8(
            "        [",
            num_usize(i).as_str(),
            "] ",
            file,
            ":",
            num(line as u64).as_str(),
            " in ",
            frame.name.as_str(),
        );
        log.info(text.as_str());
        i = i + 1;
    }
    if frames.len() > 5 {
        let more: String = cat3(
            "        ... and ",
            num_usize(frames.len() - 5).as_str(),
            " more frames",
        );
        log.info(more.as_str());
    }
}

/// The text of a variable in the log: its name and at most fifty characters of its value.
pub open spec fn variable_line(kind: Seq<char>, var: SnapshotVariable) -> Seq<char> {
    kind + var.name@ + " = "@ + first_chars(var.value@, 50)
}

/// The reports on the first `n` variables.
pub open spec fn log_variables(
    log: Seq<ReportView>,
    kind: Seq<char>,
    vars: Seq<SnapshotVariable>,
    n: nat,
) -> Seq<ReportView>
    decreases n,
{
    if n == 0 {
        log
    } else {
        log_variables(log, kind, vars, (n - 1) as nat).push(
            ReportView::Info(variable_line(kind, vars[n - 1])),
        )
    }
}

/// The reports on the variables of one kind: at most `limit`, and how many more there are.
pub open spec fn log_kind(
    log: Seq<ReportView>,
    kind: Seq<char>,
    more: Seq<char>,
    vars: Seq<SnapshotVariable>,
    limit: nat,
) -> Seq<ReportView> {
    let shown = if vars.len() < limit {
        vars.len()
    } else {
        limit
    };
    let l = log_variables(log, kind, vars, shown);
    if vars.len() > limit {
        l.push(
            ReportView::Info("        ... and "@ + decimal((vars.len() - limit) as nat) + more),
        )
    } else {
        l
    }
}

fn report_kind(log: &mut Log, kind: &str, more: &str, vars: &Vec<SnapshotVariable>, limit: usize)
    ensures
        final(log)@ == log_kind(old(log)@, kind@, more@, vars@, limit as nat),
{
    let shown: usize = if vars.len() < limit {
        vars.len()
    } else {
        limit
    };
    let mut i: usize = 0;
    while i < shown
        invariant
            i <= shown <= vars.len(),
            log@ == log_variables(old(log)@, kind@, vars@, i as nat),
        decreases shown - i,
    {
        let var: &SnapshotVariable = &vars[i];
        let text: String = cat4(
            kind,
            var.name.as_str(),
            " = ",
            take_chars(var.value.as_str(), 50).as_str(),
        );
        log.info(text.as_str());
        i = i + 1;
    }
    if vars.len() > limit {
        let text: String = cat3(
            "        ... and ",
            num_usize(vars.len() - limit).as_str(),
            more,
        );
        log.info(text.as_str());
    }
}

/// The reports on a memory snapshot: its size, at most ten locals and at most five globals.
pub open spec fn log_memory(log: Seq<ReportView>, ms: MemorySnapshot) -> Seq<ReportView> {
    let head = log.push(
        ReportView::Info(
            "      Memory snapshot ("@ + decimal(ms.locals@.len()) + " locals, "@ + decimal(
                ms.globals@.len(),
            ) + " globals):"@,
        ),
    );
    log_kind(
        log_kind(head, "        local: "@, " more locals"@, ms.locals@, 10),
        "        global: "@,
        " more globals"@,
        ms.globals@,
        5,
    )
}

/// The reports on the first `n` events with introspection data.
pub open spec fn log_intro_events(
    log: Seq<ReportView>,
    events: Seq<EventInfo>,
    n: nat,
) -> Seq<ReportView>
    decreases n,
{
    if n == 0 {
        log
    } else {
        let event = events[n - 1];
        let head = log_intro_events(log, events, (n - 1) as nat).push(
            ReportView::Info(
                "    [Event "@ + decimal((n - 1) as nat) + "] value=\""@ + event.value@
                    + "\", timestamp="@ + event.timestamp_iso@ + ", is_error="@ + bool_text(
                    event.is_error,
                ),
            ),
        );
        let stack = match event.stack_trace {
            Some(st) => log_stack(head, st.frames@),
            None => head,
        };
        match event.memory_snapshot {
            Some(ms) => log_memory(stack, ms),
            None => stack,
        }
    }
}

fn report_intro_events(log: &mut Log, events: &Vec<EventInfo>)
    ensures
        final(log)@ == log_intro_events(old(log)@, events@, events@.len()),
{
    let mut i: usize = 0;
    while i < events.len()
        invariant
            i <= events.len(),
            log@ == log_intro_events(old(log)@, events@, i as nat),
        decreases events.len() - i,
    {
        let event: &EventInfo = &events[i];
        let line: String = cat8(
            "    [Event ",
            num_usize(i).as_str(),
            "] value=\"",
            event.value.as_str(),
            "\", timestamp=",
            event.timestamp_iso.as_str(),
            ", is_error=",
            bool_str(event.is_error),
        );
        log.info(line.as_str());
        match &event.stack_trace {
            Some(st) => report_stack(log, &st.frames),
            None => {},
        }
        match &event.memory_snapshot {
            Some(ms) => {
                let head: String = cat5(
                    "      Memory snapshot (",
                    num_usize(ms.locals.len()).as_str(),
                    " locals, ",
                    num_usize(ms.globals.len()).as_str(),
                    " globals):",
                );
                log.info(head.as_str());
                report_kind(log, "        local: ", " more locals", &ms.locals, 10);
                report_kind(log, "        global: ", " more globals", &ms.globals, 5);
            },
            None => {},
        }
        i = i + 1;
    }
}

/// The JSON text that an event holds for one expression, under either spelling of its key.
pub open spec fn value_json(value: JsonView) -> Seq<char> {
    let found = match value.field("valueJson"@) {
        Some(v) => Some(v),
        None => value.field("value_json"@),
    };
    match found {
        Some(v) => match v.str_value() {
            Some(s) => s,
            None => Seq::empty(),
        },
        None => Seq::empty(),
    }
}

/// The JSON text that an event holds for one expression.
pub fn value_json_text(value: &Json) -> (r: String)
    ensures
        r@ == value_json(value@),
{
    let found: Option<&Json> = match value.get("valueJson") {
        Some(v) => Some(v),
        None => value.get("value_json"),
    };
    match found {
        Some(v) => match v.as_str() {
            Some(s) => s.to_owned(),
            None => String::new(),
        },
        None => String::new(),
    }
}

/// Whether an event holds no JSON text for an expression.
pub fn value_json_is_empty(value: &Json) -> (r: bool)
    ensures
        r == (value_json(value@).len() == 0),
{
    value_json_text(value).as_str().is_empty()
}

/// The warnings on those of the first `n` values that are empty.
pub open spec fn log_empty_values(
    log: Seq<ReportView>,
    values: Seq<JsonView>,
    n: nat,
) -> Seq<ReportView>
    decreases n,
{
    if n == 0 {
        log
    } else {
        let l = log_empty_values(log, values, (n - 1) as nat);
        if value_json(values[n - 1]).len() == 0 {
            l.push(
                ReportView::Warn(
                    "  Expression ["@ + decimal((n - 1) as nat) + "] has empty valueJson: "@
                        + debug_json(values[n - 1]),
                ),
            )
        } else {
            l
        }
    }
}

/// No value is empty.
pub open spec fn all_values_present(values: Seq<JsonView>) -> bool {
    forall|i: int| 0 <= i < values.len() ==> value_json(#[trigger] values[i]).len() > 0
}

fn report_empty_values(log: &mut Log, values: &Vec<Json>) -> (all_valid: bool)
    ensures
        final(log)@ == log_empty_values(old(log)@, json_views(values@), values@.len()),
        all_valid == all_values_present(json_views(values@)),
{
    let mut all_valid: bool = true;
    let mut i: usize = 0;
    let ghost vs = json_views(values@);
    while i < values.len()
        invariant
            i <= values.len(),
            vs == json_views(values@),
            log@ == log_empty_values(old(log)@, vs, i as nat),
            all_valid == (forall|j: int| 0 <= j < i ==> value_json(#[trigger] vs[j]).len() > 0),
        decreases values.len() - i,
    {
        assert(vs[i as int] == values@[i as int]@);
        if value_json_is_empty(&values[i]) {
            let text: String = cat4(
                "  Expression [",
                num_usize(i).as_str(),
                "] has empty valueJson: ",
                format_json_debug(&values[i]).as_str(),
            );
            log.warn(text.as_str());
            all_valid = false;
        }
        i = i + 1;
    }
    all_valid
}

/// The reports on the metric list of a metric with several expressions.
pub open spec fn log_multi_list(
    log: Seq<ReportView>,
    metric: MetricPoint,
    list: Seq<MetricInfo>,
) -> Seq<ReportView> {
    let k = metric_index(list, metric.name@);
    if k < list.len() {
        let exprs = list[k as int].expressions@;
        if exprs.len() == expression_count(metric) {
            log.push(
                success(
                    "Multi-expr metric '"@ + metric.name@ + "' has "@ + decimal(exprs.len())
                        + " expressions: ["@ + joined(views(exprs), ", "@) + "]"@,
                ),
            )
        } else {
            log.push(
                ReportView::Warn(
                    "Multi-expr metric '"@ + metric.name@ + "' has "@ + decimal(exprs.len())
                        + " expressions (expected "@ + decimal(expression_count(metric))
                        + "): ["@ + joined(views(exprs), ", "@) + "]"@,
                ),
            )
        }
    } else {
        log.push(
            ReportView::Warn("Multi-expr metric '"@ + metric.name@ + "' not found in list"@),
        )
    }
}

fn report_multi_list(log: &mut Log, metric: &MetricPoint, list: &Vec<MetricInfo>)
    requires
        metric.extra_expressions.len() < usize::MAX,
    ensures
        final(log)@ == log_multi_list(old(log)@, *metric, list@),
{
    let expected: usize = 1 + metric.extra_expressions.len();
    let k: usize = find_metric(list, metric.name.as_str());
    if k < list.len() {
        let exprs: &Vec<String> = &list[k].expressions;
        let shown: String = join(exprs, ", ");
        if exprs.len() == expected {
            let text: String = cat7(
                "Multi-expr metric '",
                metric.name.as_str(),
                "' has ",
                num_usize(exprs.len()).as_str(),
                " expressions: [",
                shown.as_str(),
                "]",
            );
            log.success(text.as_str());
        } else {
            let text: String = cat9(
                "Multi-expr metric '",
                metric.name.as_str(),
                "' has ",
                num_usize(exprs.len()).as_str(),
                " expressions (expected ",
                num_usize(expected).as_str(),
                "): [",
                shown.as_str(),
                "]",
            );
            log.warn(text.as_str());
        }
    } else {
        let text: String = cat3(
            "Multi-expr metric '",
            metric.name.as_str(),
            "' not found in list",
        );
        log.warn(text.as_str());
    }
}

/// The reports on the events of a metric with several expressions.
pub open spec fn log_multi_events(
    log: Seq<ReportView>,
    metric: MetricPoint,
    events: Seq<EventInfo>,
) -> Seq<ReportView> {
    if events.len() > 0 {
        let values = json_views(events[0].values@);
        let l = log.push(
            ReportView::Info(
                "  Event values count="@ + decimal(values.len()) + ", values="@ + debug_json_list(
                    values,
                ),
            ),
        );
        if values.len() >= expression_count(metric) {
            let w = log_empty_values(l, values, values.len());
            if all_values_present(values) {
                w.push(
                    success(
                        "Multi-expr metric '"@ + metric.name@ + "' events have "@ + decimal(
                            values.len(),
                        ) + " values, all non-empty"@,
                    ),
                )
            } else {
                w.push(
                    ReportView::Warn(
                        "Multi-expr metric '"@ + metric.name@
                            + "' has some empty expression values"@,
                    ),
                )
            }
        } else {
            l.push(
                ReportView::Warn(
                    "Multi-expr metric '"@ + metric.name@ + "' events have "@ + decimal(
                        values.len(),
                    ) + " values (expected "@ + decimal(expression_count(metric)) + ")"@,
                ),
            )
        }
    } else {
        log.push(
            ReportView::Warn("No events found for multi-expr metric '"@ + metric.name@ + "'"@),
        )
    }
}

fn report_multi_events(log: &mut Log, metric: &MetricPoint, events: &Vec<EventInfo>)
    requires
        metric.extra_expressions.len() < usize::MAX,
    ensures
        final(log)@ == log_multi_events(old(log)@, *metric, events@),
{
    let expected: usize = 1 + metric.extra_expressions.len();
    if events.len() > 0 {
        let values: &Vec<Json> = &events[0].values;
        let text: String = cat4(
            "  Event values count=",
            num_usize(values.len()).as_str(),
            ", values=",
            format_json_list_debug(values).as_str(),
        );
        log.info(text.as_str());
        if values.len() >= expected {
            if report_empty_values(log, values) {
                let text: String = cat5(
                    "Multi-expr metric '",
                    metric.name.as_str(),
                    "' events have ",
                    num_usize(values.len()).as_str(),
                    " values, all non-empty",
                );
                log.success(text.as_str());
            } else {
                let text: String = cat3(
                    "Multi-expr metric '",
                    metric.name.as_str(),
                    "' has some empty expression values",
                );
                log.warn(text.as_str());
            }
        } else {
            let text: String = cat7(
                "Multi-expr metric '",
                metric.name.as_str(),
                "' events have ",
                num_usize(values.len()).as_str(),
                " values (expected ",
                num_usize(expected).as_str(),
                ")",
            );
            log.warn(text.as_str());
        }
    } else {
        let text: String = cat3(
            "No events found for multi-expr metric '",
            metric.name.as_str(),
            "'",
        );
        log.warn(text.as_str());
    }
}

// ---------------------------------------------------------------------------
// The machine, as a function
// ---------------------------------------------------------------------------

impl Phase {
    /// The kind of event that the phase waits for.
    pub open spec fn answer(self) -> EventKind {
        match self {
            Phase::Health => EventKind::Health,
            Phase::Connect => EventKind::Connection,
            Phase::InspectCode | Phase::InspectVariable | Phase::AddMetric { .. }
            | Phase::AddInvalid | Phase::IntroAdd { .. } => EventKind::Text,
            Phase::EnableGroup | Phase::DisableGroup => EventKind::Count,
            Phase::WaitTimer | Phase::IntroTimer => EventKind::Timer,
            Phase::MultiList { .. } => EventKind::Metrics,
            Phase::WaitPoll { .. } | Phase::WaitMissing { .. } | Phase::MultiEvents { .. }
            | Phase::BaselineFirst | Phase::BaselineOther { .. } | Phase::VerifyStopped { .. }
            | Phase::VerifyOther { .. } | Phase::BaselineAll { .. } | Phase::VerifyGroup { .. }
            | Phase::IntroPoll { .. } => EventKind::Events,
            Phase::ToggleFirst { .. } | Phase::IntroRemove { .. } | Phase::Remove { .. }
            | Phase::RemoveInvalid | Phase::Close => EventKind::Done,
            Phase::Handshake | Phase::WaitPause | Phase::SettleFirst { .. } | Phase::SettleGroup
            | Phase::IntroPause | Phase::Finished => EventKind::Paused,
        }
    }
}

/// The run ends with an error that its open step reports too.
pub open spec fn abort(s: WorkflowState, log: Seq<ReportView>, error: Seq<char>) -> WorkflowTurn {
    fail(s.at(Phase::Finished), log.push(failed(error)), error)
}

/// The run begins.
pub open spec fn at_health(setup: WorkflowSetup, s: WorkflowState, log: Seq<ReportView>) -> WorkflowTurn {
    ask(
        s.at(Phase::Health),
        log.push(
            ReportView::Section("PHASE 1: SETUP & CONNECTION ("@ + setup.adapter@ + ")"@),
        ).push(start("Health Check"@, "Verify API is healthy"@)),
        ActionView::Health,
    )
}

/// The run connects to the debugger.
pub open spec fn at_connect(setup: WorkflowSetup, s: WorkflowState, log: Seq<ReportView>) -> WorkflowTurn {
    let port = decimal(setup.debugger_port as nat);
    let language = api_name(setup.config.language);
    ask(
        s.at(Phase::Connect),
        log.push(
            start(
                "Create Connection"@,
                "Connect to "@ + setup.adapter@ + " at 127.0.0.1:"@ + port,
            ),
        ).push(
            request(
                "create_connection"@,
                "port="@ + port + ", language="@ + language + ", program="@ + debug_opt_text(
                    opt_view(setup.program),
                ),
            ),
        ),
        ActionView::CreateConnection(
            "127.0.0.1"@,
            setup.debugger_port,
            language,
            opt_view(setup.program),
        ),
    )
}

/// The run looks at the code around the line of interest.
pub open spec fn at_inspect_code(setup: WorkflowSetup, s: WorkflowState, log: Seq<ReportView>) -> WorkflowTurn {
    let line = decimal(setup.config.inspect_line as nat);
    ask(
        s.at(Phase::InspectCode),
        log.push(ReportView::Section("PHASE 2: CODE INSPECTION"@)).push(
            start(
                "Inspect Code"@,
                "View code around line "@ + line + " in "@ + setup.config.source_file@,
            ),
        ).push(
            request("inspect_file"@, "file="@ + setup.source_path@ + ", line="@ + line),
        ),
        ActionView::InspectFile(setup.source_path@, Some(setup.config.inspect_line), None),
    )
}

/// The run looks for the variable of interest.
pub open spec fn at_inspect_variable(setup: WorkflowSetup, s: WorkflowState, log: Seq<ReportView>) -> WorkflowTurn {
    let variable = setup.config.inspect_variable@;
    ask(
        s.at(Phase::InspectVariable),
        log.push(
            start(
                "Inspect Variable"@,
                "Check if '"@ + variable + "' is in scope at line "@ + decimal(
                    setup.config.inspect_line as nat,
                ),
            ),
        ).push(
            request("inspect_file"@, "file="@ + setup.source_path@ + ", variable="@ + variable),
        ),
        ActionView::InspectFile(setup.source_path@, None, Some(variable)),
    )
}

/// The run adds the metric at a position, or goes on to the invalid one behind the last.
pub open spec fn at_add_metric(
    setup: WorkflowSetup,
    s: WorkflowState,
    log: Seq<ReportView>,
    index: usize,
) -> WorkflowTurn {
    if index < setup.metrics().len() {
        let m = setup.metrics()[index as int];
        ask(
            s.at(Phase::AddMetric { index }),
            log.push(
                start(
                    "Add Metric (Disabled)"@,
                    "Add '"@ + m.name@ + "' at line "@ + decimal(m.line as nat) + " for '"@
                        + m.expression@ + "' (disabled, will enable via group)"@,
                ),
            ).push(
                request(
                    "add_metric"@,
                    "name="@ + m.name@ + ", location="@ + location_text(setup.source_path@, m.line)
                        + ", expr="@ + m.expression@ + ", enabled=false"@,
                ),
            ),
            ActionView::AddMetric(metric_request(setup, m, s.connection_id)),
        )
    } else {
        at_add_invalid(setup, s, log)
    }
}

/// The run tries to add the invalid metric, if there is one.
pub open spec fn at_add_invalid(setup: WorkflowSetup, s: WorkflowState, log: Seq<ReportView>) -> WorkflowTurn {
    match setup.config.invalid_metric {
        Some(m) => ask(
            s.at(Phase::AddInvalid),
            log.push(
                start(
                    "Add Invalid Metric"@,
                    if setup.scope_validation {
                        "Try adding metric for variable not in scope - MUST fail"@
                    } else {
                        "Try adding metric for variable not in scope - may or may not fail"@
                    },
                ),
            ).push(
                request(
                    "add_metric"@,
                    "name="@ + m.name@ + ", expr="@ + m.expression@ + " (NOT IN SCOPE)"@,
                ),
            ),
            ActionView::AddMetric(invalid_request(setup, m, s.connection_id)),
        ),
        None => at_enable_group(setup, s, log),
    }
}

/// The run enables the group.
pub open spec fn at_enable_group(setup: WorkflowSetup, s: WorkflowState, log: Seq<ReportView>) -> WorkflowTurn {
    let group = setup.config.group_name@;
    ask(
        s.at(Phase::EnableGroup),
        log.push(ReportView::Section("PHASE 4: ENABLE GROUP & CAPTURE EVENTS"@)).push(
            start(
                "Enable Group"@,
                "Enable '"@ + group + "' (expecting "@ + decimal(setup.metrics().len())
                    + " metrics to be enabled)"@,
            ),
        ).push(request("enable_group"@, group)),
        ActionView::EnableGroup(group),
    )
}

/// The run begins to wait for events.
pub open spec fn at_wait(setup: WorkflowSetup, s: WorkflowState, log: Seq<ReportView>) -> WorkflowTurn {
    ask(
        s.at(Phase::WaitTimer),
        log.push(
            start(
                "Wait for Events"@,
                "Wait for metrics to capture data (up to "@ + decimal(
                    setup.config.event_wait_secs as nat,
                ) + "s)"@,
            ),
        ).push(
            ReportView::Info(
                "Target runs every ~"@ + decimal(setup.config.iteration_duration_ms as nat)
                    + "ms..."@,
            ),
        ),
        ActionView::CheckTimer(true, setup.config.event_wait_secs),
    )
}

/// The run asks for the events of the metric at a position; behind the last one it goes on if
/// every metric has events, and pauses otherwise.
pub open spec fn at_wait_poll(
    setup: WorkflowSetup,
    s: WorkflowState,
    log: Seq<ReportView>,
    index: usize,
    total: usize,
    active: usize,
) -> WorkflowTurn {
    let n = setup.metrics().len();
    if index < n {
        ask(
            s.at(Phase::WaitPoll { index, total, active }),
            log,
            ActionView::QueryEvents(setup.metrics()[index as int].name@, 100),
        )
    } else if active == n {
        at_multi(
            setup,
            WorkflowState { result: WorkflowResult { total_events: total, ..s.result }, ..s },
            log.push(
                success(
                    decimal(total as nat) + " total events captured ("@ + decimal(active as nat)
                        + "/"@ + decimal(n) + " metrics active)"@,
                ),
            ),
            0,
        )
    } else {
        ask(s.at(Phase::WaitPause), log, ActionView::Pause(2000))
    }
}

/// The time is up: the run asks once more for the events of the metric at a position; behind
/// the last one it fails if a metric has none.
pub open spec fn at_wait_missing(
    setup: WorkflowSetup,
    s: WorkflowState,
    log: Seq<ReportView>,
    index: usize,
) -> WorkflowTurn {
    if index < setup.metrics().len() {
        ask(
            s.at(Phase::WaitMissing { index }),
            log,
            ActionView::QueryEvents(setup.metrics()[index as int].name@, 100),
        )
    } else if s.missing.len() > 0 {
        abort(
            s,
            log,
            "Timeout: metrics failed to capture events after "@ + decimal(
                setup.config.event_wait_secs as nat,
            ) + "s: "@ + joined(s.missing, ", "@)
                + ". All metrics must capture at least one event for isolation tests to work."@,
        )
    } else {
        at_multi(setup, s, log, 0)
    }
}

/// The run checks the first metric with several expressions at or behind a position.
pub open spec fn at_multi(
    setup: WorkflowSetup,
    s: WorkflowState,
    log: Seq<ReportView>,
    index: usize,
) -> WorkflowTurn
    decreases setup.metrics().len() - index,
{
    if index < setup.metrics().len() && index < usize::MAX {
        let m = setup.metrics()[index as int];
        if m.extra_expressions@.len() == 0 {
            at_multi(setup, s, log, (index + 1) as usize)
        } else {
            ask(
                s.at(Phase::MultiList { index }),
                log.push(
                    start(
                        "Verify Multi-Expr Metric"@,
                        "Check '"@ + m.name@ + "' has "@ + decimal(expression_count(m))
                            + " expressions"@,
                    ),
                ),
                ActionView::ListMetrics,
            )
        }
    } else {
        at_baseline_first(setup, s, log)
    }
}

/// The run turns to the first metric, if there is one.
pub open spec fn at_baseline_first(
    setup: WorkflowSetup,
    s: WorkflowState,
    log: Seq<ReportView>,
) -> WorkflowTurn {
    let l = log.push(ReportView::Section("PHASE 5: DISABLE INDIVIDUAL METRIC"@));
    if setup.metrics().len() > 0 {
        ask(
            s.at(Phase::BaselineFirst),
            l,
            ActionView::QueryEvents(setup.metrics()[0].name@, 100),
        )
    } else {
        at_baselines(setup, s, l)
    }
}

/// The run disables the first metric.
pub open spec fn at_toggle(
    setup: WorkflowSetup,
    s: WorkflowState,
    log: Seq<ReportView>,
    first: usize,
    other: usize,
) -> WorkflowTurn {
    let name = setup.metrics()[0].name@;
    ask(
        s.at(Phase::ToggleFirst { first, other }),
        log.push(
            start("Disable One Metric"@, "Disable '"@ + name + "' (should stop capturing)"@),
        ).push(request("toggle_metric"@, "name="@ + name + ", enabled=false"@)),
        ActionView::ToggleMetric(name, false),
    )
}

/// The run checks that the second metric, if there is one, goes on.
pub open spec fn at_verify_other(
    setup: WorkflowSetup,
    s: WorkflowState,
    log: Seq<ReportView>,
    other: usize,
) -> WorkflowTurn {
    if setup.metrics().len() > 1 {
        let name = setup.metrics()[1].name@;
        ask(
            s.at(Phase::VerifyOther { other }),
            log.push(
                start(
                    "Verify Others Continue"@,
                    "Check that '"@ + name + "' still captures events"@,
                ),
            ),
            ActionView::QueryEvents(name, 100),
        )
    } else {
        at_baselines(setup, s, log)
    }
}

/// The run turns to the whole group.
pub open spec fn at_baselines(setup: WorkflowSetup, s: WorkflowState, log: Seq<ReportView>) -> WorkflowTurn {
    at_baseline(
        setup,
        WorkflowState { baselines: Seq::empty(), ..s },
        log.push(ReportView::Section("PHASE 6: DISABLE ENTIRE GROUP"@)),
        0,
    )
}

/// The run counts the events of the metric at a position; behind the last one it disables the
/// group.
pub open spec fn at_baseline(
    setup: WorkflowSetup,
    s: WorkflowState,
    log: Seq<ReportView>,
    index: usize,
) -> WorkflowTurn {
    if index < setup.metrics().len() {
        ask(
            s.at(Phase::BaselineAll { index }),
            log,
            ActionView::QueryEvents(setup.metrics()[index as int].name@, 100),
        )
    } else {
        let group = setup.config.group_name@;
        ask(
            s.at(Phase::DisableGroup),
            log.push(
                start("Disable Group"@, "Disable '"@ + group + "' (all metrics should stop)"@),
            ).push(request("disable_group"@, group)),
            ActionView::DisableGroup(group),
        )
    }
}

/// The run counts the events of the metric at a position again; behind the last one it fails if
/// a metric went on.
pub open spec fn at_verify_group(
    setup: WorkflowSetup,
    s: WorkflowState,
    log: Seq<ReportView>,
    index: usize,
) -> WorkflowTurn {
    if index < setup.metrics().len() {
        ask(
            s.at(Phase::VerifyGroup { index }),
            log,
            ActionView::QueryEvents(setup.metrics()[index as int].name@, 100),
        )
    } else if s.capturing.len() > 0 {
        abort(
            s,
            log,
            "Metrics still capturing after group disabled: "@ + joined(s.capturing, ", "@),
        )
    } else {
        at_introspection(
            setup,
            s,
            log.push(success("Metrics stopped capturing after group disabled"@)),
        )
    }
}

/// The run turns to introspection, if the configuration has metrics for it.
pub open spec fn at_introspection(
    setup: WorkflowSetup,
    s: WorkflowState,
    log: Seq<ReportView>,
) -> WorkflowTurn {
    if setup.intro().len() > 0 {
        at_intro_add(
            setup,
            s,
            log.push(
                ReportView::Section("PHASE 7: INTROSPECTION (STACK TRACE & MEMORY SNAPSHOT)"@),
            ),
            0,
        )
    } else {
        at_cleanup(setup, s, log)
    }
}

/// The run adds the introspection metric at a position; behind the last one it waits for their
/// events if one was added.
pub open spec fn at_intro_add(
    setup: WorkflowSetup,
    s: WorkflowState,
    log: Seq<ReportView>,
    index: usize,
) -> WorkflowTurn {
    if index < setup.intro().len() {
        let m = setup.intro()[index as int];
        ask(
            s.at(Phase::IntroAdd { index }),
            log.push(
                start(
                    "Add Introspection Metric"@,
                    "Add '"@ + m.name@ + "' with "@ + feature(m) + " at line "@ + decimal(
                        m.line as nat,
                    ),
                ),
            ),
            ActionView::AddMetric(introspection_request(setup, m, s.connection_id)),
        )
    } else if s.result.introspection_metrics_added > 0 {
        ask(
            s.at(Phase::IntroTimer),
            log.push(
                start(
                    "Wait for Introspection Events"@,
                    "Wait for events with introspection data (up to "@ + decimal(
                        (setup.config.event_wait_secs / 2) as nat,
                    ) + "s)"@,
                ),
            ),
            ActionView::CheckTimer(true, setup.config.event_wait_secs / 2),
        )
    } else {
        at_intro_remove(setup, s, log, 0)
    }
}

/// The run asks for the events of the introspection metric at a position; behind the last one
/// it goes on if there are as many events as metrics, and pauses otherwise.
pub open spec fn at_intro_poll(
    setup: WorkflowSetup,
    s: WorkflowState,
    log: Seq<ReportView>,
    index: usize,
    total: usize,
    stacks: usize,
    memories: usize,
) -> WorkflowTurn {
    if index < setup.intro().len() {
        ask(
            s.at(Phase::IntroPoll { index, total, stacks, memories }),
            log,
            ActionView::QueryEvents(setup.intro()[index as int].name@, 100),
        )
    } else {
        let t = WorkflowState {
            result: WorkflowResult {
                introspection_events: total,
                stack_trace_events: stacks,
                memory_snapshot_events: memories,
                ..s.result
            },
            ..s
        };
        if total >= setup.intro().len() {
            at_intro_verify(
                setup,
                t,
                log.push(
                    success(
                        decimal(total as nat) + " introspection events captured (stack_trace: "@
                            + decimal(stacks as nat) + ", memory_snapshot: "@ + decimal(
                            memories as nat,
                        ) + ")"@,
                    ),
                ),
            )
        } else {
            ask(t.at(Phase::IntroPause), log, ActionView::Pause(2000))
        }
    }
}

/// The run says whether introspection gave events, and removes the metrics.
pub open spec fn at_intro_verify(
    setup: WorkflowSetup,
    s: WorkflowState,
    log: Seq<ReportView>,
) -> WorkflowTurn {
    let l = log.push(
        start("Verify Introspection"@, "Verify that introspection data was captured"@),
    );
    at_intro_remove(
        setup,
        s,
        if s.result.introspection_events > 0 {
            l.push(
                success(
                    "Introspection working: "@ + decimal(s.result.introspection_events as nat)
                        + " total events (stack_trace: "@ + decimal(
                        s.result.stack_trace_events as nat,
                    ) + ", memory_snapshot: "@ + decimal(s.result.memory_snapshot_events as nat)
                        + ")"@,
                ),
            )
        } else {
            l.push(
                ReportView::Warn(
                    "No introspection events captured - this may be expected if DAP adapter doesn't support introspection"@,
                ),
            )
        },
        0,
    )
}

/// The run removes the introspection metric at a position.
pub open spec fn at_intro_remove(
    setup: WorkflowSetup,
    s: WorkflowState,
    log: Seq<ReportView>,
    index: usize,
) -> WorkflowTurn {
    if index < setup.intro().len() {
        ask(
            s.at(Phase::IntroRemove { index }),
            log,
            ActionView::RemoveMetric(setup.intro()[index as int].name@),
        )
    } else {
        at_cleanup(setup, s, log)
    }
}

/// The run cleans up.
pub open spec fn at_cleanup(setup: WorkflowSetup, s: WorkflowState, log: Seq<ReportView>) -> WorkflowTurn {
    at_remove(setup, s, log.push(ReportView::Section("PHASE 8: CLEANUP"@)), 0)
}

/// The run removes the metric at a position, and behind the last one the invalid metric.
pub open spec fn at_remove(
    setup: WorkflowSetup,
    s: WorkflowState,
    log: Seq<ReportView>,
    index: usize,
) -> WorkflowTurn {
    if index < setup.metrics().len() {
        let name = setup.metrics()[index as int].name@;
        ask(
            s.at(Phase::Remove { index }),
            log.push(start("Remove Metric"@, "Remove '"@ + name + "'"@)),
            ActionView::RemoveMetric(name),
        )
    } else {
        match setup.config.invalid_metric {
            Some(m) => ask(s.at(Phase::RemoveInvalid), log, ActionView::RemoveMetric(m.name@)),
            None => at_close(setup, s, log),
        }
    }
}

/// The run closes its connection.
pub open spec fn at_close(setup: WorkflowSetup, s: WorkflowState, log: Seq<ReportView>) -> WorkflowTurn {
    ask(
        s.at(Phase::Close),
        log.push(start("Close Connection"@, "Close '"@ + s.connection_id + "'"@)),
        ActionView::CloseConnection(s.connection_id),
    )
}

/// The run sums up.
pub open spec fn at_summary(setup: WorkflowSetup, s: WorkflowState, log: Seq<ReportView>) -> WorkflowTurn {
    let l = log.push(
        ReportView::Section("WORKFLOW COMPLETE ("@ + setup.adapter@ + ")"@),
    ).push(ReportView::Info("Metrics added: "@ + decimal(s.result.metrics_added as nat))).push(
        ReportView::Info("Total events captured: "@ + decimal(s.result.total_events as nat)),
    );
    finish(
        s.at(Phase::Finished),
        if s.result.introspection_metrics_added > 0 {
            l.push(
                ReportView::Info(
                    "Introspection metrics: "@ + decimal(
                        s.result.introspection_metrics_added as nat,
                    ) + " (events: "@ + decimal(s.result.introspection_events as nat)
                        + ", stack_trace: "@ + decimal(s.result.stack_trace_events as nat)
                        + ", memory_snapshot: "@ + decimal(s.result.memory_snapshot_events as nat)
                        + ")"@,
                ),
            )
        } else {
            l
        },
        s.result,
    )
}

/// The invalid metric was answered.
pub open spec fn on_invalid(
    setup: WorkflowSetup,
    s: WorkflowState,
    log: Seq<ReportView>,
    invalid: MetricPoint,
    event: Event,
) -> WorkflowTurn {
    match event {
        Event::Text(Ok(r)) => if setup.scope_validation {
            fail(
                s.at(Phase::Finished),
                log.push(
                    response(
                        "ERROR"@,
                        "Added anyway (id="@ + r.data@ + ") but should have failed!"@,
                    ),
                ).push(failed("Scope validation should have rejected invalid variable"@)),
                "Invalid metric '"@ + invalid.name@ + "' was accepted but "@ + setup.adapter@
                    + " supports scope validation"@,
            )
        } else {
            at_enable_group(
                setup,
                s,
                log.push(response("OK"@, "Added anyway (id="@ + r.data@ + ")"@)).push(
                    ReportView::Warn(
                        "Scope validation not supported for this language (expected)"@,
                    ),
                ),
            )
        },
        Event::Text(Err(e)) => at_enable_group(
            setup,
            s,
            if has_text(e.message@, "not in scope"@) || has_text(e.message@, "Invalid"@) {
                log.push(response("ERROR"@, "Variable not in scope (expected)"@)).push(
                    success("Scope validation correctly rejected invalid variable"@),
                )
            } else {
                log.push(response("ERROR"@, e.message@)).push(
                    success("Metric rejected (possibly for different reason)"@),
                )
            },
        ),
        _ => at_enable_group(setup, s, log),
    }
}

/// The group was enabled, or not.
pub open spec fn on_enabled(
    setup: WorkflowSetup,
    s: WorkflowState,
    log: Seq<ReportView>,
    event: Event,
) -> WorkflowTurn {
    match event {
        Event::Count(Ok(r)) => {
            let expected = setup.metrics().len();
            let text = decimal(r.data as nat) + " metrics enabled"@;
            let l = log.push(response("OK"@, text));
            if r.data != expected {
                abort(
                    s,
                    l,
                    if r.data == 0 {
                        "enable_group returned 0 metrics - expected "@ + decimal(expected)
                            + " to be enabled. This indicates group name mismatch or metrics not saved with correct group."@
                    } else {
                        "enable_group returned "@ + decimal(r.data as nat) + " metrics - expected "@
                            + decimal(expected) + " to be enabled"@
                    },
                )
            } else {
                at_wait(setup, s, l.push(success(text)))
            }
        },
        Event::Count(Err(e)) => fail(
            s.at(Phase::Finished),
            log.push(failed(e.message@)),
            "Failed to enable group: "@ + e.message@,
        ),
        _ => at_wait(setup, s, log),
    }
}

/// The first metric was counted after it was disabled.
pub open spec fn on_stopped(
    setup: WorkflowSetup,
    s: WorkflowState,
    log: Seq<ReportView>,
    first: usize,
    other: usize,
    count: usize,
) -> WorkflowTurn {
    let ms = setup.config.iteration_duration_ms;
    let threshold = sat_sum(first, allowance(single_wait(ms), ms));
    let numbers = "before="@ + decimal(first as nat) + ", after="@ + decimal(count as nat)
        + ", threshold="@ + decimal(threshold as nat) + ")"@;
    if count <= threshold {
        at_verify_other(setup, s, log.push(success("Metric capture reduced ("@ + numbers)), other)
    } else {
        abort(
            s,
            log,
            "Disabled metric '"@ + setup.metrics()[0].name@
                + "' still capturing too many events ("@ + numbers,
        )
    }
}

/// The second metric was counted after the first was disabled.
pub open spec fn on_other(
    setup: WorkflowSetup,
    s: WorkflowState,
    log: Seq<ReportView>,
    other: usize,
    count: usize,
) -> WorkflowTurn {
    let name = setup.metrics()[1].name@;
    if count > other {
        at_baselines(
            setup,
            s,
            log.push(
                success(
                    "Other metric still capturing (before="@ + decimal(other as nat) + ", after="@
                        + decimal(count as nat) + ")"@,
                ),
            ),
        )
    } else if other == 0 {
        abort(
            s,
            log,
            "Cannot verify metric isolation: '"@ + name
                + "' had no events before disable (baseline=0). All metrics must capture at least one event during Phase 4 for isolation tests to work. Check that the metric line number is on a real executable statement."@,
        )
    } else {
        let error = "Other metric stopped capturing after single metric disable (before="@
            + decimal(other as nat) + ", after="@ + decimal(count as nat)
            + "). Disabling metric '"@ + setup.metrics()[0].name@
            + "' caused other metric '"@ + name
            + "' to stop capturing events. This indicates a bug - disabling one metric should not affect others."@;
        fail(s.at(Phase::Finished), log.push(ReportView::Error(error)), error)
    }
}

/// What a metric is reported as that went on capturing.
pub open spec fn capturing_text(name: Seq<char>, baseline: usize, count: usize, threshold: usize) -> Seq<char> {
    "'"@ + name + "' (before="@ + decimal(baseline as nat) + ", after="@ + decimal(count as nat)
        + ", threshold="@ + decimal(threshold as nat) + ")"@
}

/// A metric was counted after the group was disabled.
pub open spec fn on_group_counted(
    setup: WorkflowSetup,
    s: WorkflowState,
    log: Seq<ReportView>,
    index: usize,
    count: usize,
) -> WorkflowTurn {
    let ms = setup.config.iteration_duration_ms;
    let baseline = s.baselines[index as int];
    let threshold = sat_sum(baseline, allowance((ms * 2) as u64, ms));
    at_verify_group(
        setup,
        if count > threshold {
            WorkflowState {
                capturing: s.capturing.push(
                    capturing_text(setup.metrics()[index as int].name@, baseline, count, threshold),
                ),
                ..s
            }
        } else {
            s
        },
        log,
        (index + 1) as usize,
    )
}

/// The reports on a removed metric or a closed connection: it never ends the run.
pub open spec fn log_done(log: Seq<ReportView>, event: Event, text: Seq<char>) -> Seq<ReportView> {
    match event {
        Event::Done(Ok(_)) => log.push(success(text)),
        Event::Done(Err(e)) => log.push(failed(e.message@)),
        _ => log,
    }
}

/// How a run goes on after an event.
pub open spec fn on_event(setup: WorkflowSetup, s: WorkflowState, event: Event) -> WorkflowTurn {
    let log = Seq::<ReportView>::empty();
    match s.phase {
        Phase::Health => match event {
            Event::Health(Ok(true)) => at_connect(setup, s, log.push(success("API healthy"@))),
            Event::Health(Ok(false)) => abort(s, log, "API unhealthy"@),
            Event::Health(Err(e)) => fail(
                s.at(Phase::Finished),
                log.push(failed(e.message@)),
                "Health check failed: "@ + e.message@,
            ),
            _ => arbitrary(),
        },
        Phase::Connect => match event {
            Event::Connection(Ok(r)) => {
                let id = r.data.connection_id@;
                ask(
                    WorkflowState { connection_id: id, ..s }.at(Phase::Handshake),
                    log.push(response("OK"@, "id="@ + id)).push(success("Connected: "@ + id)),
                    ActionView::Pause(2000),
                )
            },
            Event::Connection(Err(e)) => fail(
                s.at(Phase::Finished),
                log.push(failed(e.message@)),
                "Failed to connect: "@ + e.message@,
            ),
            _ => arbitrary(),
        },
        Phase::Handshake => at_inspect_code(setup, s, log),
        Phase::InspectCode => at_inspect_variable(
            setup,
            s,
            match event {
                Event::Text(Ok(r)) => {
                    let l = log.push(
                        response("OK"@, decimal(byte_len(r.data@) as nat) + " chars of context"@),
                    );
                    (if r.data@.len() > 0 {
                        l.push(
                            ReportView::Info(
                                "Code preview: "@ + first_chars(r.data@, 100) + "..."@,
                            ),
                        )
                    } else {
                        l
                    }).push(success("Code context retrieved"@))
                },
                Event::Text(Err(e)) => log.push(failed(e.message@)).push(
                    ReportView::Warn("Continuing without code inspection..."@),
                ),
                _ => log,
            },
        ),
        Phase::InspectVariable => at_add_metric(
            setup,
            s,
            (match event {
                Event::Text(Ok(r)) => log.push(
                    response("OK"@, decimal(byte_len(r.data@) as nat) + " chars"@),
                ).push(success("Variable info retrieved"@)),
                Event::Text(Err(e)) => log.push(failed(e.message@)).push(
                    ReportView::Warn("Continuing without variable inspection..."@),
                ),
                _ => log,
            }).push(ReportView::Section("PHASE 3: ADD METRICS TO GROUP"@)),
            0,
        ),
        Phase::AddMetric { index } => {
            let name = setup.metrics()[index as int].name@;
            match event {
                Event::Text(Ok(r)) => at_add_metric(
                    setup,
                    WorkflowState {
                        result: WorkflowResult {
                            metrics_added: (s.result.metrics_added + 1) as usize,
                            ..s.result
                        },
                        ..s
                    },
                    log.push(response("OK"@, "id="@ + r.data@ + " (disabled)"@)).push(
                        success("Added '"@ + name + "' as disabled (id="@ + r.data@ + ")"@),
                    ),
                    (index + 1) as usize,
                ),
                Event::Text(Err(e)) => fail(
                    s.at(Phase::Finished),
                    log.push(failed(e.message@)),
                    "Failed to add metric '"@ + name + "': "@ + e.message@,
                ),
                _ => arbitrary(),
            }
        },
        Phase::AddInvalid => on_invalid(setup, s, log, setup.config.invalid_metric->0, event),
        Phase::EnableGroup => on_enabled(setup, s, log, event),
        Phase::WaitTimer => match event {
            Event::Timer { expired: true } => at_wait_missing(
                setup,
                WorkflowState { missing: Seq::empty(), ..s },
                log,
                0,
            ),
            _ => at_wait_poll(setup, s, log, 0, 0, 0),
        },
        Phase::WaitPoll { index, total, active } => {
            let n = (index + 1) as usize;
            match event {
                Event::Events(Ok(r)) => {
                    let count = r.data@.len() as usize;
                    if count > 0 {
                        at_wait_poll(
                            setup,
                            s,
                            log_events(
                                log.push(
                                    ReportView::Info(
                                        "  "@ + setup.metrics()[index as int].name@ + " captured "@
                                            + decimal(count as nat) + " event(s)"@,
                                    ),
                                ),
                                r.data@,
                                r.data@.len(),
                            ),
                            n,
                            sat_sum(total, count),
                            (active + 1) as usize,
                        )
                    } else {
                        at_wait_poll(setup, s, log, n, total, active)
                    }
                },
                _ => at_wait_poll(setup, s, log, n, total, active),
            }
        },
        Phase::WaitPause => ask(
            s.at(Phase::WaitTimer),
            log,
            ActionView::CheckTimer(false, setup.config.event_wait_secs),
        ),
        Phase::WaitMissing { index } => at_wait_missing(
            setup,
            if event_count(event->Events_0) == 0 {
                WorkflowState {
                    missing: s.missing.push(setup.metrics()[index as int].name@),
                    ..s
                }
            } else {
                s
            },
            log,
            (index + 1) as usize,
        ),
        Phase::MultiList { index } => {
            let m = setup.metrics()[index as int];
            ask(
                s.at(Phase::MultiEvents { index }),
                (match event {
                    Event::Metrics(Ok(r)) => log_multi_list(log, m, r.data@),
                    Event::Metrics(Err(e)) => log.push(
                        ReportView::Warn(
                            "Failed to list metrics for multi-expr check: "@ + e.message@,
                        ),
                    ),
                    _ => log,
                }).push(
                    start(
                        "Verify Multi-Expr Events"@,
                        "Check '"@ + m.name@ + "' events have "@ + decimal(expression_count(m))
                            + " expression values"@,
                    ),
                ),
                ActionView::QueryEvents(m.name@, 10),
            )
        },
        Phase::MultiEvents { index } => at_multi(
            setup,
            s,
            match event {
                Event::Events(Ok(r)) => log_multi_events(
                    log,
                    setup.metrics()[index as int],
                    r.data@,
                ),
                Event::Events(Err(e)) => log.push(
                    ReportView::Warn("Failed to query events for multi-expr check: "@ + e.message@),
                ),
                _ => log,
            },
            (index + 1) as usize,
        ),
        Phase::BaselineFirst => {
            let first = event_count(event->Events_0);
            if setup.metrics().len() > 1 {
                ask(
                    s.at(Phase::BaselineOther { first }),
                    log,
                    ActionView::QueryEvents(setup.metrics()[1].name@, 100),
                )
            } else {
                at_toggle(setup, s, log, first, 0)
            }
        },
        Phase::BaselineOther { first } => at_toggle(
            setup,
            s,
            log,
            first,
            event_count(event->Events_0),
        ),
        Phase::ToggleFirst { first, other } => ask(
            s.at(Phase::SettleFirst { first, other }),
            match event {
                Event::Done(Ok(_)) => log.push(response("OK"@, "Metric disabled"@)).push(
                    success("'"@ + setup.metrics()[0].name@ + "' disabled"@),
                ),
                Event::Done(Err(e)) => log.push(failed(e.message@)),
                _ => log,
            },
            ActionView::Pause(single_wait(setup.config.iteration_duration_ms)),
        ),
        Phase::SettleFirst { first, other } => ask(
            s.at(Phase::VerifyStopped { first, other }),
            log.push(
                start(
                    "Verify Metric Stopped"@,
                    "Check that disabled metric doesn't capture new events"@,
                ),
            ),
            ActionView::QueryEvents(setup.metrics()[0].name@, 100),
        ),
        Phase::VerifyStopped { first, other } => on_stopped(
            setup,
            s,
            log,
            first,
            other,
            event_count(event->Events_0),
        ),
        Phase::VerifyOther { other } => on_other(
            setup,
            s,
            log,
            other,
            event_count(event->Events_0),
        ),
        Phase::BaselineAll { index } => at_baseline(
            setup,
            WorkflowState { baselines: s.baselines.push(event_count(event->Events_0)), ..s },
            log,
            (index + 1) as usize,
        ),
        Phase::DisableGroup => ask(
            s.at(Phase::SettleGroup),
            match event {
                Event::Count(Ok(r)) => log.push(
                    response("OK"@, decimal(r.data as nat) + " metrics disabled"@),
                ).push(success("Group '"@ + setup.config.group_name@ + "' disabled"@)),
                Event::Count(Err(e)) => log.push(failed(e.message@)),
                _ => log,
            },
            ActionView::Pause((setup.config.iteration_duration_ms * 2) as u64),
        ),
        Phase::SettleGroup => at_verify_group(
            setup,
            WorkflowState { capturing: Seq::empty(), ..s },
            log.push(
                start(
                    "Verify Group Stopped"@,
                    "Wait and verify no new events for any metric"@,
                ),
            ),
            0,
        ),
        Phase::VerifyGroup { index } => on_group_counted(
            setup,
            s,
            log,
            index,
            event_count(event->Events_0),
        ),
        Phase::IntroAdd { index } => {
            let m = setup.intro()[index as int];
            match event {
                Event::Text(Ok(r)) => at_intro_add(
                    setup,
                    WorkflowState {
                        result: WorkflowResult {
                            introspection_metrics_added: (s.result.introspection_metrics_added + 1)
                                as usize,
                            ..s.result
                        },
                        ..s
                    },
                    log.push(response("OK"@, "id="@ + r.data@)).push(
                        success("Added '"@ + m.name@ + "' with "@ + feature(m)),
                    ),
                    (index + 1) as usize,
                ),
                Event::Text(Err(e)) => at_intro_add(
                    setup,
                    s,
                    log.push(failed(e.message@)).push(
                        ReportView::Warn(
                            "Failed to add introspection metric '"@ + m.name@ + "': "@ + e.message@,
                        ),
                    ),
                    (index + 1) as usize,
                ),
                _ => at_intro_add(setup, s, log, (index + 1) as usize),
            }
        },
        Phase::IntroTimer => match event {
            Event::Timer { expired: true } => at_intro_verify(
                setup,
                s,
                log.push(ReportView::Warn("Timeout waiting for introspection events"@)),
            ),
            _ => at_intro_poll(setup, s, log, 0, 0, 0, 0),
        },
        Phase::IntroPoll { index, total, stacks, memories } => {
            let n = (index + 1) as usize;
            let m = setup.intro()[index as int];
            match event {
                Event::Events(Ok(r)) => {
                    let count = r.data@.len() as usize;
                    if count > 0 {
                        at_intro_poll(
                            setup,
                            s,
                            log_intro_events(
                                log.push(
                                    ReportView::Info(
                                        "  "@ + m.name@ + " captured "@ + decimal(count as nat)
                                            + " introspection event(s)"@,
                                    ),
                                ),
                                r.data@,
                                r.data@.len(),
                            ),
                            n,
                            sat_sum(total, count),
                            if m.capture_stack_trace {
                                sat_sum(stacks, count)
                            } else {
                                stacks
                            },
                            if m.capture_memory_snapshot {
                                sat_sum(memories, count)
                            } else {
                                memories
                            },
                        )
                    } else {
                        at_intro_poll(setup, s, log, n, total, stacks, memories)
                    }
                },
                _ => at_intro_poll(setup, s, log, n, total, stacks, memories),
            }
        },
        Phase::IntroPause => ask(
            s.at(Phase::IntroTimer),
            log,
            ActionView::CheckTimer(false, setup.config.event_wait_secs / 2),
        ),
        Phase::IntroRemove { index } => at_intro_remove(setup, s, log, (index + 1) as usize),
        Phase::Remove { index } => at_remove(
            setup,
            s,
            log_done(log, event, "Removed"@),
            (index + 1) as usize,
        ),
        Phase::RemoveInvalid => at_close(setup, s, log),
        Phase::Close => at_summary(setup, s, log_done(log, event, "Connection closed"@)),
        Phase::Finished => arbitrary(),
    }
}

/// What every state of a run meets: positions are within their lists, and as many metrics were
/// added as the phase says.
pub open spec fn state_ok(setup: WorkflowSetup, s: WorkflowState) -> bool {
    let n = setup.metrics().len();
    let k = setup.intro().len();
    &&& s.result.introspection_metrics_added <= k
    &&& match s.phase {
        Phase::Health | Phase::Connect | Phase::Handshake | Phase::InspectCode
        | Phase::InspectVariable => s.result.metrics_added == 0
            && s.result.introspection_metrics_added == 0,
        Phase::AddMetric { index } => index < n && s.result.metrics_added == index
            && s.result.introspection_metrics_added == 0,
        Phase::AddInvalid => setup.config.invalid_metric is Some && s.result.metrics_added == n
            && s.result.introspection_metrics_added == 0,
        Phase::WaitPoll { index, active, .. } => index < n && active <= index
            && s.result.metrics_added == n && s.result.introspection_metrics_added == 0,
        Phase::WaitMissing { index } | Phase::MultiList { index } | Phase::MultiEvents { index } =>
            index < n && s.result.metrics_added == n && s.result.introspection_metrics_added == 0,
        Phase::BaselineFirst | Phase::ToggleFirst { .. } | Phase::SettleFirst { .. }
        | Phase::VerifyStopped { .. } => n > 0 && s.result.metrics_added == n
            && s.result.introspection_metrics_added == 0,
        Phase::BaselineOther { .. } | Phase::VerifyOther { .. } => n > 1 && s.result.metrics_added
            == n && s.result.introspection_metrics_added == 0,
        Phase::BaselineAll { index } => index < n && s.baselines.len() == index
            && s.result.metrics_added == n && s.result.introspection_metrics_added == 0,
        Phase::DisableGroup | Phase::SettleGroup => s.baselines.len() == n && s.result.metrics_added
            == n && s.result.introspection_metrics_added == 0,
        Phase::VerifyGroup { index } => index < n && s.baselines.len() == n
            && s.result.metrics_added == n && s.result.introspection_metrics_added == 0,
        Phase::EnableGroup | Phase::WaitTimer | Phase::WaitPause => s.result.metrics_added == n
            && s.result.introspection_metrics_added == 0,
        Phase::IntroAdd { index } => index < k && s.result.metrics_added == n
            && s.result.introspection_metrics_added <= index,
        Phase::IntroPoll { index, .. } | Phase::IntroRemove { index } => index < k
            && s.result.metrics_added == n,
        Phase::Remove { index } => index < n && s.result.metrics_added == n,
        Phase::RemoveInvalid | Phase::IntroTimer | Phase::IntroPause | Phase::Close =>
            s.result.metrics_added == n,
        Phase::Finished => true,
    }
}

/// The machine limits of a configuration.
pub open spec fn limits_ok(setup: WorkflowSetup) -> bool {
    &&& setup.valid()
    &&& setup.metrics().len() < usize::MAX
    &&& setup.intro().len() < usize::MAX
    &&& forall|i: int|
        0 <= i < setup.metrics().len() ==> (#[trigger] setup.metrics()[i]).extra_expressions@.len()
            < usize::MAX
}

// ---------------------------------------------------------------------------
// The machine, executed
// ---------------------------------------------------------------------------

/// What a run reports and how it goes on.
pub struct WorkflowStep {
    pub log: Log,
    pub next: Next<WorkflowResult>,
}

/// A run, its reports and its continuation are those of a turn.
pub open spec fn turn_is(
    run: WorkflowRun,
    log: Seq<ReportView>,
    next: Next<WorkflowResult>,
    turn: WorkflowTurn,
) -> bool {
    &&& run@ == turn.state
    &&& log == turn.log
    &&& next@ == turn.next
}

fn metric_request_exec(setup: &WorkflowSetup, m: &MetricPoint, connection_id: &str) -> (r:
    AddMetricRequest)
    ensures
        r@ == metric_request(*setup, *m, connection_id@),
{
    let place: String = location(setup.source_path.as_str(), m.line);
    let mut r: AddMetricRequest = if m.extra_expressions.len() == 0 {
        proof {
            assert(all_expressions(*m) =~= seq![m.expression@]);
        }
        AddMetricRequest::new(m.name.as_str(), place.as_str(), m.expression.as_str(), connection_id)
    } else {
        let mut all: Vec<String> = Vec::new();
        all.push(m.expression.clone());
        let mut extra: Vec<String> = clone_strings(&m.extra_expressions);
        all.append(&mut extra);
        proof {
            assert(views(all@) =~= all_expressions(*m));
        }
        AddMetricRequest::new_multi(m.name.as_str(), place.as_str(), all, connection_id)
    };
    r.language = Some(setup.config.language.as_api_str().to_owned());
    r.group = clone_opt(&m.group);
    r.enabled = Some(false);
    r
}

fn invalid_request_exec(setup: &WorkflowSetup, m: &MetricPoint, connection_id: &str) -> (r:
    AddMetricRequest)
    ensures
        r@ == invalid_request(*setup, *m, connection_id@),
{
    let place: String = location(setup.source_path.as_str(), m.line);
    let mut r: AddMetricRequest = AddMetricRequest::new(
        m.name.as_str(),
        place.as_str(),
        m.expression.as_str(),
        connection_id,
    );
    r.language = Some(setup.config.language.as_api_str().to_owned());
    r.group = clone_opt(&m.group);
    r
}

fn introspection_request_exec(setup: &WorkflowSetup, m: &MetricPoint, connection_id: &str) -> (r:
    AddMetricRequest)
    ensures
        r@ == introspection_request(*setup, *m, connection_id@),
{
    let mut r: AddMetricRequest = invalid_request_exec(setup, m, connection_id);
    r.enabled = Some(true);
    if m.capture_stack_trace {
        r.capture_stack_trace = Some(true);
    }
    if m.capture_memory_snapshot {
        r.capture_memory_snapshot = Some(true);
    }
    r
}

impl WorkflowRun {
    /// The run is in a state that it can be in.
    pub open spec fn wf(&self) -> bool {
        &&& limits_ok(self.setup)
        &&& state_ok(self.setup, self@)
    }

    fn abort(&mut self, log: &mut Log, error: String) -> (next: Next<WorkflowResult>)
        ensures
            final(self).setup == old(self).setup,
            turn_is(*final(self), final(log)@, next, abort(old(self)@, old(log)@, error@)),
    {
        log.failed(error.as_str());
        self.phase = Phase::Finished;
        Next::Finish(Err(error))
    }

    fn fail_with(&mut self, log: &mut Log, reported: &str, error: String) -> (next: Next<
        WorkflowResult,
    >)
        ensures
            final(self).setup == old(self).setup,
            turn_is(
                *final(self),
                final(log)@,
                next,
                fail(old(self)@.at(Phase::Finished), old(log)@.push(failed(reported@)), error@),
            ),
    {
        log.failed(reported);
        self.phase = Phase::Finished;
        Next::Finish(Err(error))
    }

    fn query(&mut self, phase: Phase, name: String, limit: u32) -> (next: Next<WorkflowResult>)
        ensures
            final(self).setup == old(self).setup,
            final(self)@ == old(self)@.at(phase),
            next@ == NextView::<WorkflowResult>::Ask(ActionView::QueryEvents(name@, limit)),
    {
        self.phase = phase;
        Next::Ask(Action::QueryEvents { name, limit })
    }

    fn pause(&mut self, phase: Phase, millis: u64) -> (next: Next<WorkflowResult>)
        ensures
            final(self).setup == old(self).setup,
            final(self)@ == old(self)@.at(phase),
            next@ == NextView::<WorkflowResult>::Ask(ActionView::Pause(millis)),
    {
        self.phase = phase;
        Next::Ask(Action::Pause { millis })
    }

    fn timer(&mut self, phase: Phase, restart: bool, limit_secs: u64) -> (next: Next<
        WorkflowResult,
    >)
        ensures
            final(self).setup == old(self).setup,
            final(self)@ == old(self)@.at(phase),
            next@ == NextView::<WorkflowResult>::Ask(ActionView::CheckTimer(restart, limit_secs)),
    {
        self.phase = phase;
        Next::Ask(Action::CheckTimer { restart, limit_secs })
    }

    fn at_health(&mut self, log: &mut Log) -> (next: Next<WorkflowResult>)
        ensures
            final(self).setup == old(self).setup,
            turn_is(
                *final(self),
                final(log)@,
                next,
                at_health(old(self).setup, old(self)@, old(log)@),
            ),
    {
        log.section(
            cat3("PHASE 1: SETUP & CONNECTION (", self.setup.adapter.as_str(), ")").as_str(),
        );
        log.start("Health Check", "Verify API is healthy");
        self.phase = Phase::Health;
        Next::Ask(Action::Health)
    }

    fn at_connect(&mut self, log: &mut Log) -> (next: Next<WorkflowResult>)
        ensures
            final(self).setup == old(self).setup,
            turn_is(
                *final(self),
                final(log)@,
                next,
                at_connect(old(self).setup, old(self)@, old(log)@),
            ),
    {
        let port: String = num(self.setup.debugger_port as u64);
        let language: &str = self.setup.config.language.as_api_str();
        log.start(
            "Create Connection",
            cat4(
                "Connect to ",
                self.setup.adapter.as_str(),
                " at 127.0.0.1:",
                port.as_str(),
            ).as_str(),
        );
        log.request(
            "create_connection",
            cat6(
                "port=",
                port.as_str(),
                ", language=",
                language,
                ", program=",
                format_debug_opt(&self.setup.program).as_str(),
            ).as_str(),
        );
        self.phase = Phase::Connect;
        Next::Ask(
            Action::CreateConnection {
                host: "127.0.0.1".to_owned(),
                port: self.setup.debugger_port,
                language: language.to_owned(),
                program: clone_opt(&self.setup.program),
            },
        )
    }

    fn at_inspect_code(&mut self, log: &mut Log) -> (next: Next<WorkflowResult>)
        ensures
            final(self).setup == old(self).setup,
            turn_is(
                *final(self),
                final(log)@,
                next,
                at_inspect_code(old(self).setup, old(self)@, old(log)@),
            ),
    {
        let line: String = num(self.setup.config.inspect_line as u64);
        log.section("PHASE 2: CODE INSPECTION");
        log.start(
            "Inspect Code",
            cat4(
                "View code around line ",
                line.as_str(),
                " in ",
                self.setup.config.source_file.as_str(),
            ).as_str(),
        );
        log.request(
            "inspect_file",
            cat4("file=", self.setup.source_path.as_str(), ", line=", line.as_str()).as_str(),
        );
        self.phase = Phase::InspectCode;
        Next::Ask(
            Action::InspectFile {
                path: self.setup.source_path.clone(),
                line: Some(self.setup.config.inspect_line),
                variable: None,
            },
        )
    }

    fn at_inspect_variable(&mut self, log: &mut Log) -> (next: Next<WorkflowResult>)
        ensures
            final(self).setup == old(self).setup,
            turn_is(
                *final(self),
                final(log)@,
                next,
                at_inspect_variable(old(self).setup, old(self)@, old(log)@),
            ),
    {
        let variable: String = self.setup.config.inspect_variable.clone();
        log.start(
            "Inspect Variable",
            cat4(
                "Check if '",
                variable.as_str(),
                "' is in scope at line ",
                num(self.setup.config.inspect_line as u64).as_str(),
            ).as_str(),
        );
        log.request(
            "inspect_file",
            cat4(
                "file=",
                self.setup.source_path.as_str(),
                ", variable=",
                variable.as_str(),
            ).as_str(),
        );
        self.phase = Phase::InspectVariable;
        Next::Ask(
            Action::InspectFile {
                path: self.setup.source_path.clone(),
                line: None,
                variable: Some(variable),
            },
        )
    }

    fn at_add_metric(&mut self, log: &mut Log, index: usize) -> (next: Next<WorkflowResult>)
        ensures
            final(self).setup == old(self).setup,
            turn_is(
                *final(self),
                final(log)@,
                next,
                at_add_metric(old(self).setup, old(self)@, old(log)@, index),
            ),
    {
        if index < self.setup.config.metrics.len() {
            let m: &MetricPoint = &self.setup.config.metrics[index];
            log.start(
                "Add Metric (Disabled)",
                cat7(
                    "Add '",
                    m.name.as_str(),
                    "' at line ",
                    num(m.line as u64).as_str(),
                    " for '",
                    m.expression.as_str(),
                    "' (disabled, will enable via group)",
                ).as_str(),
            );
            log.request(
                "add_metric",
                cat7(
                    "name=",
                    m.name.as_str(),
                    ", location=",
                    location(self.setup.source_path.as_str(), m.line).as_str(),
                    ", expr=",
                    m.expression.as_str(),
                    ", enabled=false",
                ).as_str(),
            );
            let request: AddMetricRequest = metric_request_exec(
                &self.setup,
                m,
                self.connection_id.as_str(),
            );
            self.phase = Phase::AddMetric { index };
            Next::Ask(Action::AddMetric { request })
        } else {
            self.at_add_invalid(log)
        }
    }

    fn at_add_invalid(&mut self, log: &mut Log) -> (next: Next<WorkflowResult>)
        ensures
            final(self).setup == old(self).setup,
            turn_is(
                *final(self),
                final(log)@,
                next,
                at_add_invalid(old(self).setup, old(self)@, old(log)@),
            ),
    {
        match &self.setup.config.invalid_metric {
            Some(m) => {
                log.start(
                    "Add Invalid Metric",
                    if self.setup.scope_validation {
                        "Try adding metric for variable not in scope - MUST fail"
                    } else {
                        "Try adding metric for variable not in scope - may or may not fail"
                    },
                );
                log.request(
                    "add_metric",
                    cat5(
                        "name=",
                        m.name.as_str(),
                        ", expr=",
                        m.expression.as_str(),
                        " (NOT IN SCOPE)",
                    ).as_str(),
                );
                let request: AddMetricRequest = invalid_request_exec(
                    &self.setup,
                    m,
                    self.connection_id.as_str(),
                );
                self.phase = Phase::AddInvalid;
                Next::Ask(Action::AddMetric { request })
            },
            None => self.at_enable_group(log),
        }
    }

    fn at_enable_group(&mut self, log: &mut Log) -> (next: Next<WorkflowResult>)
        ensures
            final(self).setup == old(self).setup,
            turn_is(
                *final(self),
                final(log)@,
                next,
                at_enable_group(old(self).setup, old(self)@, old(log)@),
            ),
    {
        let group: String = self.setup.config.group_name.clone();
        log.section("PHASE 4: ENABLE GROUP & CAPTURE EVENTS");
        log.start(
            "Enable Group",
            cat5(
                "Enable '",
                group.as_str(),
                "' (expecting ",
                num_usize(self.setup.config.metrics.len()).as_str(),
                " metrics to be enabled)",
            ).as_str(),
        );
        log.request("enable_group", group.as_str());
        self.phase = Phase::EnableGroup;
        Next::Ask(Action::EnableGroup { group })
    }

    fn at_wait(&mut self, log: &mut Log) -> (next: Next<WorkflowResult>)
        ensures
            final(self).setup == old(self).setup,
            turn_is(
                *final(self),
                final(log)@,
                next,
                at_wait(old(self).setup, old(self)@, old(log)@),
            ),
    {
        log.start(
            "Wait for Events",
            cat3(
                "Wait for metrics to capture data (up to ",
                num(self.setup.config.event_wait_secs).as_str(),
                "s)",
            ).as_str(),
        );
        log.info(
            cat3(
                "Target runs every ~",
                num(self.setup.config.iteration_duration_ms).as_str(),
                "ms...",
            ).as_str(),
        );
        let limit: u64 = self.setup.config.event_wait_secs;
        self.timer(Phase::WaitTimer, true, limit)
    }

    fn at_wait_poll(&mut self, log: &mut Log, index: usize, total: usize, active: usize) -> (next:
        Next<WorkflowResult>)
        requires
            limits_ok(old(self).setup),
        ensures
            final(self).setup == old(self).setup,
            turn_is(
                *final(self),
                final(log)@,
                next,
                at_wait_poll(old(self).setup, old(self)@, old(log)@, index, total, active),
            ),
    {
        let n: usize = self.setup.config.metrics.len();
        if index < n {
            let name: String = self.setup.config.metrics[index].name.clone();
            self.query(Phase::WaitPoll { index, total, active }, name, 100)
        } else if active == n {
            log.success(
                cat6(
                    num_usize(total).as_str(),
                    " total events captured (",
                    num_usize(active).as_str(),
                    "/",
                    num_usize(n).as_str(),
                    " metrics active)",
                ).as_str(),
            );
            self.result.total_events = total;
            self.at_multi(log, 0)
        } else {
            self.pause(Phase::WaitPause, 2000)
        }
    }

    fn at_wait_missing(&mut self, log: &mut Log, index: usize) -> (next: Next<WorkflowResult>)
        requires
            limits_ok(old(self).setup),
        ensures
            final(self).setup == old(self).setup,
            turn_is(
                *final(self),
                final(log)@,
                next,
                at_wait_missing(old(self).setup, old(self)@, old(log)@, index),
            ),
    {
        if index < self.setup.config.metrics.len() {
            let name: String = self.setup.config.metrics[index].name.clone();
            self.query(Phase::WaitMissing { index }, name, 100)
        } else if self.missing.len() > 0 {
            let error: String = cat5(
                "Timeout: metrics failed to capture events after ",
                num(self.setup.config.event_wait_secs).as_str(),
                "s: ",
                join(&self.missing, ", ").as_str(),
                ". All metrics must capture at least one event for isolation tests to work.",
            );
            self.abort(log, error)
        } else {
            self.at_multi(log, 0)
        }
    }

    fn at_multi(&mut self, log: &mut Log, index: usize) -> (next: Next<WorkflowResult>)
        requires
            limits_ok(old(self).setup),
        ensures
            final(self).setup == old(self).setup,
            turn_is(
                *final(self),
                final(log)@,
                next,
                at_multi(old(self).setup, old(self)@, old(log)@, index),
            ),
        decreases old(self).setup.metrics().len() - index,
    {
        if index < self.setup.config.metrics.len() {
            let m: &MetricPoint = &self.setup.config.metrics[index];
            if m.extra_expressions.len() == 0 {
                self.at_multi(log, index + 1)
            } else {
                log.start(
                    "Verify Multi-Expr Metric",
                    cat5(
                        "Check '",
                        m.name.as_str(),
                        "' has ",
                        num_expressions(m).as_str(),
                        " expressions",
                    ).as_str(),
                );
                self.phase = Phase::MultiList { index };
                Next::Ask(Action::ListMetrics)
            }
        } else {
            self.at_baseline_first(log)
        }
    }

    fn at_baseline_first(&mut self, log: &mut Log) -> (next: Next<WorkflowResult>)
        ensures
            final(self).setup == old(self).setup,
            turn_is(
                *final(self),
                final(log)@,
                next,
                at_baseline_first(old(self).setup, old(self)@, old(log)@),
            ),
    {
        log.section("PHASE 5: DISABLE INDIVIDUAL METRIC");
        if self.setup.config.metrics.len() > 0 {
            let name: String = self.setup.config.metrics[0].name.clone();
            self.query(Phase::BaselineFirst, name, 100)
        } else {
            self.at_baselines(log)
        }
    }

    fn at_toggle(&mut self, log: &mut Log, first: usize, other: usize) -> (next: Next<
        WorkflowResult,
    >)
        requires
            old(self).setup.metrics().len() > 0,
        ensures
            final(self).setup == old(self).setup,
            turn_is(
                *final(self),
                final(log)@,
                next,
                at_toggle(old(self).setup, old(self)@, old(log)@, first, other),
            ),
    {
        let name: String = self.setup.config.metrics[0].name.clone();
        log.start(
            "Disable One Metric",
            cat3("Disable '", name.as_str(), "' (should stop capturing)").as_str(),
        );
        log.request("toggle_metric", cat3("name=", name.as_str(), ", enabled=false").as_str());
        self.phase = Phase::ToggleFirst { first, other };
        Next::Ask(Action::ToggleMetric { name, enabled: false })
    }

    fn at_verify_other(&mut self, log: &mut Log, other: usize) -> (next: Next<WorkflowResult>)
        ensures
            final(self).setup == old(self).setup,
            turn_is(
                *final(self),
                final(log)@,
                next,
                at_verify_other(old(self).setup, old(self)@, old(log)@, other),
            ),
    {
        if self.setup.config.metrics.len() > 1 {
            let name: String = self.setup.config.metrics[1].name.clone();
            log.start(
                "Verify Others Continue",
                cat3("Check that '", name.as_str(), "' still captures events").as_str(),
            );
            self.query(Phase::VerifyOther { other }, name, 100)
        } else {
            self.at_baselines(log)
        }
    }

    fn at_baselines(&mut self, log: &mut Log) -> (next: Next<WorkflowResult>)
        ensures
            final(self).setup == old(self).setup,
            turn_is(
                *final(self),
                final(log)@,
                next,
                at_baselines(old(self).setup, old(self)@, old(log)@),
            ),
    {
        log.section("PHASE 6: DISABLE ENTIRE GROUP");
        self.baselines = Vec::new();
        self.at_baseline(log, 0)
    }

    fn at_baseline(&mut self, log: &mut Log, index: usize) -> (next: Next<WorkflowResult>)
        ensures
            final(self).setup == old(self).setup,
            turn_is(
                *final(self),
                final(log)@,
                next,
                at_baseline(old(self).setup, old(self)@, old(log)@, index),
            ),
    {
        if index < self.setup.config.metrics.len() {
            let name: String = self.setup.config.metrics[index].name.clone();
            self.query(Phase::BaselineAll { index }, name, 100)
        } else {
            let group: String = self.setup.config.group_name.clone();
            log.start(
                "Disable Group",
                cat3("Disable '", group.as_str(), "' (all metrics should stop)").as_str(),
            );
            log.request("disable_group", group.as_str());
            self.phase = Phase::DisableGroup;
            Next::Ask(Action::DisableGroup { group })
        }
    }

    fn at_verify_group(&mut self, log: &mut Log, index: usize) -> (next: Next<WorkflowResult>)
        ensures
            final(self).setup == old(self).setup,
            turn_is(
                *final(self),
                final(log)@,
                next,
                at_verify_group(old(self).setup, old(self)@, old(log)@, index),
            ),
    {
        if index < self.setup.config.metrics.len() {
            let name: String = self.setup.config.metrics[index].name.clone();
            self.query(Phase::VerifyGroup { index }, name, 100)
        } else if self.capturing.len() > 0 {
            let error: String = cat2(
                "Metrics still capturing after group disabled: ",
                join(&self.capturing, ", ").as_str(),
            );
            self.abort(log, error)
        } else {
            log.success("Metrics stopped capturing after group disabled");
            self.at_introspection(log)
        }
    }

    fn at_introspection(&mut self, log: &mut Log) -> (next: Next<WorkflowResult>)
        ensures
            final(self).setup == old(self).setup,
            turn_is(
                *final(self),
                final(log)@,
                next,
                at_introspection(old(self).setup, old(self)@, old(log)@),
            ),
    {
        if self.setup.config.introspection_metrics.len() > 0 {
            log.section("PHASE 7: INTROSPECTION (STACK TRACE & MEMORY SNAPSHOT)");
            self.at_intro_add(log, 0)
        } else {
            self.at_cleanup(log)
        }
    }

    fn at_intro_add(&mut self, log: &mut Log, index: usize) -> (next: Next<WorkflowResult>)
        ensures
            final(self).setup == old(self).setup,
            turn_is(
                *final(self),
                final(log)@,
                next,
                at_intro_add(old(self).setup, old(self)@, old(log)@, index),
            ),
    {
        if index < self.setup.config.introspection_metrics.len() {
            let m: &MetricPoint = &self.setup.config.introspection_metrics[index];
            log.start(
                "Add Introspection Metric",
                cat6(
                    "Add '",
                    m.name.as_str(),
                    "' with ",
                    feature_text(m),
                    " at line ",
                    num(m.line as u64).as_str(),
                ).as_str(),
            );
            let request: AddMetricRequest = introspection_request_exec(
                &self.setup,
                m,
                self.connection_id.as_str(),
            );
            self.phase = Phase::IntroAdd { index };
            Next::Ask(Action::AddMetric { request })
        } else if self.result.introspection_metrics_added > 0 {
            let limit: u64 = self.setup.config.event_wait_secs / 2;
            log.start(
                "Wait for Introspection Events",
                cat3(
                    "Wait for events with introspection data (up to ",
                    num(limit).as_str(),
                    "s)",
                ).as_str(),
            );
            self.timer(Phase::IntroTimer, true, limit)
        } else {
            self.at_intro_remove(log, 0)
        }
    }

    fn at_intro_poll(
        &mut self,
        log: &mut Log,
        index: usize,
        total: usize,
        stacks: usize,
        memories: usize,
    ) -> (next: Next<WorkflowResult>)
        ensures
            final(self).setup == old(self).setup,
            turn_is(
                *final(self),
                final(log)@,
                next,
                at_intro_poll(
                    old(self).setup,
                    old(self)@,
                    old(log)@,
                    index,
                    total,
                    stacks,
                    memories,
                ),
            ),
    {
        if index < self.setup.config.introspection_metrics.len() {
            let name: String = self.setup.config.introspection_metrics[index].name.clone();
            self.query(Phase::IntroPoll { index, total, stacks, memories }, name, 100)
        } else {
            self.result.introspection_events = total;
            self.result.stack_trace_events = stacks;
            self.result.memory_snapshot_events = memories;
            if total >= self.setup.config.introspection_metrics.len() {
                log.success(
                    cat6(
                        num_usize(total).as_str(),
                        " introspection events captured (stack_trace: ",
                        num_usize(stacks).as_str(),
                        ", memory_snapshot: ",
                        num_usize(memories).as_str(),
                        ")",
                    ).as_str(),
                );
                self.at_intro_verify(log)
            } else {
                self.pause(Phase::IntroPause, 2000)
            }
        }
    }

    fn at_intro_verify(&mut self, log: &mut Log) -> (next: Next<WorkflowResult>)
        ensures
            final(self).setup == old(self).setup,
            turn_is(
                *final(self),
                final(log)@,
                next,
                at_intro_verify(old(self).setup, old(self)@, old(log)@),
            ),
    {
        log.start("Verify Introspection", "Verify that introspection data was captured");
        if self.result.introspection_events > 0 {
            log.success(
                cat7(
                    "Introspection working: ",
                    num_usize(self.result.introspection_events).as_str(),
                    " total events (stack_trace: ",
                    num_usize(self.result.stack_trace_events).as_str(),
                    ", memory_snapshot: ",
                    num_usize(self.result.memory_snapshot_events).as_str(),
                    ")",
                ).as_str(),
            );
        } else {
            log.warn(
                "No introspection events captured - this may be expected if DAP adapter doesn't support introspection",
            );
        }
        self.at_intro_remove(log, 0)
    }

    fn at_intro_remove(&mut self, log: &mut Log, index: usize) -> (next: Next<WorkflowResult>)
        ensures
            final(self).setup == old(self).setup,
            turn_is(
                *final(self),
                final(log)@,
                next,
                at_intro_remove(old(self).setup, old(self)@, old(log)@, index),
            ),
    {
        if index < self.setup.config.introspection_metrics.len() {
            let name: String = self.setup.config.introspection_metrics[index].name.clone();
            self.phase = Phase::IntroRemove { index };
            Next::Ask(Action::RemoveMetric { name })
        } else {
            self.at_cleanup(log)
        }
    }

    fn at_cleanup(&mut self, log: &mut Log) -> (next: Next<WorkflowResult>)
        ensures
            final(self).setup == old(self).setup,
            turn_is(
                *final(self),
                final(log)@,
                next,
                at_cleanup(old(self).setup, old(self)@, old(log)@),
            ),
    {
        log.section("PHASE 8: CLEANUP");
        self.at_remove(log, 0)
    }

    fn at_remove(&mut self, log: &mut Log, index: usize) -> (next: Next<WorkflowResult>)
        ensures
            final(self).setup == old(self).setup,
            turn_is(
                *final(self),
                final(log)@,
                next,
                at_remove(old(self).setup, old(self)@, old(log)@, index),
            ),
    {
        if index < self.setup.config.metrics.len() {
            let name: String = self.setup.config.metrics[index].name.clone();
            log.start("Remove Metric", cat3("Remove '", name.as_str(), "'").as_str());
            self.phase = Phase::Remove { index };
            Next::Ask(Action::RemoveMetric { name })
        } else {
            match &self.setup.config.invalid_metric {
                Some(m) => {
                    let name: String = m.name.clone();
                    self.phase = Phase::RemoveInvalid;
                    Next::Ask(Action::RemoveMetric { name })
                },
                None => self.at_close(log),
            }
        }
    }

    fn at_close(&mut self, log: &mut Log) -> (next: Next<WorkflowResult>)
        ensures
            final(self).setup == old(self).setup,
            turn_is(
                *final(self),
                final(log)@,
                next,
                at_close(old(self).setup, old(self)@, old(log)@),
            ),
    {
        log.start("Close Connection", cat3("Close '", self.connection_id.as_str(), "'").as_str());
        self.phase = Phase::Close;
        Next::Ask(Action::CloseConnection { id: self.connection_id.clone() })
    }

    fn at_summary(&mut self, log: &mut Log) -> (next: Next<WorkflowResult>)
        ensures
            final(self).setup == old(self).setup,
            turn_is(
                *final(self),
                final(log)@,
                next,
                at_summary(old(self).setup, old(self)@, old(log)@),
            ),
    {
        log.section(cat3("WORKFLOW COMPLETE (", self.setup.adapter.as_str(), ")").as_str());
        log.info(cat2("Metrics added: ", num_usize(self.result.metrics_added).as_str()).as_str());
        log.info(
            cat2("Total events captured: ", num_usize(self.result.total_events).as_str()).as_str(),
        );
        if self.result.introspection_metrics_added > 0 {
            log.info(
                cat9(
                    "Introspection metrics: ",
                    num_usize(self.result.introspection_metrics_added).as_str(),
                    " (events: ",
                    num_usize(self.result.introspection_events).as_str(),
                    ", stack_trace: ",
                    num_usize(self.result.stack_trace_events).as_str(),
                    ", memory_snapshot: ",
                    num_usize(self.result.memory_snapshot_events).as_str(),
                    ")",
                ).as_str(),
            );
        }
        self.phase = Phase::Finished;
        Next::Finish(Ok(self.result))
    }
}

fn num_expressions(m: &MetricPoint) -> (r: String)
    requires
        m.extra_expressions.len() < usize::MAX,
    ensures
        r@ == decimal(expression_count(*m)),
{
    num_usize(1 + m.extra_expressions.len())
}

/// A turn leads to a state that a run can be in, its action is one that the new phase waits
/// for, and the run is over exactly when the phase says so.
pub open spec fn turn_ok(setup: WorkflowSetup, t: WorkflowTurn) -> bool {
    &&& state_ok(setup, t.state)
    &&& match t.next {
        NextView::Ask(a) => a.answer() == t.state.phase.answer() && !(t.state.phase is Finished),
        NextView::Finish(_) => t.state.phase is Finished,
    }
}

proof fn lemma_turn_setup(setup: WorkflowSetup, s: WorkflowState, event: Event)
    requires
        limits_ok(setup),
        state_ok(setup, s),
        event.spec_kind() == s.phase.answer(),
        s.phase is Health || s.phase is Connect || s.phase is Handshake || s.phase is InspectCode || s.phase is InspectVariable,
    ensures
        turn_ok(setup, on_event(setup, s, event)),
{
}

proof fn lemma_turn_adding(setup: WorkflowSetup, s: WorkflowState, event: Event)
    requires
        limits_ok(setup),
        state_ok(setup, s),
        event.spec_kind() == s.phase.answer(),
        s.phase is AddMetric || s.phase is AddInvalid || s.phase is EnableGroup,
    ensures
        turn_ok(setup, on_event(setup, s, event)),
{
}

proof fn lemma_turn_waiting(setup: WorkflowSetup, s: WorkflowState, event: Event)
    requires
        limits_ok(setup),
        state_ok(setup, s),
        event.spec_kind() == s.phase.answer(),
        s.phase is WaitTimer || s.phase is WaitPause,
    ensures
        turn_ok(setup, on_event(setup, s, event)),
{
    assert forall|t: WorkflowState, log: Seq<ReportView>, i: usize|
        i <= setup.metrics().len() && t.result.metrics_added == setup.metrics().len()
            && t.result.introspection_metrics_added == 0 implies turn_ok(
        setup,
        #[trigger] at_multi(setup, t, log, i),
    ) by {
        lemma_multi(setup, t, log, i);
    }
}

proof fn lemma_turn_polling(setup: WorkflowSetup, s: WorkflowState, event: Event)
    requires
        limits_ok(setup),
        state_ok(setup, s),
        event.spec_kind() == s.phase.answer(),
        s.phase is WaitPoll,
    ensures
        turn_ok(setup, on_event(setup, s, event)),
{
    assert forall|t: WorkflowState, log: Seq<ReportView>, i: usize|
        i <= setup.metrics().len() && t.result.metrics_added == setup.metrics().len()
            && t.result.introspection_metrics_added == 0 implies turn_ok(
        setup,
        #[trigger] at_multi(setup, t, log, i),
    ) by {
        lemma_multi(setup, t, log, i);
    }
}

proof fn lemma_turn_missing(setup: WorkflowSetup, s: WorkflowState, event: Event)
    requires
        limits_ok(setup),
        state_ok(setup, s),
        event.spec_kind() == s.phase.answer(),
        s.phase is WaitMissing || s.phase is MultiList || s.phase is MultiEvents,
    ensures
        turn_ok(setup, on_event(setup, s, event)),
{
    assert forall|t: WorkflowState, log: Seq<ReportView>, i: usize|
        i <= setup.metrics().len() && t.result.metrics_added == setup.metrics().len()
            && t.result.introspection_metrics_added == 0 implies turn_ok(
        setup,
        #[trigger] at_multi(setup, t, log, i),
    ) by {
        lemma_multi(setup, t, log, i);
    }
}

proof fn lemma_turn_single(setup: WorkflowSetup, s: WorkflowState, event: Event)
    requires
        limits_ok(setup),
        state_ok(setup, s),
        event.spec_kind() == s.phase.answer(),
        s.phase is BaselineFirst || s.phase is BaselineOther || s.phase is ToggleFirst || s.phase is SettleFirst || s.phase is VerifyStopped || s.phase is VerifyOther,
    ensures
        turn_ok(setup, on_event(setup, s, event)),
{
}

proof fn lemma_turn_group(setup: WorkflowSetup, s: WorkflowState, event: Event)
    requires
        limits_ok(setup),
        state_ok(setup, s),
        event.spec_kind() == s.phase.answer(),
        s.phase is BaselineAll || s.phase is DisableGroup || s.phase is SettleGroup || s.phase is VerifyGroup,
    ensures
        turn_ok(setup, on_event(setup, s, event)),
{
}

proof fn lemma_turn_intro(setup: WorkflowSetup, s: WorkflowState, event: Event)
    requires
        limits_ok(setup),
        state_ok(setup, s),
        event.spec_kind() == s.phase.answer(),
        s.phase is IntroAdd || s.phase is IntroTimer || s.phase is IntroPause || s.phase is IntroRemove,
    ensures
        turn_ok(setup, on_event(setup, s, event)),
{
}

proof fn lemma_turn_intro_polling(setup: WorkflowSetup, s: WorkflowState, event: Event)
    requires
        limits_ok(setup),
        state_ok(setup, s),
        event.spec_kind() == s.phase.answer(),
        s.phase is IntroPoll,
    ensures
        turn_ok(setup, on_event(setup, s, event)),
{
}

proof fn lemma_turn_cleanup(setup: WorkflowSetup, s: WorkflowState, event: Event)
    requires
        limits_ok(setup),
        state_ok(setup, s),
        event.spec_kind() == s.phase.answer(),
        s.phase is Remove || s.phase is RemoveInvalid || s.phase is Close,
    ensures
        turn_ok(setup, on_event(setup, s, event)),
{
}

/// Every turn keeps to the states that a run can be in.
pub proof fn law_turn_keeps_state(setup: WorkflowSetup, s: WorkflowState, event: Event)
    requires
        limits_ok(setup),
        state_ok(setup, s),
        !(s.phase is Finished),
        event.spec_kind() == s.phase.answer(),
    ensures
        turn_ok(setup, on_event(setup, s, event)),
{
    match s.phase {
        Phase::Health
        | Phase::Connect
        | Phase::Handshake
        | Phase::InspectCode
        | Phase::InspectVariable => lemma_turn_setup(setup, s, event),
        Phase::AddMetric { .. }
        | Phase::AddInvalid
        | Phase::EnableGroup => lemma_turn_adding(setup, s, event),
        Phase::WaitTimer
        | Phase::WaitPause => lemma_turn_waiting(setup, s, event),
        Phase::WaitPoll { .. } => lemma_turn_polling(setup, s, event),
        Phase::WaitMissing { .. }
        | Phase::MultiList { .. }
        | Phase::MultiEvents { .. } => lemma_turn_missing(setup, s, event),
        Phase::BaselineFirst
        | Phase::BaselineOther { .. }
        | Phase::ToggleFirst { .. }
        | Phase::SettleFirst { .. }
        | Phase::VerifyStopped { .. }
        | Phase::VerifyOther { .. } => lemma_turn_single(setup, s, event),
        Phase::BaselineAll { .. }
        | Phase::DisableGroup
        | Phase::SettleGroup
        | Phase::VerifyGroup { .. } => lemma_turn_group(setup, s, event),
        Phase::IntroAdd { .. }
        | Phase::IntroTimer
        | Phase::IntroPause
        | Phase::IntroRemove { .. } => lemma_turn_intro(setup, s, event),
        Phase::IntroPoll { .. } => lemma_turn_intro_polling(setup, s, event),
        Phase::Remove { .. }
        | Phase::RemoveInvalid
        | Phase::Close => lemma_turn_cleanup(setup, s, event),
        Phase::Finished => {},
    }
}

/// Looking for a metric with several expressions leads to a state that a run can be in.
proof fn lemma_multi(setup: WorkflowSetup, s: WorkflowState, log: Seq<ReportView>, index: usize)
    requires
        limits_ok(setup),
        index <= setup.metrics().len(),
        s.result.metrics_added == setup.metrics().len(),
        s.result.introspection_metrics_added == 0,
    ensures
        turn_ok(setup, at_multi(setup, s, log, index)),
    decreases setup.metrics().len() - index,
{
    if index < setup.metrics().len() && setup.metrics()[index as int].extra_expressions@.len() == 0 {
        lemma_multi(setup, s, log, (index + 1) as usize);
    }
}

impl WorkflowRun {
    fn on_invalid(&mut self, log: &mut Log, event: &Event) -> (next: Next<WorkflowResult>)
        requires
            old(self).setup.config.invalid_metric is Some,
            event.spec_kind() == EventKind::Text,
        ensures
            final(self).setup == old(self).setup,
            turn_is(
                *final(self),
                final(log)@,
                next,
                on_invalid(
                    old(self).setup,
                    old(self)@,
                    old(log)@,
                    old(self).setup.config.invalid_metric->0,
                    *event,
                ),
            ),
    {
        match event {
            Event::Text(Ok(r)) => {
                if self.setup.scope_validation {
                    log.response(
                        "ERROR",
                        cat3(
                            "Added anyway (id=",
                            r.data.as_str(),
                            ") but should have failed!",
                        ).as_str(),
                    );
                    let name: &str = match &self.setup.config.invalid_metric {
                        Some(m) => m.name.as_str(),
                        None => "",
                    };
                    let error: String = cat5(
                        "Invalid metric '",
                        name,
                        "' was accepted but ",
                        self.setup.adapter.as_str(),
                        " supports scope validation",
                    );
                    self.fail_with(
                        log,
                        "Scope validation should have rejected invalid variable",
                        error,
                    )
                } else {
                    log.response("OK", cat3("Added anyway (id=", r.data.as_str(), ")").as_str());
                    log.warn("Scope validation not supported for this language (expected)");
                    self.at_enable_group(log)
                }
            },
            Event::Text(Err(e)) => {
                if contains(e.message.as_str(), "not in scope") || contains(
                    e.message.as_str(),
                    "Invalid",
                ) {
                    log.response("ERROR", "Variable not in scope (expected)");
                    log.success("Scope validation correctly rejected invalid variable");
                } else {
                    log.response("ERROR", e.message.as_str());
                    log.success("Metric rejected (possibly for different reason)");
                }
                self.at_enable_group(log)
            },
            _ => self.at_enable_group(log),
        }
    }

    fn on_enabled(&mut self, log: &mut Log, event: &Event) -> (next: Next<WorkflowResult>)
        requires
            event.spec_kind() == EventKind::Count,
        ensures
            final(self).setup == old(self).setup,
            turn_is(
                *final(self),
                final(log)@,
                next,
                on_enabled(old(self).setup, old(self)@, old(log)@, *event),
            ),
    {
        match event {
            Event::Count(Ok(r)) => {
                let expected: usize = self.setup.config.metrics.len();
                let text: String = cat2(num_usize(r.data).as_str(), " metrics enabled");
                log.response("OK", text.as_str());
                if r.data != expected {
                    let error: String = if r.data == 0 {
                        cat3(
                            "enable_group returned 0 metrics - expected ",
                            num_usize(expected).as_str(),
                            " to be enabled. This indicates group name mismatch or metrics not saved with correct group.",
                        )
                    } else {
                        cat5(
                            "enable_group returned ",
                            num_usize(r.data).as_str(),
                            " metrics - expected ",
                            num_usize(expected).as_str(),
                            " to be enabled",
                        )
                    };
                    self.abort(log, error)
                } else {
                    log.success(text.as_str());
                    self.at_wait(log)
                }
            },
            Event::Count(Err(e)) => {
                self.fail_with(
                    log,
                    e.message.as_str(),
                    cat2("Failed to enable group: ", e.message.as_str()),
                )
            },
            _ => self.at_wait(log),
        }
    }

    fn on_stopped(&mut self, log: &mut Log, first: usize, other: usize, count: usize) -> (next:
        Next<WorkflowResult>)
        requires
            old(self).setup.metrics().len() > 0,
        ensures
            final(self).setup == old(self).setup,
            turn_is(
                *final(self),
                final(log)@,
                next,
                on_stopped(old(self).setup, old(self)@, old(log)@, first, other, count),
            ),
    {
        let ms: u64 = self.setup.config.iteration_duration_ms;
        let wait: u64 = single_wait_ms(ms);
        let threshold: usize = sat_add(first, allowed_new_events(wait, ms));
        let numbers: String = cat7(
            "before=",
            num_usize(first).as_str(),
            ", after=",
            num_usize(count).as_str(),
            ", threshold=",
            num_usize(threshold).as_str(),
            ")",
        );
        if count <= threshold {
            log.success(cat2("Metric capture reduced (", numbers.as_str()).as_str());
            self.at_verify_other(log, other)
        } else {
            let error: String = cat4(
                "Disabled metric '",
                self.setup.config.metrics[0].name.as_str(),
                "' still capturing too many events (",
                numbers.as_str(),
            );
            self.abort(log, error)
        }
    }

    fn on_other(&mut self, log: &mut Log, other: usize, count: usize) -> (next: Next<
        WorkflowResult,
    >)
        requires
            old(self).setup.metrics().len() > 1,
        ensures
            final(self).setup == old(self).setup,
            turn_is(
                *final(self),
                final(log)@,
                next,
                on_other(old(self).setup, old(self)@, old(log)@, other, count),
            ),
    {
        if count > other {
            log.success(
                cat5(
                    "Other metric still capturing (before=",
                    num_usize(other).as_str(),
                    ", after=",
                    num_usize(count).as_str(),
                    ")",
                ).as_str(),
            );
            self.at_baselines(log)
        } else if other == 0 {
            let error: String = cat3(
                "Cannot verify metric isolation: '",
                self.setup.config.metrics[1].name.as_str(),
                "' had no events before disable (baseline=0). All metrics must capture at least one event during Phase 4 for isolation tests to work. Check that the metric line number is on a real executable statement.",
            );
            self.abort(log, error)
        } else {
            let error: String = cat9(
                "Other metric stopped capturing after single metric disable (before=",
                num_usize(other).as_str(),
                ", after=",
                num_usize(count).as_str(),
                "). Disabling metric '",
                self.setup.config.metrics[0].name.as_str(),
                "' caused other metric '",
                self.setup.config.metrics[1].name.as_str(),
                "' to stop capturing events. This indicates a bug - disabling one metric should not affect others.",
            );
            log.error(error.as_str());
            self.phase = Phase::Finished;
            Next::Finish(Err(error))
        }
    }

    fn on_group_counted(&mut self, log: &mut Log, index: usize, count: usize) -> (next: Next<
        WorkflowResult,
    >)
        requires
            limits_ok(old(self).setup),
            index < old(self).setup.metrics().len(),
            old(self).baselines.len() == old(self).setup.metrics().len(),
        ensures
            final(self).setup == old(self).setup,
            turn_is(
                *final(self),
                final(log)@,
                next,
                on_group_counted(old(self).setup, old(self)@, old(log)@, index, count),
            ),
    {
        let ms: u64 = self.setup.config.iteration_duration_ms;
        let baseline: usize = self.baselines[index];
        let threshold: usize = sat_add(baseline, allowed_new_events(ms * 2, ms));
        if count > threshold {
            let text: String = cat9(
                "'",
                self.setup.config.metrics[index].name.as_str(),
                "' (before=",
                num_usize(baseline).as_str(),
                ", after=",
                num_usize(count).as_str(),
                ", threshold=",
                num_usize(threshold).as_str(),
                ")",
            );
            let ghost before = self.capturing@;
            self.capturing.push(text);
            assert(views(self.capturing@) =~= views(before).push(text@));
        }
        self.at_verify_group(log, index + 1)
    }

    fn report_done(log: &mut Log, event: &Event, text: &str)
        ensures
            final(log)@ == log_done(old(log)@, *event, text@),
    {
        match event {
            Event::Done(Ok(_)) => log.success(text),
            Event::Done(Err(e)) => log.failed(e.message.as_str()),
            _ => {},
        }
    }

    fn count_of(event: &Event) -> (n: usize)
        requires
            event.spec_kind() == EventKind::Events,
        ensures
            n == event_count(event->Events_0),
    {
        match event {
            Event::Events(reply) => count_events(reply),
            _ => 0,
        }
    }

    /// Takes the event that answers the last action; gives the reports and how the run goes on.
    pub fn resume(&mut self, event: &Event) -> (step: WorkflowStep)
        requires
            old(self).wf(),
            !(old(self).phase is Finished),
            event.spec_kind() == old(self).phase.answer(),
        ensures
            final(self).wf(),
            final(self).setup == old(self).setup,
            turn_is(
                *final(self),
                step.log@,
                step.next,
                on_event(old(self).setup, old(self)@, *event),
            ),
            step.next is Finish <==> final(self).phase is Finished,
            step.next matches Next::Ask(a) ==> a@.answer() == final(self).phase.answer(),
    {
        let mut log: Log = Log::new();
        proof {
            law_turn_keeps_state(self.setup, self@, *event);
        }
        let next: Next<WorkflowResult> = match self.phase {
            Phase::Health => match event {
                Event::Health(Ok(true)) => {
                    log.success("API healthy");
                    self.at_connect(&mut log)
                },
                Event::Health(Err(e)) => self.fail_with(
                    &mut log,
                    e.message.as_str(),
                    cat2("Health check failed: ", e.message.as_str()),
                ),
                _ => self.abort(&mut log, "API unhealthy".to_owned()),
            },
            Phase::Connect => match event {
                Event::Connection(Ok(r)) => {
                    let id: String = r.data.connection_id.clone();
                    log.response("OK", cat2("id=", id.as_str()).as_str());
                    log.success(cat2("Connected: ", id.as_str()).as_str());
                    self.connection_id = id;
                    self.pause(Phase::Handshake, 2000)
                },
                Event::Connection(Err(e)) => self.fail_with(
                    &mut log,
                    e.message.as_str(),
                    cat2("Failed to connect: ", e.message.as_str()),
                ),
                _ => self.pause(Phase::Handshake, 2000),
            },
            Phase::Handshake => self.at_inspect_code(&mut log),
            Phase::InspectCode => {
                match event {
                    Event::Text(Ok(r)) => {
                        log.response(
                            "OK",
                            cat2(
                                num_usize(r.data.as_str().len()).as_str(),
                                " chars of context",
                            ).as_str(),
                        );
                        if !r.data.as_str().is_empty() {
                            log.info(
                                cat3(
                                    "Code preview: ",
                                    take_chars(r.data.as_str(), 100).as_str(),
                                    "...",
                                ).as_str(),
                            );
                        }
                        log.success("Code context retrieved");
                    },
                    Event::Text(Err(e)) => {
                        log.failed(e.message.as_str());
                        log.warn("Continuing without code inspection...");
                    },
                    _ => {},
                }
                self.at_inspect_variable(&mut log)
            },
            Phase::InspectVariable => {
                match event {
                    Event::Text(Ok(r)) => {
                        log.response(
                            "OK",
                            cat2(num_usize(r.data.as_str().len()).as_str(), " chars").as_str(),
                        );
                        log.success("Variable info retrieved");
                    },
                    Event::Text(Err(e)) => {
                        log.failed(e.message.as_str());
                        log.warn("Continuing without variable inspection...");
                    },
                    _ => {},
                }
                log.section("PHASE 3: ADD METRICS TO GROUP");
                self.at_add_metric(&mut log, 0)
            },
            Phase::AddMetric { index } => match event {
                Event::Text(Ok(r)) => {
                    log.response("OK", cat3("id=", r.data.as_str(), " (disabled)").as_str());
                    log.success(
                        cat5(
                            "Added '",
                            self.setup.config.metrics[index].name.as_str(),
                            "' as disabled (id=",
                            r.data.as_str(),
                            ")",
                        ).as_str(),
                    );
                    self.result.metrics_added = self.result.metrics_added + 1;
                    self.at_add_metric(&mut log, index + 1)
                },
                Event::Text(Err(e)) => {
                    let error: String = cat4(
                        "Failed to add metric '",
                        self.setup.config.metrics[index].name.as_str(),
                        "': ",
                        e.message.as_str(),
                    );
                    self.fail_with(&mut log, e.message.as_str(), error)
                },
                _ => self.at_add_metric(&mut log, index + 1),
            },
            Phase::AddInvalid => self.on_invalid(&mut log, event),
            Phase::EnableGroup => self.on_enabled(&mut log, event),
            Phase::WaitTimer => match event {
                Event::Timer { expired: true } => {
                    self.missing = Vec::new();
                    assert(views(self.missing@) =~= Seq::<Seq<char>>::empty());
                    self.at_wait_missing(&mut log, 0)
                },
                _ => self.at_wait_poll(&mut log, 0, 0, 0),
            },
            Phase::WaitPoll { index, total, active } => match event {
                Event::Events(Ok(r)) => {
                    let count: usize = r.data.len();
                    if count > 0 {
                        log.info(
                            cat5(
                                "  ",
                                self.setup.config.metrics[index].name.as_str(),
                                " captured ",
                                num_usize(count).as_str(),
                                " event(s)",
                            ).as_str(),
                        );
                        report_events(&mut log, &r.data);
                        self.at_wait_poll(&mut log, index + 1, sat_add(total, count), active + 1)
                    } else {
                        self.at_wait_poll(&mut log, index + 1, total, active)
                    }
                },
                _ => self.at_wait_poll(&mut log, index + 1, total, active),
            },
            Phase::WaitPause => {
                let limit: u64 = self.setup.config.event_wait_secs;
                self.timer(Phase::WaitTimer, false, limit)
            },
            Phase::WaitMissing { index } => {
                if Self::count_of(event) == 0 {
                    let ghost before = self.missing@;
                    let name: String = self.setup.config.metrics[index].name.clone();
                    self.missing.push(name);
                    assert(views(self.missing@) =~= views(before).push(name@));
                }
                self.at_wait_missing(&mut log, index + 1)
            },
            Phase::MultiList { index } => {
                let m: &MetricPoint = &self.setup.config.metrics[index];
                match event {
                    Event::Metrics(Ok(r)) => report_multi_list(&mut log, m, &r.data),
                    Event::Metrics(Err(e)) => log.warn(
                        cat2(
                            "Failed to list metrics for multi-expr check: ",
                            e.message.as_str(),
                        ).as_str(),
                    ),
                    _ => {},
                }
                log.start(
                    "Verify Multi-Expr Events",
                    cat5(
                        "Check '",
                        m.name.as_str(),
                        "' events have ",
                        num_expressions(m).as_str(),
                        " expression values",
                    ).as_str(),
                );
                let name: String = m.name.clone();
                self.query(Phase::MultiEvents { index }, name, 10)
            },
            Phase::MultiEvents { index } => {
                match event {
                    Event::Events(Ok(r)) => report_multi_events(
                        &mut log,
                        &self.setup.config.metrics[index],
                        &r.data,
                    ),
                    Event::Events(Err(e)) => log.warn(
                        cat2(
                            "Failed to query events for multi-expr check: ",
                            e.message.as_str(),
                        ).as_str(),
                    ),
                    _ => {},
                }
                self.at_multi(&mut log, index + 1)
            },
            Phase::BaselineFirst => {
                let first: usize = Self::count_of(event);
                if self.setup.config.metrics.len() > 1 {
                    let name: String = self.setup.config.metrics[1].name.clone();
                    self.query(Phase::BaselineOther { first }, name, 100)
                } else {
                    self.at_toggle(&mut log, first, 0)
                }
            },
            Phase::BaselineOther { first } => {
                let other: usize = Self::count_of(event);
                self.at_toggle(&mut log, first, other)
            },
            Phase::ToggleFirst { first, other } => {
                match event {
                    Event::Done(Ok(_)) => {
                        log.response("OK", "Metric disabled");
                        log.success(
                            cat3(
                                "'",
                                self.setup.config.metrics[0].name.as_str(),
                                "' disabled",
                            ).as_str(),
                        );
                    },
                    Event::Done(Err(e)) => log.failed(e.message.as_str()),
                    _ => {},
                }
                let wait: u64 = single_wait_ms(self.setup.config.iteration_duration_ms);
                self.pause(Phase::SettleFirst { first, other }, wait)
            },
            Phase::SettleFirst { first, other } => {
                log.start(
                    "Verify Metric Stopped",
                    "Check that disabled metric doesn't capture new events",
                );
                let name: String = self.setup.config.metrics[0].name.clone();
                self.query(Phase::VerifyStopped { first, other }, name, 100)
            },
            Phase::VerifyStopped { first, other } => {
                let count: usize = Self::count_of(event);
                self.on_stopped(&mut log, first, other, count)
            },
            Phase::VerifyOther { other } => {
                let count: usize = Self::count_of(event);
                self.on_other(&mut log, other, count)
            },
            Phase::BaselineAll { index } => {
                self.baselines.push(Self::count_of(event));
                self.at_baseline(&mut log, index + 1)
            },
            Phase::DisableGroup => {
                match event {
                    Event::Count(Ok(r)) => {
                        log.response(
                            "OK",
                            cat2(num_usize(r.data).as_str(), " metrics disabled").as_str(),
                        );
                        log.success(
                            cat3(
                                "Group '",
                                self.setup.config.group_name.as_str(),
                                "' disabled",
                            ).as_str(),
                        );
                    },
                    Event::Count(Err(e)) => log.failed(e.message.as_str()),
                    _ => {},
                }
                let wait: u64 = self.setup.config.iteration_duration_ms * 2;
                self.pause(Phase::SettleGroup, wait)
            },
            Phase::SettleGroup => {
                self.capturing = Vec::new();
                assert(views(self.capturing@) =~= Seq::<Seq<char>>::empty());
                log.start(
                    "Verify Group Stopped",
                    "Wait and verify no new events for any metric",
                );
                self.at_verify_group(&mut log, 0)
            },
            Phase::VerifyGroup { index } => {
                let count: usize = Self::count_of(event);
                self.on_group_counted(&mut log, index, count)
            },
            Phase::IntroAdd { index } => {
                let m: &MetricPoint = &self.setup.config.introspection_metrics[index];
                match event {
                    Event::Text(Ok(r)) => {
                        log.response("OK", cat2("id=", r.data.as_str()).as_str());
                        log.success(
                            cat4("Added '", m.name.as_str(), "' with ", feature_text(m)).as_str(),
                        );
                        self.result.introspection_metrics_added =
                        self.result.introspection_metrics_added + 1;
                    },
                    Event::Text(Err(e)) => {
                        log.failed(e.message.as_str());
                        log.warn(
                            cat4(
                                "Failed to add introspection metric '",
                                m.name.as_str(),
                                "': ",
                                e.message.as_str(),
                            ).as_str(),
                        );
                    },
                    _ => {},
                }
                self.at_intro_add(&mut log, index + 1)
            },
            Phase::IntroTimer => match event {
                Event::Timer { expired: true } => {
                    log.warn("Timeout waiting for introspection events");
                    self.at_intro_verify(&mut log)
                },
                _ => self.at_intro_poll(&mut log, 0, 0, 0, 0),
            },
            Phase::IntroPoll { index, total, stacks, memories } => match event {
                Event::Events(Ok(r)) => {
                    let count: usize = r.data.len();
                    if count > 0 {
                        let m: &MetricPoint = &self.setup.config.introspection_metrics[index];
                        log.info(
                            cat5(
                                "  ",
                                m.name.as_str(),
                                " captured ",
                                num_usize(count).as_str(),
                                " introspection event(s)",
                            ).as_str(),
                        );
                        report_intro_events(&mut log, &r.data);
                        let stacks_now: usize = if m.capture_stack_trace {
                            sat_add(stacks, count)
                        } else {
                            stacks
                        };
                        let memories_now: usize = if m.capture_memory_snapshot {
                            sat_add(memories, count)
                        } else {
                            memories
                        };
                        self.at_intro_poll(
                            &mut log,
                            index + 1,
                            sat_add(total, count),
                            stacks_now,
                            memories_now,
                        )
                    } else {
                        self.at_intro_poll(&mut log, index + 1, total, stacks, memories)
                    }
                },
                _ => self.at_intro_poll(&mut log, index + 1, total, stacks, memories),
            },
            Phase::IntroPause => {
                let limit: u64 = self.setup.config.event_wait_secs / 2;
                self.timer(Phase::IntroTimer, false, limit)
            },
            Phase::IntroRemove { index } => self.at_intro_remove(&mut log, index + 1),
            Phase::Remove { index } => {
                Self::report_done(&mut log, event, "Removed");
                self.at_remove(&mut log, index + 1)
            },
            Phase::RemoveInvalid => self.at_close(&mut log),
            Phase::Close => {
                Self::report_done(&mut log, event, "Connection closed");
                self.at_summary(&mut log)
            },
            Phase::Finished => Next::Ask(Action::Health),
        };
        WorkflowStep { log, next }
    }
}

/// The state before a run has done anything.
pub open spec fn initial_state() -> WorkflowState {
    WorkflowState {
        phase: Phase::Health,
        connection_id: Seq::empty(),
        missing: Seq::empty(),
        baselines: Seq::empty(),
        capturing: Seq::empty(),
        result: WorkflowResult {
            metrics_added: 0,
            total_events: 0,
            introspection_metrics_added: 0,
            introspection_events: 0,
            stack_trace_events: 0,
            memory_snapshot_events: 0,
        },
    }
}

impl DapWorkflowScenarios {
    /// Starts a run of the workflow. `display_name` names the language where its adapter has
    /// no name of its own.
    pub fn run_workflow(
        config: DapWorkflowConfig,
        display_name: &'static str,
        scope_validation: bool,
        debugger_port: u16,
        source_path: String,
        program: Option<String>,
    ) -> (r: (WorkflowRun, WorkflowStep))
        requires
            config.iteration_duration_ms * 2 <= u64::MAX,
            config.metrics.len() < usize::MAX,
            config.introspection_metrics.len() < usize::MAX,
            forall|i: int|
                0 <= i < config.metrics@.len() ==> (
                #[trigger] config.metrics@[i]).extra_expressions@.len() < usize::MAX,
        ensures
            r.0.wf(),
            r.0.setup.config == config,
            r.0.setup.adapter@ == adapter_name(config.language, display_name@),
            r.0.setup.scope_validation == scope_validation,
            r.0.setup.debugger_port == debugger_port,
            r.0.setup.source_path == source_path,
            r.0.setup.program == program,
            turn_is(
                r.0,
                r.1.log@,
                r.1.next,
                at_health(r.0.setup, initial_state(), Seq::empty()),
            ),
    {
        let adapter: String = config.language.dap_display_name(display_name).to_owned();
        let mut run = WorkflowRun {
            setup: WorkflowSetup {
                config,
                adapter,
                scope_validation,
                debugger_port,
                source_path,
                program,
            },
            phase: Phase::Health,
            connection_id: String::new(),
            missing: Vec::new(),
            baselines: Vec::new(),
            capturing: Vec::new(),
            result: WorkflowResult {
                metrics_added: 0,
                total_events: 0,
                introspection_metrics_added: 0,
                introspection_events: 0,
                stack_trace_events: 0,
                memory_snapshot_events: 0,
            },
        };
        proof {
            assert(run@.missing =~= Seq::<Seq<char>>::empty());
            assert(run@.capturing =~= Seq::<Seq<char>>::empty());
            assert(run@.baselines =~= Seq::<usize>::empty());
        }
        let mut log: Log = Log::new();
        let next: Next<WorkflowResult> = run.at_health(&mut log);
        (run, WorkflowStep { log, next })
    }
}

/// A run that ends well has added every metric of its configuration, and ends by closing its
/// connection.
pub proof fn law_success_adds_all_metrics(setup: WorkflowSetup, s: WorkflowState, event: Event)
    requires
        limits_ok(setup),
        state_ok(setup, s),
        !(s.phase is Finished),
        event.spec_kind() == s.phase.answer(),
        on_event(setup, s, event).next matches NextView::Finish(Ok(_)),
    ensures
        s.phase is Close,
        on_event(setup, s, event).next == NextView::<WorkflowResult>::Finish(Ok(s.result)),
        s.result.metrics_added == setup.metrics().len(),
        s.result.introspection_metrics_added <= setup.intro().len(),
{
    match s.phase {
        Phase::WaitTimer | Phase::WaitPoll { .. } | Phase::WaitMissing { .. }
        | Phase::MultiEvents { .. } => {
            assert forall|t: WorkflowState, log: Seq<ReportView>, i: usize|
                i <= setup.metrics().len() && t.result.metrics_added == setup.metrics().len()
                    && t.result.introspection_metrics_added == 0 implies (#[trigger] at_multi(
                setup,
                t,
                log,
                i,
            )).next is Ask by {
                lemma_multi(setup, t, log, i);
                lemma_multi_asks(setup, t, log, i);
            }
        },
        _ => {},
    }
}

proof fn lemma_multi_asks(
    setup: WorkflowSetup,
    s: WorkflowState,
    log: Seq<ReportView>,
    index: usize,
)
    requires
        limits_ok(setup),
        index <= setup.metrics().len(),
    ensures
        at_multi(setup, s, log, index).next is Ask,
    decreases setup.metrics().len() - index,
{
    if index < setup.metrics().len() && setup.metrics()[index as int].extra_expressions@.len() == 0 {
        lemma_multi_asks(setup, s, log, (index + 1) as usize);
    }
}

/// Cleaning up cannot fail: from the first removal on, no answer ends the run with an error.
pub proof fn law_cleanup_never_fails(setup: WorkflowSetup, s: WorkflowState, event: Event)
    requires
        s.phase is IntroRemove || s.phase is Remove || s.phase is RemoveInvalid || s.phase is Close,
    ensures
        !(on_event(setup, s, event).next matches NextView::Finish(Err(_))),
{
}

/// A group that enables another number of metrics than were added ends the run with an error.
pub proof fn law_partial_enable_fails(setup: WorkflowSetup, s: WorkflowState, event: Event)
    requires
        s.phase is EnableGroup,
        event matches Event::Count(Ok(r)) && r.data != setup.metrics().len(),
    ensures
        on_event(setup, s, event).next matches NextView::Finish(Err(_)),
{
}

/// Disabling one metric must not stop another: if the second metric has no more events than
/// before, the run ends with an error.
pub proof fn law_isolation(setup: WorkflowSetup, s: WorkflowState, other: usize, event: Event)
    requires
        s.phase == (Phase::VerifyOther { other }),
        event matches Event::Events(reply) && event_count(reply) <= other,
    ensures
        on_event(setup, s, event).next matches NextView::Finish(Err(_)),
{
}

} // verus!
