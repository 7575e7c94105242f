//! The reconnection workflow, as a state machine: metrics must go on capturing events when the
//! debugger connection is closed and opened again.
//!
//! [`DapWorkflowScenarios::run_reconnection_workflow`] starts a run;
//! [`ReconnectionRun::resume`] takes the event that answers the last action and says how the
//! run goes on. Waiting for events is a part of its own, [`wait_for_events`] and what follows
//! it, that runs once at first and once in every cycle.

use vstd::prelude::*;

use super::workflow::{location, location_text};
use super::{
    adapter_name, api_name, DapLanguageExt, DapWorkflowConfig, DapWorkflowScenarios, MetricPoint,
};
use crate::client::{bare_request, AddMetricRequest, AddMetricRequestView};
use crate::exchange::{ask, fail, finish, Action, ActionView, Event, EventKind, Next, NextView, Turn};
use crate::report::{failed, start, success, Log, ReportView, Slot};
use crate::text::{
    cat2, cat3, cat4, cat6, clone_opt, debug_opt_text, debug_sizes, decimal, format_debug_opt,
    format_sizes, num, num_usize, opt_view, sat_add, sat_sum,
};

verus! {

/// What a run is about.
pub struct ReconnectionSetup {
    pub config: DapWorkflowConfig,
    /// The language with its adapter, for people.
    pub adapter: String,
    pub debugger_port: u16,
    pub source_path: String,
    /// How often to reconnect.
    pub cycles: usize,
    /// Whether the debugger has to be restarted between connections.
    pub restart: bool,
    pub program: Option<String>,
}

impl ReconnectionSetup {
    /// The number of metrics in use: the first two, or fewer where there are fewer.
    pub open spec fn used(&self) -> nat {
        if self.config.metrics@.len() < 2 {
            self.config.metrics@.len()
        } else {
            2
        }
    }

    fn used_exec(&self) -> (r: usize)
        ensures
            r == self.used(),
    {
        if self.config.metrics.len() < 2 {
            self.config.metrics.len()
        } else {
            2
        }
    }
}

/// The result of a run.
#[derive(Debug)]
pub struct ReconnectionResult {
    pub metrics_added: usize,
    pub reconnection_cycles: usize,
    pub events_per_cycle: Vec<usize>,
    pub total_events: usize,
}

/// The mathematical counterpart of [`ReconnectionResult`].
pub struct ReconnectionResultView {
    pub metrics_added: usize,
    pub reconnection_cycles: usize,
    pub events_per_cycle: Seq<usize>,
    pub total_events: usize,
}

impl View for ReconnectionResult {
    type V = ReconnectionResultView;

    open spec fn view(&self) -> ReconnectionResultView {
        ReconnectionResultView {
            metrics_added: self.metrics_added,
            reconnection_cycles: self.reconnection_cycles,
            events_per_cycle: self.events_per_cycle@,
            total_events: self.total_events,
        }
    }
}

/// The action that a run is waiting for. Cycle 0 is the connection that the run begins with.
#[derive(Debug, Clone, Copy)]
pub enum Phase {
    Health,
    Connect,
    Handshake,
    AddMetric { index: usize },
    Timer { cycle: usize },
    Poll { cycle: usize, index: usize, total: usize, all: bool },
    PollPause { cycle: usize },
    Tally { cycle: usize, index: usize, total: usize },
    Disconnect { cycle: usize },
    DisconnectPause { cycle: usize },
    Restart { cycle: usize },
    RestartPause { cycle: usize },
    Reconnect { cycle: usize },
    ReconnectPause { cycle: usize },
    Remove { index: usize },
    Close,
    Finished,
}

/// The state of a run.
pub struct ReconnectionState {
    pub phase: Phase,
    pub connection_id: Seq<char>,
    pub result: ReconnectionResultView,
}

impl ReconnectionState {
    /// The state in another phase.
    pub open spec fn at(self, phase: Phase) -> ReconnectionState {
        ReconnectionState { phase, ..self }
    }
}

pub type ReconnectionTurn = Turn<ReconnectionState, ReconnectionResultView>;

/// A run of the reconnection workflow.
pub struct ReconnectionRun {
    pub setup: ReconnectionSetup,
    pub phase: Phase,
    pub connection_id: String,
    pub result: ReconnectionResult,
}

impl View for ReconnectionRun {
    type V = ReconnectionState;

    open spec fn view(&self) -> ReconnectionState {
        ReconnectionState {
            phase: self.phase,
            connection_id: self.connection_id@,
            result: self.result@,
        }
    }
}

impl Phase {
    /// The kind of event that the phase waits for.
    pub open spec fn answer(self) -> EventKind {
        match self {
            Phase::Health => EventKind::Health,
            Phase::Connect | Phase::Reconnect { .. } => EventKind::Connection,
            Phase::AddMetric { .. } => EventKind::Text,
            Phase::Timer { .. } => EventKind::Timer,
            Phase::Poll { .. } | Phase::Tally { .. } => EventKind::Events,
            Phase::Disconnect { .. } | Phase::Remove { .. } | Phase::Close => EventKind::Done,
            Phase::Restart { .. } => EventKind::Restarted,
            Phase::Handshake | Phase::PollPause { .. } | Phase::DisconnectPause { .. }
            | Phase::RestartPause { .. } | Phase::ReconnectPause { .. } | Phase::Finished =>
                EventKind::Paused,
        }
    }
}

// ---------------------------------------------------------------------------
// The machine, as a function
// ---------------------------------------------------------------------------

/// The request that adds a metric, enabled.
pub open spec fn metric_request(
    setup: ReconnectionSetup,
    metric: MetricPoint,
    connection_id: Seq<char>,
) -> AddMetricRequestView {
    AddMetricRequestView {
        language: Some(api_name(setup.config.language)),
        group: opt_view(metric.group),
        enabled: Some(true),
        ..bare_request(
            metric.name@,
            location_text(setup.source_path@, metric.line),
            seq![metric.expression@],
            connection_id,
        )
    }
}

/// Where a connection goes, for people.
pub open spec fn target_text(setup: ReconnectionSetup) -> Seq<char> {
    setup.adapter@ + " at 127.0.0.1:"@ + decimal(setup.debugger_port as nat) + " (program="@
        + debug_opt_text(opt_view(setup.program)) + ")"@
}

/// The action that opens a connection.
pub open spec fn connect_action(setup: ReconnectionSetup) -> ActionView {
    ActionView::CreateConnection(
        "127.0.0.1"@,
        setup.debugger_port,
        api_name(setup.config.language),
        opt_view(setup.program),
    )
}

/// The run begins.
pub open spec fn at_health(
    setup: ReconnectionSetup,
    s: ReconnectionState,
    log: Seq<ReportView>,
) -> ReconnectionTurn {
    ask(
        s.at(Phase::Health),
        log.push(ReportView::Section("PHASE 1: INITIAL SETUP ("@ + setup.adapter@ + ")"@)).push(
            start("Health Check"@, "Verify API is healthy"@),
        ),
        ActionView::Health,
    )
}

/// The run opens its first connection.
pub open spec fn at_connect(
    setup: ReconnectionSetup,
    s: ReconnectionState,
    log: Seq<ReportView>,
) -> ReconnectionTurn {
    ask(
        s.at(Phase::Connect),
        log.push(start("Initial Connection"@, "Connect to "@ + target_text(setup))),
        connect_action(setup),
    )
}

/// The run adds the metric at a position; behind the last one it waits for events.
pub open spec fn at_add_metric(
    setup: ReconnectionSetup,
    s: ReconnectionState,
    log: Seq<ReportView>,
    index: usize,
) -> ReconnectionTurn {
    if index < setup.used() {
        let m = setup.config.metrics@[index as int];
        ask(
            s.at(Phase::AddMetric { index }),
            log.push(
                start(
                    "Add Metric"@,
                    "Add '"@ + m.name@ + "' at line "@ + decimal(m.line as nat),
                ),
            ),
            ActionView::AddMetric(metric_request(setup, m, s.connection_id)),
        )
    } else {
        wait_for_events(
            setup,
            s,
            log.push(ReportView::Section("PHASE 3: INITIAL EVENT CAPTURE"@)),
            0,
        )
    }
}

/// The run begins to wait for events.
pub open spec fn wait_for_events(
    setup: ReconnectionSetup,
    s: ReconnectionState,
    log: Seq<ReportView>,
    cycle: usize,
) -> ReconnectionTurn {
    let limit = setup.config.event_wait_secs / 2;
    ask(
        s.at(Phase::Timer { cycle }),
        log.push(
            ReportView::StepStart(
                Slot::Nested,
                "Wait for Events"@,
                "Wait for events (up to "@ + decimal(limit as nat) + "s)"@,
            ),
        ),
        ActionView::CheckTimer(true, limit),
    )
}

/// The run asks for the events of the metric at a position; behind the last one it goes on if
/// every metric has events, and pauses otherwise.
pub open spec fn at_poll(
    setup: ReconnectionSetup,
    s: ReconnectionState,
    log: Seq<ReportView>,
    cycle: usize,
    index: usize,
    total: usize,
    all: bool,
) -> ReconnectionTurn {
    if index < setup.used() {
        ask(
            s.at(Phase::Poll { cycle, index, total, all }),
            log,
            ActionView::QueryEvents(setup.config.metrics@[index as int].name@, 100),
        )
    } else if all && total > 0 {
        at_events(
            setup,
            s,
            log.push(
                ReportView::Success(
                    Slot::Nested,
                    Some(decimal(total as nat) + " events captured"@),
                ),
            ),
            cycle,
            total,
        )
    } else {
        ask(s.at(Phase::PollPause { cycle }), log, ActionView::Pause(1000))
    }
}

/// The time is up: the run counts the events of the metric at a position; behind the last one
/// it goes on if there are any, and fails otherwise.
pub open spec fn at_tally(
    setup: ReconnectionSetup,
    s: ReconnectionState,
    log: Seq<ReportView>,
    cycle: usize,
    index: usize,
    total: usize,
) -> ReconnectionTurn {
    if index < setup.used() {
        ask(
            s.at(Phase::Tally { cycle, index, total }),
            log,
            ActionView::QueryEvents(setup.config.metrics@[index as int].name@, 100),
        )
    } else if total > 0 {
        at_events(
            setup,
            s,
            log.push(
                ReportView::Success(
                    Slot::Nested,
                    Some(decimal(total as nat) + " events (timeout)"@),
                ),
            ),
            cycle,
            total,
        )
    } else {
        fail(
            s.at(Phase::Finished),
            log.push(ReportView::Failed(Slot::Nested, "Timeout: no events captured"@)),
            "Timeout waiting for events"@,
        )
    }
}

/// The result with the events of one more cycle.
pub open spec fn with_events(r: ReconnectionResultView, total: usize, cycles: usize) -> ReconnectionResultView {
    ReconnectionResultView {
        events_per_cycle: r.events_per_cycle.push(total),
        total_events: sat_sum(r.total_events, total),
        reconnection_cycles: cycles,
        ..r
    }
}

/// Events were captured in a cycle.
pub open spec fn at_events(
    setup: ReconnectionSetup,
    s: ReconnectionState,
    log: Seq<ReportView>,
    cycle: usize,
    total: usize,
) -> ReconnectionTurn {
    if cycle == 0 {
        at_cycle(
            setup,
            ReconnectionState {
                result: with_events(s.result, total, s.result.reconnection_cycles),
                ..s
            },
            log.push(
                ReportView::Info("Initial cycle captured "@ + decimal(total as nat) + " events"@),
            ),
            1,
        )
    } else if total > 0 {
        at_cycle(
            setup,
            ReconnectionState {
                result: with_events(
                    s.result,
                    total,
                    (s.result.reconnection_cycles + 1) as usize,
                ),
                ..s
            },
            log.push(
                success("Captured "@ + decimal(total as nat) + " events after reconnection"@),
            ),
            (cycle + 1) as usize,
        )
    } else {
        fail(
            s.at(Phase::Finished),
            log.push(failed("No events captured after reconnection"@)),
            "Reconnection cycle "@ + decimal(cycle as nat) + " failed: no events captured"@,
        )
    }
}

/// The run begins a cycle, or cleans up behind the last one.
pub open spec fn at_cycle(
    setup: ReconnectionSetup,
    s: ReconnectionState,
    log: Seq<ReportView>,
    cycle: usize,
) -> ReconnectionTurn {
    let c = decimal(cycle as nat);
    if cycle <= setup.cycles {
        ask(
            s.at(Phase::Disconnect { cycle }),
            log.push(ReportView::Section("PHASE 4."@ + c + ": RECONNECTION CYCLE "@ + c)).push(
                start("Disconnect"@, "Close connection '"@ + s.connection_id + "'"@),
            ),
            ActionView::CloseConnection(s.connection_id),
        )
    } else {
        at_remove(setup, s, log.push(ReportView::Section("PHASE 5: CLEANUP"@)), 0)
    }
}

/// The run reconnects.
pub open spec fn at_reconnect(
    setup: ReconnectionSetup,
    s: ReconnectionState,
    log: Seq<ReportView>,
    cycle: usize,
) -> ReconnectionTurn {
    ask(
        s.at(Phase::Reconnect { cycle }),
        log.push(start("Reconnect"@, "Reconnect to "@ + target_text(setup))),
        connect_action(setup),
    )
}

/// The run removes the metric at a position; behind the last one it closes its connection.
pub open spec fn at_remove(
    setup: ReconnectionSetup,
    s: ReconnectionState,
    log: Seq<ReportView>,
    index: usize,
) -> ReconnectionTurn {
    if index < setup.used() {
        let name = setup.config.metrics@[index as int].name@;
        ask(
            s.at(Phase::Remove { index }),
            log.push(start("Remove Metric"@, "Remove '"@ + name + "'"@)),
            ActionView::RemoveMetric(name),
        )
    } else {
        ask(
            s.at(Phase::Close),
            log.push(start("Close Connection"@, "Close '"@ + s.connection_id + "'"@)),
            ActionView::CloseConnection(s.connection_id),
        )
    }
}

/// The run sums up.
pub open spec fn at_summary(
    setup: ReconnectionSetup,
    s: ReconnectionState,
    log: Seq<ReportView>,
) -> ReconnectionTurn {
    finish(
        s.at(Phase::Finished),
        log.push(
            ReportView::Section("RECONNECTION TEST COMPLETE ("@ + setup.adapter@ + ")"@),
        ).push(ReportView::Info("Metrics added: "@ + decimal(s.result.metrics_added as nat))).push(
            ReportView::Info(
                "Reconnection cycles completed: "@ + decimal(s.result.reconnection_cycles as nat),
            ),
        ).push(
            ReportView::Info("Events per cycle: "@ + debug_sizes(s.result.events_per_cycle)),
        ).push(ReportView::Info("Total events: "@ + decimal(s.result.total_events as nat))),
        s.result,
    )
}

/// How a run goes on after an event.
pub open spec fn on_event(
    setup: ReconnectionSetup,
    s: ReconnectionState,
    event: Event,
) -> ReconnectionTurn {
    let log = Seq::<ReportView>::empty();
    match s.phase {
        Phase::Health => match event {
            Event::Health(Ok(true)) => at_connect(setup, s, log.push(success("API healthy"@))),
            Event::Health(Ok(false)) => fail(
                s.at(Phase::Finished),
                log.push(failed("API unhealthy"@)),
                "API unhealthy"@,
            ),
            Event::Health(Err(e)) => fail(
                s.at(Phase::Finished),
                log.push(failed(e.message@)),
                "Health check failed: "@ + e.message@,
            ),
            _ => arbitrary(),
        },
        Phase::Connect => match event {
            Event::Connection(Ok(r)) => {
                let id = r.data.connection_id@;
                ask(
                    ReconnectionState { connection_id: id, ..s }.at(Phase::Handshake),
                    log.push(success("Connected: "@ + id)),
                    ActionView::Pause(2000),
                )
            },
            Event::Connection(Err(e)) => fail(
                s.at(Phase::Finished),
                log.push(failed(e.message@)),
                "Failed to connect: "@ + e.message@,
            ),
            _ => arbitrary(),
        },
        Phase::Handshake => at_add_metric(
            setup,
            s,
            log.push(ReportView::Section("PHASE 2: ADD METRICS"@)),
            0,
        ),
        Phase::AddMetric { index } => match event {
            Event::Text(Ok(r)) => at_add_metric(
                setup,
                ReconnectionState {
                    result: ReconnectionResultView {
                        metrics_added: (s.result.metrics_added + 1) as usize,
                        ..s.result
                    },
                    ..s
                },
                log.push(success("Added id="@ + r.data@)),
                (index + 1) as usize,
            ),
            Event::Text(Err(e)) => fail(
                s.at(Phase::Finished),
                log.push(failed(e.message@)),
                "Failed to add metric '"@ + setup.config.metrics@[index as int].name@ + "': "@
                    + e.message@,
            ),
            _ => arbitrary(),
        },
        Phase::Timer { cycle } => match event {
            Event::Timer { expired: true } => at_tally(setup, s, log, cycle, 0, 0),
            _ => at_poll(setup, s, log, cycle, 0, 0, true),
        },
        Phase::Poll { cycle, index, total, all } => match event {
            Event::Events(Ok(r)) => at_poll(
                setup,
                s,
                log,
                cycle,
                (index + 1) as usize,
                sat_sum(total, r.data@.len() as usize),
                all && r.data@.len() > 0,
            ),
            _ => at_poll(setup, s, log, cycle, (index + 1) as usize, total, false),
        },
        Phase::PollPause { cycle } => ask(
            s.at(Phase::Timer { cycle }),
            log,
            ActionView::CheckTimer(false, setup.config.event_wait_secs / 2),
        ),
        Phase::Tally { cycle, index, total } => match event {
            Event::Events(Ok(r)) => at_tally(
                setup,
                s,
                log,
                cycle,
                (index + 1) as usize,
                sat_sum(total, r.data@.len() as usize),
            ),
            _ => at_tally(setup, s, log, cycle, (index + 1) as usize, total),
        },
        Phase::Disconnect { cycle } => ask(
            s.at(Phase::DisconnectPause { cycle }),
            match event {
                Event::Done(Ok(_)) => log.push(success("Connection closed"@)),
                Event::Done(Err(e)) => log.push(failed(e.message@)).push(
                    ReportView::Warn("Continuing despite close error..."@),
                ),
                _ => log,
            },
            ActionView::Pause(500),
        ),
        Phase::DisconnectPause { cycle } => if setup.restart {
            ask(
                s.at(Phase::Restart { cycle }),
                log.push(
                    start("Restart Debugger"@, "Restart "@ + setup.adapter@ + " debugger"@),
                ),
                ActionView::RestartDebugger,
            )
        } else {
            at_reconnect(setup, s, log, cycle)
        },
        Phase::Restart { cycle } => match event {
            Event::Restarted(Ok(_)) => ask(
                s.at(Phase::RestartPause { cycle }),
                log.push(success("Debugger restarted"@)),
                ActionView::Pause(2000),
            ),
            Event::Restarted(Err(e)) => fail(
                s.at(Phase::Finished),
                log.push(failed(e@)),
                "Failed to restart debugger (cycle "@ + decimal(cycle as nat) + "): "@ + e@,
            ),
            _ => arbitrary(),
        },
        Phase::RestartPause { cycle } => at_reconnect(setup, s, log, cycle),
        Phase::Reconnect { cycle } => match event {
            Event::Connection(Ok(r)) => {
                let id = r.data.connection_id@;
                ask(
                    ReconnectionState { connection_id: id, ..s }.at(
                        Phase::ReconnectPause { cycle },
                    ),
                    log.push(success("Reconnected: "@ + id)),
                    ActionView::Pause(2000),
                )
            },
            Event::Connection(Err(e)) => fail(
                s.at(Phase::Finished),
                log.push(failed(e.message@)),
                "Failed to reconnect (cycle "@ + decimal(cycle as nat) + "): "@ + e.message@,
            ),
            _ => arbitrary(),
        },
        Phase::ReconnectPause { cycle } => wait_for_events(
            setup,
            s,
            log.push(
                start(
                    "Verify Events"@,
                    "Capture events after reconnection (cycle "@ + decimal(cycle as nat) + ")"@,
                ),
            ),
            cycle,
        ),
        Phase::Remove { index } => at_remove(
            setup,
            s,
            match event {
                Event::Done(Ok(_)) => log.push(success("Removed"@)),
                Event::Done(Err(e)) => log.push(failed(e.message@)),
                _ => log,
            },
            (index + 1) as usize,
        ),
        Phase::Close => at_summary(
            setup,
            s,
            match event {
                Event::Done(Ok(_)) => log.push(success("Connection closed"@)),
                Event::Done(Err(e)) => log.push(failed(e.message@)),
                _ => log,
            },
        ),
        Phase::Finished => arbitrary(),
    }
}

/// The sum of the events of all cycles, or the largest size where it is beyond it.
pub open spec fn all_events(counts: Seq<usize>) -> usize
    decreases counts.len(),
{
    if counts.len() == 0 {
        0
    } else {
        sat_sum(all_events(counts.drop_last()), counts.last())
    }
}

/// The result after `done` reconnections: one positive count for each connection, and their
/// sum.
pub open spec fn result_ok(r: ReconnectionResultView, done: int) -> bool {
    &&& r.reconnection_cycles == done
    &&& r.events_per_cycle.len() == done + 1
    &&& r.total_events == all_events(r.events_per_cycle)
    &&& forall|i: int| 0 <= i <= done ==> #[trigger] r.events_per_cycle[i] > 0
}

/// The result when the given cycle has not captured its events yet.
pub open spec fn before_events(r: ReconnectionResultView, cycle: usize) -> bool {
    if cycle == 0 {
        r.reconnection_cycles == 0 && r.events_per_cycle.len() == 0 && r.total_events == 0
    } else {
        result_ok(r, cycle - 1)
    }
}

/// What every state of a run meets.
pub open spec fn state_ok(setup: ReconnectionSetup, s: ReconnectionState) -> bool {
    let n = setup.used();
    match s.phase {
        Phase::Health | Phase::Connect | Phase::Handshake => s.result.metrics_added == 0
            && before_events(s.result, 0),
        Phase::AddMetric { index } => index < n && s.result.metrics_added == index
            && before_events(s.result, 0),
        Phase::Timer { cycle } | Phase::PollPause { cycle } => cycle <= setup.cycles
            && s.result.metrics_added == n && before_events(s.result, cycle),
        Phase::Poll { cycle, index, .. } | Phase::Tally { cycle, index, .. } => index < n && cycle
            <= setup.cycles && s.result.metrics_added == n && before_events(s.result, cycle),
        Phase::Disconnect { cycle } | Phase::DisconnectPause { cycle } | Phase::Restart { cycle }
        | Phase::RestartPause { cycle } | Phase::Reconnect { cycle }
        | Phase::ReconnectPause { cycle } => 1 <= cycle <= setup.cycles && s.result.metrics_added
            == n && before_events(s.result, cycle),
        Phase::Remove { index } => index < n && s.result.metrics_added == n && result_ok(
            s.result,
            setup.cycles as int,
        ),
        Phase::Close => s.result.metrics_added == n && result_ok(s.result, setup.cycles as int),
        Phase::Finished => true,
    }
}

/// A turn leads to a state that a run can be in, its action is one that the new phase waits
/// for, and the run is over exactly when the phase says so.
pub open spec fn turn_ok(setup: ReconnectionSetup, t: ReconnectionTurn) -> bool {
    &&& state_ok(setup, t.state)
    &&& match t.next {
        NextView::Ask(a) => a.answer() == t.state.phase.answer() && !(t.state.phase is Finished),
        NextView::Finish(Ok(r)) => t.state.phase is Finished && r == t.state.result
            && r.metrics_added == setup.used() && result_ok(r, setup.cycles as int),
        NextView::Finish(Err(_)) => t.state.phase is Finished,
    }
}

proof fn lemma_with_events(r: ReconnectionResultView, total: usize, cycle: usize)
    requires
        before_events(r, cycle),
        total > 0,
    ensures
        result_ok(with_events(r, total, cycle), cycle as int),
{
    let w = with_events(r, total, cycle);
    assert(w.events_per_cycle.drop_last() =~= r.events_per_cycle);
    if cycle == 0 {
        assert(all_events(r.events_per_cycle) == 0);
    }
    assert forall|i: int| 0 <= i <= cycle implies #[trigger] w.events_per_cycle[i] > 0 by {
        if i < cycle {
            assert(w.events_per_cycle[i] == r.events_per_cycle[i]);
        }
    }
}

/// Every turn keeps to the states that a run can be in. A run that ends well has reconnected
/// as often as asked, has captured events on every connection, and its total is their sum.
pub proof fn law_turn_keeps_state(setup: ReconnectionSetup, s: ReconnectionState, event: Event)
    requires
        setup.cycles < usize::MAX,
        state_ok(setup, s),
        !(s.phase is Finished),
        event.spec_kind() == s.phase.answer(),
    ensures
        turn_ok(setup, on_event(setup, s, event)),
{
    match s.phase {
        Phase::Poll { cycle, .. } | Phase::Tally { cycle, .. } | Phase::Timer { cycle } => {
            assert forall|total: usize, c: usize| total > 0 && c == cycle implies result_ok(
                #[trigger] with_events(s.result, total, c),
                cycle as int,
            ) by {
                lemma_with_events(s.result, total, cycle);
            }
        },
        _ => {},
    }
}

// ---------------------------------------------------------------------------
// The machine, executed
// ---------------------------------------------------------------------------

/// What a run reports and how it goes on.
pub struct ReconnectionStep {
    pub log: Log,
    pub next: Next<ReconnectionResult>,
}

/// A run, its reports and its continuation are those of a turn.
pub open spec fn turn_is(
    run: ReconnectionRun,
    log: Seq<ReportView>,
    next: Next<ReconnectionResult>,
    turn: ReconnectionTurn,
) -> bool {
    &&& run@ == turn.state
    &&& log == turn.log
    &&& next@ == turn.next
}

fn target(setup: &ReconnectionSetup) -> (r: String)
    ensures
        r@ == target_text(*setup),
{
    cat6(
        setup.adapter.as_str(),
        " at 127.0.0.1:",
        num(setup.debugger_port as u64).as_str(),
        " (program=",
        format_debug_opt(&setup.program).as_str(),
        ")",
    )
}

fn connect(setup: &ReconnectionSetup) -> (r: Action)
    ensures
        r@ == connect_action(*setup),
{
    Action::CreateConnection {
        host: "127.0.0.1".to_owned(),
        port: setup.debugger_port,
        language: setup.config.language.as_api_str().to_owned(),
        program: clone_opt(&setup.program),
    }
}

fn copy_sizes(items: &Vec<usize>) -> (r: Vec<usize>)
    ensures
        r@ == items@,
{
    let mut out: Vec<usize> = Vec::new();
    let mut i: usize = 0;
    while i < items.len()
        invariant
            i <= items.len(),
            out@ == items@.subrange(0, i as int),
        decreases items.len() - i,
    {
        out.push(items[i]);
        i = i + 1;
        assert(out@ =~= items@.subrange(0, i as int));
    }
    assert(out@ =~= items@);
    out
}

impl ReconnectionRun {
    /// The run is in a state that it can be in.
    pub open spec fn wf(&self) -> bool {
        &&& self.setup.cycles < usize::MAX
        &&& state_ok(self.setup, self@)
    }

    fn fail_with(&mut self, log: &mut Log, reported: &str, error: String) -> (next: Next<
        ReconnectionResult,
    >)
        ensures
            final(self).setup == old(self).setup,
            turn_is(
                *final(self),
                final(log)@,
                next,
                fail(old(self)@.at(Phase::Finished), old(log)@.push(failed(reported@)), error@),
            ),
    {
        log.failed(reported);
        self.phase = Phase::Finished;
        Next::Finish(Err(error))
    }

    fn ask(&mut self, phase: Phase, action: Action) -> (next: Next<ReconnectionResult>)
        ensures
            final(self).setup == old(self).setup,
            final(self)@ == old(self)@.at(phase),
            next@ == NextView::<ReconnectionResultView>::Ask(action@),
    {
        self.phase = phase;
        Next::Ask(action)
    }

    fn at_health(&mut self, log: &mut Log) -> (next: Next<ReconnectionResult>)
        ensures
            final(self).setup == old(self).setup,
            turn_is(
                *final(self),
                final(log)@,
                next,
                at_health(old(self).setup, old(self)@, old(log)@),
            ),
    {
        log.section(cat3("PHASE 1: INITIAL SETUP (", self.setup.adapter.as_str(), ")").as_str());
        log.start("Health Check", "Verify API is healthy");
        self.ask(Phase::Health, Action::Health)
    }

    fn at_connect(&mut self, log: &mut Log) -> (next: Next<ReconnectionResult>)
        ensures
            final(self).setup == old(self).setup,
            turn_is(
                *final(self),
                final(log)@,
                next,
                at_connect(old(self).setup, old(self)@, old(log)@),
            ),
    {
        log.start("Initial Connection", cat2("Connect to ", target(&self.setup).as_str()).as_str());
        let action: Action = connect(&self.setup);
        self.ask(Phase::Connect, action)
    }

    fn at_add_metric(&mut self, log: &mut Log, index: usize) -> (next: Next<ReconnectionResult>)
        ensures
            final(self).setup == old(self).setup,
            turn_is(
                *final(self),
                final(log)@,
                next,
                at_add_metric(old(self).setup, old(self)@, old(log)@, index),
            ),
    {
        if index < self.setup.used_exec() {
            let m: &MetricPoint = &self.setup.config.metrics[index];
            log.start(
                "Add Metric",
                cat4("Add '", m.name.as_str(), "' at line ", num(m.line as u64).as_str()).as_str(),
            );
            let place: String = location(self.setup.source_path.as_str(), m.line);
            let mut request: AddMetricRequest = AddMetricRequest::new(
                m.name.as_str(),
                place.as_str(),
                m.expression.as_str(),
                self.connection_id.as_str(),
            );
            request.language = Some(self.setup.config.language.as_api_str().to_owned());
            request.group = clone_opt(&m.group);
            request.enabled = Some(true);
            self.ask(Phase::AddMetric { index }, Action::AddMetric { request })
        } else {
            log.section("PHASE 3: INITIAL EVENT CAPTURE");
            self.wait_for_events(log, 0)
        }
    }

    fn wait_for_events(&mut self, log: &mut Log, cycle: usize) -> (next: Next<ReconnectionResult>)
        ensures
            final(self).setup == old(self).setup,
            turn_is(
                *final(self),
                final(log)@,
                next,
                wait_for_events(old(self).setup, old(self)@, old(log)@, cycle),
            ),
    {
        let limit: u64 = self.setup.config.event_wait_secs / 2;
        log.start_nested(
            "Wait for Events",
            cat3("Wait for events (up to ", num(limit).as_str(), "s)").as_str(),
        );
        self.ask(Phase::Timer { cycle }, Action::CheckTimer { restart: true, limit_secs: limit })
    }

    fn at_poll(
        &mut self,
        log: &mut Log,
        cycle: usize,
        index: usize,
        total: usize,
        all: bool,
    ) -> (next: Next<ReconnectionResult>)
        requires
            cycle <= old(self).setup.cycles < usize::MAX,
            old(self).result.reconnection_cycles < usize::MAX,
        ensures
            final(self).setup == old(self).setup,
            turn_is(
                *final(self),
                final(log)@,
                next,
                at_poll(old(self).setup, old(self)@, old(log)@, cycle, index, total, all),
            ),
    {
        if index < self.setup.used_exec() {
            let name: String = self.setup.config.metrics[index].name.clone();
            self.ask(
                Phase::Poll { cycle, index, total, all },
                Action::QueryEvents { name, limit: 100 },
            )
        } else if all && total > 0 {
            log.success_nested(cat2(num_usize(total).as_str(), " events captured").as_str());
            self.at_events(log, cycle, total)
        } else {
            self.ask(Phase::PollPause { cycle }, Action::Pause { millis: 1000 })
        }
    }

    fn at_tally(&mut self, log: &mut Log, cycle: usize, index: usize, total: usize) -> (next: Next<
        ReconnectionResult,
    >)
        requires
            cycle <= old(self).setup.cycles < usize::MAX,
            old(self).result.reconnection_cycles < usize::MAX,
        ensures
            final(self).setup == old(self).setup,
            turn_is(
                *final(self),
                final(log)@,
                next,
                at_tally(old(self).setup, old(self)@, old(log)@, cycle, index, total),
            ),
    {
        if index < self.setup.used_exec() {
            let name: String = self.setup.config.metrics[index].name.clone();
            self.ask(
                Phase::Tally { cycle, index, total },
                Action::QueryEvents { name, limit: 100 },
            )
        } else if total > 0 {
            log.success_nested(cat2(num_usize(total).as_str(), " events (timeout)").as_str());
            self.at_events(log, cycle, total)
        } else {
            log.failed_nested("Timeout: no events captured");
            self.phase = Phase::Finished;
            Next::Finish(Err("Timeout waiting for events".to_owned()))
        }
    }

    fn at_events(&mut self, log: &mut Log, cycle: usize, total: usize) -> (next: Next<
        ReconnectionResult,
    >)
        requires
            cycle <= old(self).setup.cycles < usize::MAX,
            old(self).result.reconnection_cycles < usize::MAX,
        ensures
            final(self).setup == old(self).setup,
            turn_is(
                *final(self),
                final(log)@,
                next,
                at_events(old(self).setup, old(self)@, old(log)@, cycle, total),
            ),
    {
        if cycle == 0 {
            self.result.events_per_cycle.push(total);
            self.result.total_events = sat_add(self.result.total_events, total);
            log.info(
                cat3("Initial cycle captured ", num_usize(total).as_str(), " events").as_str(),
            );
            self.at_cycle(log, 1)
        } else if total > 0 {
            log.success(
                cat3("Captured ", num_usize(total).as_str(), " events after reconnection").as_str(),
            );
            self.result.events_per_cycle.push(total);
            self.result.total_events = sat_add(self.result.total_events, total);
            self.result.reconnection_cycles = self.result.reconnection_cycles + 1;
            self.at_cycle(log, cycle + 1)
        } else {
            self.fail_with(
                log,
                "No events captured after reconnection",
                cat3(
                    "Reconnection cycle ",
                    num_usize(cycle).as_str(),
                    " failed: no events captured",
                ),
            )
        }
    }

    fn at_cycle(&mut self, log: &mut Log, cycle: usize) -> (next: Next<ReconnectionResult>)
        ensures
            final(self).setup == old(self).setup,
            turn_is(
                *final(self),
                final(log)@,
                next,
                at_cycle(old(self).setup, old(self)@, old(log)@, cycle),
            ),
    {
        if cycle <= self.setup.cycles {
            let c: String = num_usize(cycle);
            log.section(
                cat4("PHASE 4.", c.as_str(), ": RECONNECTION CYCLE ", c.as_str()).as_str(),
            );
            log.start(
                "Disconnect",
                cat3("Close connection '", self.connection_id.as_str(), "'").as_str(),
            );
            let id: String = self.connection_id.clone();
            self.ask(Phase::Disconnect { cycle }, Action::CloseConnection { id })
        } else {
            log.section("PHASE 5: CLEANUP");
            self.at_remove(log, 0)
        }
    }

    fn at_reconnect(&mut self, log: &mut Log, cycle: usize) -> (next: Next<ReconnectionResult>)
        ensures
            final(self).setup == old(self).setup,
            turn_is(
                *final(self),
                final(log)@,
                next,
                at_reconnect(old(self).setup, old(self)@, old(log)@, cycle),
            ),
    {
        log.start("Reconnect", cat2("Reconnect to ", target(&self.setup).as_str()).as_str());
        let action: Action = connect(&self.setup);
        self.ask(Phase::Reconnect { cycle }, action)
    }

    fn at_remove(&mut self, log: &mut Log, index: usize) -> (next: Next<ReconnectionResult>)
        ensures
            final(self).setup == old(self).setup,
            turn_is(
                *final(self),
                final(log)@,
                next,
                at_remove(old(self).setup, old(self)@, old(log)@, index),
            ),
    {
        if index < self.setup.used_exec() {
            let name: String = self.setup.config.metrics[index].name.clone();
            log.start("Remove Metric", cat3("Remove '", name.as_str(), "'").as_str());
            self.ask(Phase::Remove { index }, Action::RemoveMetric { name })
        } else {
            let id: String = self.connection_id.clone();
            log.start("Close Connection", cat3("Close '", id.as_str(), "'").as_str());
            self.ask(Phase::Close, Action::CloseConnection { id })
        }
    }

    fn at_summary(&mut self, log: &mut Log) -> (next: Next<ReconnectionResult>)
        ensures
            final(self).setup == old(self).setup,
            turn_is(
                *final(self),
                final(log)@,
                next,
                at_summary(old(self).setup, old(self)@, old(log)@),
            ),
    {
        log.section(
            cat3("RECONNECTION TEST COMPLETE (", self.setup.adapter.as_str(), ")").as_str(),
        );
        log.info(cat2("Metrics added: ", num_usize(self.result.metrics_added).as_str()).as_str());
        log.info(
            cat2(
                "Reconnection cycles completed: ",
                num_usize(self.result.reconnection_cycles).as_str(),
            ).as_str(),
        );
        log.info(
            cat2("Events per cycle: ", format_sizes(&self.result.events_per_cycle).as_str()).as_str(),
        );
        log.info(cat2("Total events: ", num_usize(self.result.total_events).as_str()).as_str());
        self.phase = Phase::Finished;
        Next::Finish(
            Ok(
                ReconnectionResult {
                    metrics_added: self.result.metrics_added,
                    reconnection_cycles: self.result.reconnection_cycles,
                    events_per_cycle: copy_sizes(&self.result.events_per_cycle),
                    total_events: self.result.total_events,
                },
            ),
        )
    }

    /// Takes the event that answers the last action; gives the reports and how the run goes on.
    pub fn resume(&mut self, event: &Event) -> (step: ReconnectionStep)
        requires
            old(self).wf(),
            !(old(self).phase is Finished),
            event.spec_kind() == old(self).phase.answer(),
        ensures
            final(self).wf(),
            final(self).setup == old(self).setup,
            turn_is(
                *final(self),
                step.log@,
                step.next,
                on_event(old(self).setup, old(self)@, *event),
            ),
            step.next is Finish <==> final(self).phase is Finished,
            step.next matches Next::Ask(a) ==> a@.answer() == final(self).phase.answer(),
    {
        let mut log: Log = Log::new();
        proof {
            law_turn_keeps_state(self.setup, self@, *event);
        }
        let next: Next<ReconnectionResult> = match self.phase {
            Phase::Health => match event {
                Event::Health(Ok(true)) => {
                    log.success("API healthy");
                    self.at_connect(&mut log)
                },
                Event::Health(Err(e)) => self.fail_with(
                    &mut log,
                    e.message.as_str(),
                    cat2("Health check failed: ", e.message.as_str()),
                ),
                _ => self.fail_with(&mut log, "API unhealthy", "API unhealthy".to_owned()),
            },
            Phase::Connect => match event {
                Event::Connection(Ok(r)) => {
                    let id: String = r.data.connection_id.clone();
                    log.success(cat2("Connected: ", id.as_str()).as_str());
                    self.connection_id = id;
                    self.ask(Phase::Handshake, Action::Pause { millis: 2000 })
                },
                Event::Connection(Err(e)) => self.fail_with(
                    &mut log,
                    e.message.as_str(),
                    cat2("Failed to connect: ", e.message.as_str()),
                ),
                _ => self.at_connect(&mut log),
            },
            Phase::Handshake => {
                log.section("PHASE 2: ADD METRICS");
                self.at_add_metric(&mut log, 0)
            },
            Phase::AddMetric { index } => match event {
                Event::Text(Ok(r)) => {
                    log.success(cat2("Added id=", r.data.as_str()).as_str());
                    self.result.metrics_added = self.result.metrics_added + 1;
                    self.at_add_metric(&mut log, index + 1)
                },
                Event::Text(Err(e)) => {
                    let error: String = cat4(
                        "Failed to add metric '",
                        self.setup.config.metrics[index].name.as_str(),
                        "': ",
                        e.message.as_str(),
                    );
                    self.fail_with(&mut log, e.message.as_str(), error)
                },
                _ => self.at_add_metric(&mut log, index),
            },
            Phase::Timer { cycle } => match event {
                Event::Timer { expired: true } => self.at_tally(&mut log, cycle, 0, 0),
                _ => self.at_poll(&mut log, cycle, 0, 0, true),
            },
            Phase::Poll { cycle, index, total, all } => match event {
                Event::Events(Ok(r)) => self.at_poll(
                    &mut log,
                    cycle,
                    index + 1,
                    sat_add(total, r.data.len()),
                    all && r.data.len() > 0,
                ),
                _ => self.at_poll(&mut log, cycle, index + 1, total, false),
            },
            Phase::PollPause { cycle } => {
                let limit_secs: u64 = self.setup.config.event_wait_secs / 2;
                self.ask(Phase::Timer { cycle }, Action::CheckTimer { restart: false, limit_secs })
            },
            Phase::Tally { cycle, index, total } => match event {
                Event::Events(Ok(r)) => self.at_tally(
                    &mut log,
                    cycle,
                    index + 1,
                    sat_add(total, r.data.len()),
                ),
                _ => self.at_tally(&mut log, cycle, index + 1, total),
            },
            Phase::Disconnect { cycle } => {
                match event {
                    Event::Done(Ok(_)) => log.success("Connection closed"),
                    Event::Done(Err(e)) => {
                        log.failed(e.message.as_str());
                        log.warn("Continuing despite close error...");
                    },
                    _ => {},
                }
                self.ask(Phase::DisconnectPause { cycle }, Action::Pause { millis: 500 })
            },
            Phase::DisconnectPause { cycle } => if self.setup.restart {
                log.start(
                    "Restart Debugger",
                    cat3("Restart ", self.setup.adapter.as_str(), " debugger").as_str(),
                );
                self.ask(Phase::Restart { cycle }, Action::RestartDebugger)
            } else {
                self.at_reconnect(&mut log, cycle)
            },
            Phase::Restart { cycle } => match event {
                Event::Restarted(Ok(_)) => {
                    log.success("Debugger restarted");
                    self.ask(Phase::RestartPause { cycle }, Action::Pause { millis: 2000 })
                },
                Event::Restarted(Err(e)) => self.fail_with(
                    &mut log,
                    e.as_str(),
                    cat4(
                        "Failed to restart debugger (cycle ",
                        num_usize(cycle).as_str(),
                        "): ",
                        e.as_str(),
                    ),
                ),
                _ => self.at_reconnect(&mut log, cycle),
            },
            Phase::RestartPause { cycle } => self.at_reconnect(&mut log, cycle),
            Phase::Reconnect { cycle } => match event {
                Event::Connection(Ok(r)) => {
                    let id: String = r.data.connection_id.clone();
                    log.success(cat2("Reconnected: ", id.as_str()).as_str());
                    self.connection_id = id;
                    self.ask(Phase::ReconnectPause { cycle }, Action::Pause { millis: 2000 })
                },
                Event::Connection(Err(e)) => self.fail_with(
                    &mut log,
                    e.message.as_str(),
                    cat4(
                        "Failed to reconnect (cycle ",
                        num_usize(cycle).as_str(),
                        "): ",
                        e.message.as_str(),
                    ),
                ),
                _ => self.at_reconnect(&mut log, cycle),
            },
            Phase::ReconnectPause { cycle } => {
                log.start(
                    "Verify Events",
                    cat3(
                        "Capture events after reconnection (cycle ",
                        num_usize(cycle).as_str(),
                        ")",
                    ).as_str(),
                );
                self.wait_for_events(&mut log, cycle)
            },
            Phase::Remove { index } => {
                match event {
                    Event::Done(Ok(_)) => log.success("Removed"),
                    Event::Done(Err(e)) => log.failed(e.message.as_str()),
                    _ => {},
                }
                self.at_remove(&mut log, index + 1)
            },
            Phase::Close => {
                match event {
                    Event::Done(Ok(_)) => log.success("Connection closed"),
                    Event::Done(Err(e)) => log.failed(e.message.as_str()),
                    _ => {},
                }
                self.at_summary(&mut log)
            },
            Phase::Finished => self.at_summary(&mut log),
        };
        ReconnectionStep { log, next }
    }
}

/// The state before a run has done anything.
pub open spec fn initial_state() -> ReconnectionState {
    ReconnectionState {
        phase: Phase::Health,
        connection_id: Seq::empty(),
        result: ReconnectionResultView {
            metrics_added: 0,
            reconnection_cycles: 0,
            events_per_cycle: Seq::empty(),
            total_events: 0,
        },
    }
}

impl DapWorkflowScenarios {
    /// Starts a run of the reconnection workflow. `restart` says whether the debugger serves
    /// one session only and has to be restarted before each reconnection.
    pub fn run_reconnection_workflow(
        config: DapWorkflowConfig,
        display_name: &'static str,
        debugger_port: u16,
        source_path: String,
        reconnection_cycles: usize,
        restart: bool,
        program: Option<String>,
    ) -> (r: (ReconnectionRun, ReconnectionStep))
        requires
            reconnection_cycles < usize::MAX,
        ensures
            r.0.wf(),
            r.0.setup.config == config,
            r.0.setup.adapter@ == adapter_name(config.language, display_name@),
            r.0.setup.debugger_port == debugger_port,
            r.0.setup.source_path == source_path,
            r.0.setup.cycles == reconnection_cycles,
            r.0.setup.restart == restart,
            r.0.setup.program == program,
            turn_is(
                r.0,
                r.1.log@,
                r.1.next,
                at_health(r.0.setup, initial_state(), Seq::empty()),
            ),
    {
        let adapter: String = config.language.dap_display_name(display_name).to_owned();
        let mut run = ReconnectionRun {
            setup: ReconnectionSetup {
                config,
                adapter,
                debugger_port,
                source_path,
                cycles: reconnection_cycles,
                restart,
                program,
            },
            phase: Phase::Health,
            connection_id: String::new(),
            result: ReconnectionResult {
                metrics_added: 0,
                reconnection_cycles: 0,
                events_per_cycle: Vec::new(),
                total_events: 0,
            },
        };
        assert(run@.result.events_per_cycle =~= Seq::<usize>::empty());
        let mut log: Log = Log::new();
        let next: Next<ReconnectionResult> = run.at_health(&mut log);
        (run, ReconnectionStep { log, next })
    }
}

} // verus!
