//! What a run of the workflow asks to add, what it is answered, and what introspection counts.

use vstd::prelude::*;

use super::reconnection_counts::{answered, capped};
use super::workflow::{
    at_multi, limits_ok, on_event, state_ok, Phase, WorkflowResult, WorkflowSetup, WorkflowState,
    WorkflowTurn,
};
use super::workflow_group::{fails, lemma_finished, lemma_multi_leads};
use super::workflow_runs::{asks, is_whole_run, lemma_run_states};
use super::workflow_wait::lemma_last_result;
use super::{api_name, MetricPoint};
use crate::client::AddMetricRequestView;
use crate::exchange::{ActionView, Event, NextView};
use crate::report::ReportView;
use crate::text::{decimal, opt_view};

verus! {

/// A request is about a metric: its name, its line of the source, its group and its language, on a
/// connection.
pub open spec fn is_about(
    setup: WorkflowSetup,
    metric: MetricPoint,
    connection_id: Seq<char>,
    r: AddMetricRequestView,
) -> bool {
    &&& r.name == metric.name@
    &&& r.location == "@"@ + setup.source_path@ + "#"@ + decimal(metric.line as nat)
    &&& r.expression == metric.expression@
    &&& r.expressions.len() > 0
    &&& r.expressions[0] == metric.expression@
    &&& r.group == opt_view(metric.group)
    &&& r.language == Some(api_name(setup.config.language))
    &&& r.connection_id == connection_id
}

/// A request adds a metric of the workflow with all its expressions, disabled and without
/// introspection.
pub open spec fn adds_disabled(
    setup: WorkflowSetup,
    metric: MetricPoint,
    connection_id: Seq<char>,
    r: AddMetricRequestView,
) -> bool {
    &&& is_about(setup, metric, connection_id, r)
    &&& r.expressions.len() == 1 + metric.extra_expressions@.len()
    &&& forall|i: int|
        0 <= i < metric.extra_expressions@.len() ==> r.expressions[i + 1]
            == (#[trigger] metric.extra_expressions@[i])@
    &&& r.enabled == Some(false)
    &&& r.capture_stack_trace is None
    &&& r.capture_memory_snapshot is None
}

/// A request adds an introspection metric with its expression, enabled, capturing what the metric
/// says and nothing else.
pub open spec fn adds_introspection(
    setup: WorkflowSetup,
    metric: MetricPoint,
    connection_id: Seq<char>,
    r: AddMetricRequestView,
) -> bool {
    &&& is_about(setup, metric, connection_id, r)
    &&& r.expressions.len() == 1
    &&& r.enabled == Some(true)
    &&& metric.capture_stack_trace ==> r.capture_stack_trace == Some(true)
    &&& !metric.capture_stack_trace ==> r.capture_stack_trace is None
    &&& metric.capture_memory_snapshot ==> r.capture_memory_snapshot == Some(true)
    &&& !metric.capture_memory_snapshot ==> r.capture_memory_snapshot is None
}

/// A request tries to add the invalid metric with its expression; whether it is enabled is left
/// open.
pub open spec fn adds_invalid(
    setup: WorkflowSetup,
    metric: MetricPoint,
    connection_id: Seq<char>,
    r: AddMetricRequestView,
) -> bool {
    &&& is_about(setup, metric, connection_id, r)
    &&& r.expressions.len() == 1
    &&& r.enabled is None
}

/// What a turn asks to add is a metric of the configuration, and what it connects to is the
/// debugger of the setup.
pub open spec fn request_ok(setup: WorkflowSetup, turn: WorkflowTurn) -> bool {
    match turn.next {
        NextView::Ask(ActionView::AddMetric(r)) => {
            ||| exists|k: int|
                0 <= k < setup.metrics().len() && adds_disabled(
                    setup,
                    #[trigger] setup.metrics()[k],
                    turn.state.connection_id,
                    r,
                )
            ||| exists|k: int|
                0 <= k < setup.intro().len() && adds_introspection(
                    setup,
                    #[trigger] setup.intro()[k],
                    turn.state.connection_id,
                    r,
                )
            ||| setup.config.invalid_metric is Some && adds_invalid(
                setup,
                setup.config.invalid_metric->0,
                turn.state.connection_id,
                r,
            )
        },
        NextView::Ask(ActionView::CreateConnection(host, port, language, program)) => {
            &&& host == "127.0.0.1"@
            &&& port == setup.debugger_port
            &&& language == api_name(setup.config.language)
            &&& program == opt_view(setup.program)
        },
        _ => true,
    }
}

proof fn lemma_request_adding(setup: WorkflowSetup, s: WorkflowState, event: Event)
    requires
        limits_ok(setup),
        state_ok(setup, s),
        event.spec_kind() == s.phase.answer(),
        s.phase is Health || s.phase is Connect || s.phase is Handshake || s.phase is InspectCode
            || s.phase is InspectVariable || s.phase is AddMetric || s.phase is AddInvalid
            || s.phase is EnableGroup,
    ensures
        request_ok(setup, on_event(setup, s, event)),
{
    let t = on_event(setup, s, event);
    if let NextView::Ask(ActionView::AddMetric(r)) = t.next {
        if let Phase::AddMetric { index } = t.state.phase {
            let m = setup.metrics()[index as int];
            assert forall|i: int| 0 <= i < m.extra_expressions@.len() implies r.expressions[i + 1]
                == (#[trigger] m.extra_expressions@[i])@ by {}
            assert(adds_disabled(setup, m, t.state.connection_id, r));
        }
    }
}

proof fn lemma_request_waiting(setup: WorkflowSetup, s: WorkflowState, event: Event)
    requires
        limits_ok(setup),
        state_ok(setup, s),
        event.spec_kind() == s.phase.answer(),
        s.phase is WaitTimer || s.phase is WaitPause || s.phase is WaitPoll || s.phase is WaitMissing
            || s.phase is MultiList || s.phase is MultiEvents,
    ensures
        request_ok(setup, on_event(setup, s, event)),
{
    assert forall|t: WorkflowState, log: Seq<ReportView>, i: usize|
        i <= setup.metrics().len() implies request_ok(
        setup,
        #[trigger] at_multi(setup, t, log, i),
    ) by {
        lemma_multi_leads(setup, t, log, i);
    }
}

proof fn lemma_request_late(setup: WorkflowSetup, s: WorkflowState, event: Event)
    requires
        limits_ok(setup),
        state_ok(setup, s),
        event.spec_kind() == s.phase.answer(),
        s.phase is BaselineFirst || s.phase is BaselineOther || s.phase is ToggleFirst
            || s.phase is SettleFirst || s.phase is VerifyStopped || s.phase is VerifyOther
            || s.phase is BaselineAll || s.phase is DisableGroup || s.phase is SettleGroup
            || s.phase is VerifyGroup || s.phase is IntroAdd || s.phase is IntroTimer
            || s.phase is IntroPoll || s.phase is IntroPause || s.phase is IntroRemove
            || s.phase is Remove || s.phase is RemoveInvalid || s.phase is Close,
    ensures
        request_ok(setup, on_event(setup, s, event)),
{
    let t = on_event(setup, s, event);
    if let NextView::Ask(ActionView::AddMetric(r)) = t.next {
        if let Phase::IntroAdd { index } = t.state.phase {
            let m = setup.intro()[index as int];
            assert(adds_introspection(setup, m, t.state.connection_id, r));
        }
    }
}

/// Every metric that a run asks to add is one of the configuration, as the configuration describes
/// it, and every connection that it asks for goes to the debugger of the setup.
pub proof fn law_requests(
    setup: WorkflowSetup,
    turns: Seq<WorkflowTurn>,
    events: Seq<Event>,
    i: int,
)
    requires
        limits_ok(setup),
        is_whole_run(setup, turns, events),
        0 <= i < turns.len(),
    ensures
        request_ok(setup, turns[i]),
{
    if i > 0 {
        lemma_run_states(setup, turns, events, i - 1);
        let s = turns[i - 1].state;
        let event = events[i - 1];
        match s.phase {
            Phase::Health | Phase::Connect | Phase::Handshake | Phase::InspectCode
            | Phase::InspectVariable | Phase::AddMetric { .. } | Phase::AddInvalid
            | Phase::EnableGroup => lemma_request_adding(setup, s, event),
            Phase::WaitTimer | Phase::WaitPause | Phase::WaitPoll { .. }
            | Phase::WaitMissing { .. } | Phase::MultiList { .. } | Phase::MultiEvents { .. } =>
                lemma_request_waiting(setup, s, event),
            _ => lemma_request_late(setup, s, event),
        }
    }
}

/// An answer that ends the run, whatever comes later: an unhealthy daemon, no connection, a metric
/// of the workflow that is not added, an invalid metric that is added though scopes are checked,
/// and a group that is not enabled as a whole.
pub open spec fn ends_the_run(setup: WorkflowSetup, turn: WorkflowTurn, event: Event) -> bool {
    match turn.next {
        NextView::Ask(ActionView::Health) => event != Event::Health(Ok(true)),
        NextView::Ask(ActionView::CreateConnection(..)) => event matches Event::Connection(Err(_)),
        NextView::Ask(ActionView::AddMetric(r)) => {
            ||| r.enabled == Some(false) && event matches Event::Text(Err(_))
            ||| r.enabled is None && setup.scope_validation && event matches Event::Text(Ok(_))
        },
        NextView::Ask(ActionView::EnableGroup(_)) => !(event matches Event::Count(Ok(r)) && r.data
            == setup.metrics().len()),
        _ => false,
    }
}

/// What the actions that can end a run are asked in.
spec fn is_placed(t: WorkflowTurn) -> bool {
    &&& t.next matches NextView::Ask(ActionView::Health) ==> t.state.phase is Health
    &&& t.next matches NextView::Ask(ActionView::CreateConnection(..)) ==> t.state.phase is Connect
    &&& t.next matches NextView::Ask(ActionView::EnableGroup(_)) ==> t.state.phase is EnableGroup
    &&& t.next matches NextView::Ask(ActionView::AddMetric(r)) ==> {
        &&& r.enabled == Some(false) ==> t.state.phase is AddMetric
        &&& r.enabled == Some(true) ==> t.state.phase is IntroAdd
        &&& r.enabled is None ==> t.state.phase is AddInvalid
    }
    &&& t.state.phase is AddMetric ==> (t.next matches NextView::Ask(ActionView::AddMetric(r))
        && r.enabled == Some(false))
    &&& t.state.phase is IntroAdd ==> (t.next matches NextView::Ask(ActionView::AddMetric(r))
        && r.enabled == Some(true))
    &&& t.state.phase is AddInvalid ==> (t.next matches NextView::Ask(ActionView::AddMetric(r))
        && r.enabled is None)
}

/// The position in a round of introspection, and what was counted before.
spec fn polling(phase: Phase) -> Option<(int, usize, usize, usize)> {
    match phase {
        Phase::IntroPoll { index, total, stacks, memories } => Some(
            (index as int, total, stacks, memories),
        ),
        _ => None,
    }
}

/// The three counts of introspection in a result.
pub open spec fn intro_counts(r: WorkflowResult) -> (usize, usize, usize) {
    (r.introspection_events, r.stack_trace_events, r.memory_snapshot_events)
}

spec fn chosen(is: bool, event: Event) -> nat {
    if is {
        answered(event)
    } else {
        0
    }
}

/// How a turn follows from the state before it, as far as adding and introspection are concerned.
spec fn intro_back(setup: WorkflowSetup, s: WorkflowState, event: Event, t: WorkflowTurn) -> bool {
    let k = setup.intro().len() as int;
    let answered_ok = event matches Event::Text(Ok(_));
    let r = t.state.result;
    &&& is_placed(t)
    &&& r.metrics_added == s.result.metrics_added + if s.phase is AddMetric && answered_ok {
        1int
    } else {
        0int
    }
    &&& r.introspection_metrics_added == s.result.introspection_metrics_added
        + if s.phase is IntroAdd && answered_ok {
        1int
    } else {
        0int
    }
    &&& t.next matches NextView::Ask(ActionView::QueryEvents(..)) ==> polling(t.state.phase) is Some
        || !past_group_phase(t.state.phase)
    &&& past_group_phase(s.phase) ==> past_group_phase(t.state.phase)
    &&& match polling(t.state.phase) {
        Some((index, total, stacks, memories)) => {
            &&& 0 <= index < k
            &&& asks(t, ActionView::QueryEvents(setup.intro()[index].name@, 100))
            &&& intro_counts(r) == intro_counts(s.result)
            &&& if index == 0 {
                &&& s.phase is IntroTimer
                &&& event == (Event::Timer { expired: false })
                &&& total == 0
                &&& stacks == 0
                &&& memories == 0
            } else {
                &&& polling(s.phase) matches Some((i, u, v, w)) && i == index - 1 && total
                    == capped(u as nat + answered(event)) && stacks == capped(
                    v as nat + chosen(setup.intro()[i].capture_stack_trace, event),
                ) && memories == capped(
                    w as nat + chosen(setup.intro()[i].capture_memory_snapshot, event),
                )
            }
        },
        None => match polling(s.phase) {
            Some((i, u, v, w)) => i == k - 1 && intro_counts(r) == (
                capped(u as nat + answered(event)),
                capped(v as nat + chosen(setup.intro()[i].capture_stack_trace, event)),
                capped(w as nat + chosen(setup.intro()[i].capture_memory_snapshot, event)),
            ),
            None => intro_counts(r) == intro_counts(s.result) || k == 0 && s.phase is IntroTimer,
        },
    }
    &&& waits_intro(t.state.phase) ==> k > 0 || waits_intro(s.phase)
}

/// The run waits for introspection.
spec fn waits_intro(phase: Phase) -> bool {
    phase is IntroTimer || phase is IntroPause
}

/// The phase is behind the disabled group.
pub open spec fn past_group_phase(phase: Phase) -> bool {
    match phase {
        Phase::IntroAdd { .. } | Phase::IntroTimer | Phase::IntroPoll { .. } | Phase::IntroPause
        | Phase::IntroRemove { .. } | Phase::Remove { .. } | Phase::RemoveInvalid | Phase::Close
        | Phase::Finished => true,
        _ => false,
    }
}

/// An answer that ends the run does so.
spec fn intro_on(setup: WorkflowSetup, s: WorkflowState, event: Event, t: WorkflowTurn) -> bool {
    match s.phase {
        Phase::Health => fails(t) <==> event != Event::Health(Ok(true)),
        Phase::Connect => fails(t) <==> event matches Event::Connection(Err(_)),
        Phase::AddMetric { .. } => fails(t) <==> event matches Event::Text(Err(_)),
        Phase::AddInvalid => fails(t) <==> setup.scope_validation && event matches Event::Text(
            Ok(_),
        ),
        Phase::EnableGroup => !fails(t) <==> (event matches Event::Count(Ok(r)) && r.data
            == setup.metrics().len()),
        _ => true,
    }
}

proof fn lemma_intro_early(setup: WorkflowSetup, s: WorkflowState, event: Event)
    requires
        limits_ok(setup),
        state_ok(setup, s),
        event.spec_kind() == s.phase.answer(),
        s.phase is Health || s.phase is Connect || s.phase is Handshake || s.phase is InspectCode
            || s.phase is InspectVariable || s.phase is AddMetric || s.phase is AddInvalid
            || s.phase is EnableGroup,
        !fails(on_event(setup, s, event)),
    ensures
        intro_back(setup, s, event, on_event(setup, s, event)),
{
}

proof fn lemma_intro_ends(setup: WorkflowSetup, s: WorkflowState, event: Event)
    requires
        limits_ok(setup),
        state_ok(setup, s),
        event.spec_kind() == s.phase.answer(),
        s.phase is Health || s.phase is Connect || s.phase is AddMetric || s.phase is AddInvalid
            || s.phase is EnableGroup,
    ensures
        intro_on(setup, s, event, on_event(setup, s, event)),
{
}

proof fn lemma_intro_waiting(setup: WorkflowSetup, s: WorkflowState, event: Event)
    requires
        limits_ok(setup),
        state_ok(setup, s),
        event.spec_kind() == s.phase.answer(),
        s.phase is WaitTimer || s.phase is WaitPause || s.phase is WaitPoll || s.phase is WaitMissing
            || s.phase is MultiList || s.phase is MultiEvents,
        !fails(on_event(setup, s, event)),
    ensures
        intro_back(setup, s, event, on_event(setup, s, event)),
{
    assert forall|t: WorkflowState, log: Seq<ReportView>, i: usize|
        i <= setup.metrics().len() && t.result.metrics_added == s.result.metrics_added
            && t.result.introspection_metrics_added == s.result.introspection_metrics_added
            && intro_counts(t.result) == intro_counts(s.result) implies intro_back(
        setup,
        s,
        event,
        #[trigger] at_multi(setup, t, log, i),
    ) by {
        lemma_multi_leads(setup, t, log, i);
    }
}

proof fn lemma_intro_checking(setup: WorkflowSetup, s: WorkflowState, event: Event)
    requires
        limits_ok(setup),
        state_ok(setup, s),
        event.spec_kind() == s.phase.answer(),
        s.phase is BaselineFirst || s.phase is BaselineOther || s.phase is ToggleFirst
            || s.phase is SettleFirst || s.phase is VerifyStopped || s.phase is VerifyOther
            || s.phase is BaselineAll || s.phase is DisableGroup || s.phase is SettleGroup
            || s.phase is VerifyGroup,
        !fails(on_event(setup, s, event)),
    ensures
        intro_back(setup, s, event, on_event(setup, s, event)),
{
}

proof fn lemma_intro_late(setup: WorkflowSetup, s: WorkflowState, event: Event)
    requires
        limits_ok(setup),
        state_ok(setup, s),
        event.spec_kind() == s.phase.answer(),
        s.phase is IntroAdd || s.phase is IntroTimer || s.phase is IntroPause
            || s.phase is IntroRemove || s.phase is Remove || s.phase is RemoveInvalid
            || s.phase is Close,
        !fails(on_event(setup, s, event)),
    ensures
        intro_back(setup, s, event, on_event(setup, s, event)),
{
}

#[verifier::rlimit(60)]
proof fn lemma_intro_polling(setup: WorkflowSetup, s: WorkflowState, event: Event)
    requires
        limits_ok(setup),
        state_ok(setup, s),
        event.spec_kind() == s.phase.answer(),
        s.phase is IntroPoll,
        !fails(on_event(setup, s, event)),
    ensures
        intro_back(setup, s, event, on_event(setup, s, event)),
{
}

/// The turns of a run that ends well, as far as adding and introspection are concerned.
spec fn intro_run(setup: WorkflowSetup, turns: Seq<WorkflowTurn>, events: Seq<Event>) -> bool {
    &&& turns.len() == events.len() + 1
    &&& turns[0].state.phase is Health
    &&& is_placed(turns[0])
    &&& turns[0].state.result.metrics_added == 0
    &&& turns[0].state.result.introspection_metrics_added == 0
    &&& intro_counts(turns[0].state.result) == (0usize, 0usize, 0usize)
    &&& forall|i: int| 0 <= i < events.len() ==> #[trigger] intro_leads(setup, turns, events, i)
    &&& turns.last().state.phase is Finished
    &&& turns.last().next matches NextView::Finish(Ok(r)) && r == turns.last().state.result
}

/// The turn at `i` leads to the one behind it, as far as adding and introspection are concerned.
spec fn intro_leads(
    setup: WorkflowSetup,
    turns: Seq<WorkflowTurn>,
    events: Seq<Event>,
    i: int,
) -> bool {
    &&& turns[i].next is Ask
    &&& intro_back(setup, turns[i].state, events[i], turns[i + 1])
}

proof fn lemma_intro_run(setup: WorkflowSetup, turns: Seq<WorkflowTurn>, events: Seq<Event>)
    requires
        limits_ok(setup),
        is_whole_run(setup, turns, events),
        turns.last().next matches NextView::Finish(Ok(_)),
    ensures
        intro_run(setup, turns, events),
{
    assert(turns[0].next is Ask);
    lemma_finished(setup, turns, events);
    lemma_last_result(setup, turns, events);
    assert forall|i: int| 0 <= i < events.len() implies #[trigger] intro_leads(
        setup,
        turns,
        events,
        i,
    ) by {
        lemma_intro_at(setup, turns, events, i);
    }
}

/// No turn of a run that ends well fails.
proof fn lemma_no_failure(
    setup: WorkflowSetup,
    turns: Seq<WorkflowTurn>,
    events: Seq<Event>,
    i: int,
)
    requires
        limits_ok(setup),
        is_whole_run(setup, turns, events),
        turns.last().next matches NextView::Finish(Ok(_)),
        0 <= i < turns.len(),
    ensures
        !fails(turns[i]),
{
    if i < events.len() {
        lemma_run_states(setup, turns, events, i);
    }
}

proof fn lemma_intro_at(
    setup: WorkflowSetup,
    turns: Seq<WorkflowTurn>,
    events: Seq<Event>,
    i: int,
)
    requires
        limits_ok(setup),
        is_whole_run(setup, turns, events),
        turns.last().next matches NextView::Finish(Ok(_)),
        0 <= i < events.len(),
    ensures
        intro_leads(setup, turns, events, i),
{
    lemma_run_states(setup, turns, events, i);
    lemma_no_failure(setup, turns, events, i + 1);
    lemma_intro_step(setup, turns[i].state, events[i]);
}

proof fn lemma_intro_step(setup: WorkflowSetup, s: WorkflowState, event: Event)
    requires
        limits_ok(setup),
        state_ok(setup, s),
        !(s.phase is Finished),
        event.spec_kind() == s.phase.answer(),
        !fails(on_event(setup, s, event)),
    ensures
        intro_back(setup, s, event, on_event(setup, s, event)),
{
    match s.phase {
        Phase::Health | Phase::Connect | Phase::Handshake | Phase::InspectCode
        | Phase::InspectVariable | Phase::AddMetric { .. } | Phase::AddInvalid
        | Phase::EnableGroup => lemma_intro_early(setup, s, event),
        Phase::WaitTimer | Phase::WaitPause | Phase::WaitPoll { .. } | Phase::WaitMissing { .. }
        | Phase::MultiList { .. } | Phase::MultiEvents { .. } => lemma_intro_waiting(
            setup,
            s,
            event,
        ),
        Phase::IntroAdd { .. } | Phase::IntroTimer | Phase::IntroPause
        | Phase::IntroRemove { .. } | Phase::Remove { .. } | Phase::RemoveInvalid
        | Phase::Close => lemma_intro_late(setup, s, event),
        Phase::IntroPoll { .. } => lemma_intro_polling(setup, s, event),
        _ => lemma_intro_checking(setup, s, event),
    }
}

/// A turn asks to add a metric with the given flag, and is answered with success.
pub open spec fn is_added(turn: WorkflowTurn, event: Event, enabled: bool) -> bool {
    &&& turn.next matches NextView::Ask(ActionView::AddMetric(r)) && r.enabled == Some(enabled)
    &&& event matches Event::Text(Ok(_))
}

/// How many of the first `n` turns add a metric with the given flag.
pub open spec fn added(
    turns: Seq<WorkflowTurn>,
    events: Seq<Event>,
    n: nat,
    enabled: bool,
) -> nat
    decreases n,
{
    if n == 0 {
        0
    } else {
        added(turns, events, (n - 1) as nat, enabled) + if is_added(
            turns[n - 1],
            events[n - 1],
            enabled,
        ) {
            1nat
        } else {
            0nat
        }
    }
}

proof fn lemma_added(
    setup: WorkflowSetup,
    turns: Seq<WorkflowTurn>,
    events: Seq<Event>,
    i: int,
)
    requires
        intro_run(setup, turns, events),
        0 <= i < turns.len(),
    ensures
        is_placed(turns[i]),
        turns[i].state.result.metrics_added == added(turns, events, i as nat, false),
        turns[i].state.result.introspection_metrics_added == added(turns, events, i as nat, true),
    decreases i,
{
    if i > 0 {
        lemma_added(setup, turns, events, i - 1);
        assert(intro_leads(setup, turns, events, i - 1));
    }
}

/// The result of a run that ends well counts the metrics that were added: those of the workflow,
/// disabled, and those of introspection, enabled, each where the answer was a success.
pub proof fn law_added_metrics_are_counted(
    setup: WorkflowSetup,
    turns: Seq<WorkflowTurn>,
    events: Seq<Event>,
)
    requires
        limits_ok(setup),
        is_whole_run(setup, turns, events),
        turns.last().next matches NextView::Finish(Ok(_)),
    ensures
        ({
            let r = turns.last().next->Finish_0->Ok_0;
            &&& r.metrics_added == added(turns, events, events.len(), false)
            &&& r.introspection_metrics_added == added(turns, events, events.len(), true)
        }),
{
    lemma_intro_run(setup, turns, events);
    lemma_added(setup, turns, events, turns.len() - 1);
}

/// No answer in a run that ends well is one that ends the run: the daemon was healthy, the
/// connection was made, every metric of the workflow was added, the invalid one was refused where
/// scopes are checked, and the group was enabled as a whole.
pub proof fn law_refusals_end_the_run(
    setup: WorkflowSetup,
    turns: Seq<WorkflowTurn>,
    events: Seq<Event>,
    i: int,
)
    requires
        limits_ok(setup),
        is_whole_run(setup, turns, events),
        turns.last().next matches NextView::Finish(Ok(_)),
        0 <= i < events.len(),
    ensures
        !ends_the_run(setup, turns[i], events[i]),
{
    lemma_placed_at(setup, turns, events, i);
    lemma_run_states(setup, turns, events, i);
    lemma_no_failure(setup, turns, events, i + 1);
    lemma_ends_step(setup, turns[i], events[i]);
}

proof fn lemma_placed_at(
    setup: WorkflowSetup,
    turns: Seq<WorkflowTurn>,
    events: Seq<Event>,
    i: int,
)
    requires
        limits_ok(setup),
        is_whole_run(setup, turns, events),
        turns.last().next matches NextView::Finish(Ok(_)),
        0 <= i < turns.len(),
    ensures
        is_placed(turns[i]),
{
    lemma_intro_run(setup, turns, events);
    lemma_added(setup, turns, events, i);
}

proof fn lemma_ends_step(setup: WorkflowSetup, turn: WorkflowTurn, event: Event)
    requires
        limits_ok(setup),
        state_ok(setup, turn.state),
        event.spec_kind() == turn.state.phase.answer(),
        !(turn.state.phase is Finished),
        is_placed(turn),
        !fails(on_event(setup, turn.state, event)),
    ensures
        !ends_the_run(setup, turn, event),
{
    match turn.state.phase {
        Phase::Health | Phase::Connect | Phase::AddMetric { .. } | Phase::AddInvalid
        | Phase::EnableGroup => lemma_intro_ends(setup, turn.state, event),
        _ => {},
    }
}

/// What introspection counts.
pub enum Feature {
    Any,
    StackTrace,
    MemorySnapshot,
}

/// The events of the metric count for the feature.
pub open spec fn counts_for(metric: MetricPoint, feature: Feature) -> bool {
    match feature {
        Feature::Any => true,
        Feature::StackTrace => metric.capture_stack_trace,
        Feature::MemorySnapshot => metric.capture_memory_snapshot,
    }
}

/// The number of events for a feature in the first `n` answers of the round behind `d`.
pub open spec fn counted(
    setup: WorkflowSetup,
    events: Seq<Event>,
    d: int,
    n: nat,
    feature: Feature,
) -> nat
    decreases n,
{
    if n == 0 {
        0
    } else {
        counted(setup, events, d, (n - 1) as nat, feature) + if counts_for(
            setup.intro()[n - 1],
            feature,
        ) {
            answered(events[d + n])
        } else {
            0
        }
    }
}

/// The turns behind that at `d` ask for the events of the first `n` introspection metrics, one
/// after another, and the event at `d` says that there is time.
pub open spec fn is_intro_round(
    setup: WorkflowSetup,
    turns: Seq<WorkflowTurn>,
    events: Seq<Event>,
    d: int,
    n: int,
) -> bool {
    &&& 0 <= d
    &&& d + n < turns.len()
    &&& events[d] == (Event::Timer { expired: false })
    &&& forall|k: int|
        0 <= k < n ==> asks(
            turns[d + 1 + k],
            ActionView::QueryEvents(#[trigger] setup.intro()[k].name@, 100),
        )
}

/// The three counts of the round behind `d`, over its first `n` answers.
pub open spec fn round_counts(
    setup: WorkflowSetup,
    events: Seq<Event>,
    d: int,
    n: nat,
) -> (usize, usize, usize) {
    (
        capped(counted(setup, events, d, n, Feature::Any)),
        capped(counted(setup, events, d, n, Feature::StackTrace)),
        capped(counted(setup, events, d, n, Feature::MemorySnapshot)),
    )
}

/// What is known at a turn of introspection: `last` is the last whole round, if there is one.
spec fn intro_so_far(
    setup: WorkflowSetup,
    turns: Seq<WorkflowTurn>,
    events: Seq<Event>,
    i: int,
    last: Option<int>,
) -> bool {
    let k = setup.intro().len() as int;
    let s = turns[i].state;
    let current = match polling(s.phase) {
        Some((index, _, _, _)) => i - 1 - index,
        None => i,
    };
    &&& waits_intro(s.phase) ==> k > 0
    &&& polling(s.phase) matches Some((index, total, stacks, memories)) ==> {
        &&& 0 <= index < k
        &&& is_intro_round(setup, turns, events, current, index + 1)
        &&& (total, stacks, memories) == round_counts(setup, events, current, index as nat)
        &&& past_group_phase(turns[current].state.phase)
    }
    &&& match last {
        Some(d) => {
            &&& is_intro_round(setup, turns, events, d, k)
            &&& k > 0
            &&& past_group_phase(s.phase)
            &&& d + k <= current
            &&& intro_counts(s.result) == round_counts(setup, events, d, k as nat)
            &&& forall|j: int| d + k < j <= current ==> !#[trigger] queries(turns[j])
        },
        None => {
            &&& intro_counts(s.result) == (0usize, 0usize, 0usize)
            &&& forall|j: int|
                0 <= j <= current ==> !(queries(#[trigger] turns[j]) && past_group_phase(
                    turns[j].state.phase,
                ))
        },
    }
}

/// The turn asks for events.
pub open spec fn queries(turn: WorkflowTurn) -> bool {
    turn.next matches NextView::Ask(ActionView::QueryEvents(..))
}

#[verifier::rlimit(60)]
proof fn lemma_intro_so_far(
    setup: WorkflowSetup,
    turns: Seq<WorkflowTurn>,
    events: Seq<Event>,
    i: int,
) -> (last: Option<int>)
    requires
        intro_run(setup, turns, events),
        0 <= i < turns.len(),
    ensures
        intro_so_far(setup, turns, events, i, last),
    decreases i,
{
    reveal_with_fuel(counted, 2);
    if i == 0 {
        None
    } else {
        let before = lemma_intro_so_far(setup, turns, events, i - 1);
        assert(intro_leads(setup, turns, events, i - 1));
        let k = setup.intro().len() as int;
        let s = turns[i - 1].state;
        match (polling(s.phase), polling(turns[i].state.phase)) {
            (Some((index, _, _, _)), None) => {
                let d = i - 2 - index;
                assert(d + k == i - 1);
                assert(is_intro_round(setup, turns, events, d, k));
                Some(d)
            },
            (_, Some((index, _, _, _))) => {
                let d = i - 1 - index;
                assert(turns[d + 1 + index] == turns[i]);
                assert(is_intro_round(setup, turns, events, d, index + 1));
                before
            },
            _ => before,
        }
    }
}

/// The introspection counts in the result of a run that ends well are those of the last round of
/// queries behind the disabled group: all events, those of the metrics that capture a stack trace
/// and those of the metrics that capture a memory snapshot. Where there is no such round they are
/// nothing.
pub proof fn law_introspection_counts(
    setup: WorkflowSetup,
    turns: Seq<WorkflowTurn>,
    events: Seq<Event>,
) -> (last: Option<int>)
    requires
        limits_ok(setup),
        is_whole_run(setup, turns, events),
        turns.last().next matches NextView::Finish(Ok(_)),
    ensures
        ({
            let r = turns.last().next->Finish_0->Ok_0;
            let k = setup.intro().len() as int;
            match last {
                Some(d) => {
                    &&& is_intro_round(setup, turns, events, d, k)
                    &&& intro_counts(r) == round_counts(setup, events, d, k as nat)
                    &&& forall|j: int| d + k < j < turns.len() ==> !#[trigger] queries(turns[j])
                },
                None => {
                    &&& intro_counts(r) == (0usize, 0usize, 0usize)
                    &&& forall|j: int|
                        0 <= j < turns.len() ==> !(queries(#[trigger] turns[j])
                            && past_group_phase(turns[j].state.phase))
                },
            }
        }),
{
    lemma_intro_run(setup, turns, events);
    lemma_intro_so_far(setup, turns, events, turns.len() - 1)
}

} // verus!
