//! What holds of whole runs of the workflow, from the first action to the result.

use vstd::prelude::*;

use super::workflow::{
    at_health, at_multi, initial_state, law_turn_keeps_state, limits_ok, metric_request, on_event,
    state_ok, Phase, WorkflowResult, WorkflowSetup, WorkflowState, WorkflowTurn,
};
use crate::exchange::{ActionView, Event, NextView};
use crate::report::ReportView;

verus! {

/// The turns of a run and the events that answered them: every turn but the last asks for an
/// action, and the event that answers it leads to the turn behind it.
pub open spec fn is_whole_run(
    setup: WorkflowSetup,
    turns: Seq<WorkflowTurn>,
    events: Seq<Event>,
) -> bool {
    &&& turns.len() == events.len() + 1
    &&& turns[0] == at_health(setup, initial_state(), Seq::empty())
    &&& forall|i: int|
        0 <= i < events.len() ==> turn_leads_on(
            setup,
            #[trigger] turns[i],
            events[i],
            turns[i + 1],
        )
    &&& turns.last().next is Finish
}

/// A turn asks for an action, and the event that answers it leads to another turn.
pub open spec fn turn_leads_on(
    setup: WorkflowSetup,
    turn: WorkflowTurn,
    event: Event,
    then: WorkflowTurn,
) -> bool {
    &&& turn.next is Ask
    &&& event.spec_kind() == turn.state.phase.answer()
    &&& then == on_event(setup, turn.state, event)
}

/// How far a run is: 0 until it begins to remove metrics.
pub open spec fn stage(phase: Phase) -> nat {
    match phase {
        Phase::IntroRemove { .. } => 1,
        Phase::Remove { .. } => 2,
        Phase::RemoveInvalid => 3,
        Phase::Close => 4,
        Phase::Finished => 5,
        _ => 0,
    }
}

/// The turn asks for the action.
pub open spec fn asks(turn: WorkflowTurn, action: ActionView) -> bool {
    turn.next == NextView::<WorkflowResult>::Ask(action)
}

/// A turn adds or removes only the metric that its phase is about, and closes the connection only
/// in the last phase.
spec fn is_marked(setup: WorkflowSetup, t: WorkflowTurn) -> bool {
    match t.next {
        NextView::Finish(_) => t.state.phase is Finished,
        NextView::Ask(action) => match t.state.phase {
            Phase::AddMetric { index } => index < setup.metrics().len() && (
            action matches ActionView::AddMetric(r) ==> r.name == setup.metrics()[index as int].name@),
            Phase::AddInvalid => setup.config.invalid_metric is Some && (
            action matches ActionView::AddMetric(r) ==> r.name
                == setup.config.invalid_metric->0.name@),
            Phase::IntroAdd { index } => index < setup.intro().len() && (
            action matches ActionView::AddMetric(r) ==> r.name == setup.intro()[index as int].name@),
            Phase::IntroRemove { index } => index < setup.intro().len() && action
                == ActionView::RemoveMetric(setup.intro()[index as int].name@),
            Phase::Remove { index } => index < setup.metrics().len() && action
                == ActionView::RemoveMetric(setup.metrics()[index as int].name@),
            Phase::RemoveInvalid => setup.config.invalid_metric is Some && action
                == ActionView::RemoveMetric(setup.config.invalid_metric->0.name@),
            Phase::Close => action == ActionView::CloseConnection(t.state.connection_id),
            Phase::Finished => false,
            _ => !(action is AddMetric),
        },
    }
}

/// All introspection metrics have been removed when the phase is left, or there are none.
spec fn intro_done(setup: WorkflowSetup, p: Phase) -> bool {
    match p {
        Phase::IntroRemove { index } => index + 1 >= setup.intro().len(),
        _ => stage(p) == 0 && setup.intro().len() == 0,
    }
}

/// All metrics have been removed when the phase is left, or there are none.
spec fn metrics_done(setup: WorkflowSetup, p: Phase) -> bool {
    match p {
        Phase::Remove { index } => index + 1 >= setup.metrics().len(),
        _ => setup.metrics().len() == 0 && intro_done(setup, p),
    }
}

/// How a run comes from one phase to another, as far as removing is concerned.
spec fn step_ok(setup: WorkflowSetup, s: WorkflowState, t: WorkflowTurn) -> bool {
    let p = s.phase;
    &&& !(p is Connect) ==> t.state.connection_id == s.connection_id
    &&& match t.state.phase {
        Phase::Finished => t.next matches NextView::Finish(Ok(_)) ==> p is Close,
        Phase::IntroRemove { index } => if index == 0 {
            stage(p) == 0
        } else {
            p matches Phase::IntroRemove { index: i } && i + 1 == index
        },
        Phase::Remove { index } => if index == 0 {
            intro_done(setup, p)
        } else {
            p matches Phase::Remove { index: i } && i + 1 == index
        },
        Phase::RemoveInvalid => setup.config.invalid_metric is Some && metrics_done(setup, p),
        Phase::Close => p is RemoveInvalid || (setup.config.invalid_metric is None && metrics_done(
            setup,
            p,
        )),
        _ => stage(p) == 0,
    }
}

/// A turn is marked, and comes from a state as it may.
spec fn good(setup: WorkflowSetup, s: WorkflowState, t: WorkflowTurn) -> bool {
    is_marked(setup, t) && step_ok(setup, s, t)
}

proof fn lemma_good_multi(
    setup: WorkflowSetup,
    from: WorkflowState,
    s: WorkflowState,
    log: Seq<ReportView>,
    index: usize,
)
    requires
        index <= setup.metrics().len(),
        stage(from.phase) == 0,
        from.connection_id == s.connection_id,
    ensures
        good(setup, from, at_multi(setup, s, log, index)),
    decreases setup.metrics().len() - index,
{
    if index < setup.metrics().len() && index < usize::MAX
        && setup.metrics()[index as int].extra_expressions@.len() == 0 {
        lemma_good_multi(setup, from, s, log, (index + 1) as usize);
    }
}

proof fn lemma_good_early(setup: WorkflowSetup, s: WorkflowState, event: Event)
    requires
        limits_ok(setup),
        state_ok(setup, s),
        event.spec_kind() == s.phase.answer(),
        s.phase is Health || s.phase is Connect || s.phase is Handshake || s.phase is InspectCode
            || s.phase is InspectVariable || s.phase is AddMetric || s.phase is AddInvalid
            || s.phase is EnableGroup,
    ensures
        good(setup, s, on_event(setup, s, event)),
{
}

proof fn lemma_good_waiting(setup: WorkflowSetup, s: WorkflowState, event: Event)
    requires
        limits_ok(setup),
        state_ok(setup, s),
        event.spec_kind() == s.phase.answer(),
        s.phase is WaitTimer || s.phase is WaitPause || s.phase is WaitPoll || s.phase is WaitMissing
            || s.phase is MultiList || s.phase is MultiEvents,
    ensures
        good(setup, s, on_event(setup, s, event)),
{
    assert forall|t: WorkflowState, log: Seq<ReportView>, i: usize|
        i <= setup.metrics().len() && t.connection_id == s.connection_id implies good(
        setup,
        s,
        #[trigger] at_multi(setup, t, log, i),
    ) by {
        lemma_good_multi(setup, s, t, log, i);
    }
}

proof fn lemma_good_checking(setup: WorkflowSetup, s: WorkflowState, event: Event)
    requires
        limits_ok(setup),
        state_ok(setup, s),
        event.spec_kind() == s.phase.answer(),
        s.phase is BaselineFirst || s.phase is BaselineOther || s.phase is ToggleFirst
            || s.phase is SettleFirst || s.phase is VerifyStopped || s.phase is VerifyOther
            || s.phase is BaselineAll || s.phase is DisableGroup || s.phase is SettleGroup
            || s.phase is VerifyGroup,
    ensures
        good(setup, s, on_event(setup, s, event)),
{
}

proof fn lemma_good_late(setup: WorkflowSetup, s: WorkflowState, event: Event)
    requires
        limits_ok(setup),
        state_ok(setup, s),
        event.spec_kind() == s.phase.answer(),
        s.phase is IntroAdd || s.phase is IntroTimer || s.phase is IntroPause || s.phase is IntroPoll
            || s.phase is IntroRemove || s.phase is Remove || s.phase is RemoveInvalid
            || s.phase is Close,
    ensures
        good(setup, s, on_event(setup, s, event)),
{
}

proof fn lemma_good(setup: WorkflowSetup, s: WorkflowState, event: Event)
    requires
        limits_ok(setup),
        state_ok(setup, s),
        !(s.phase is Finished),
        event.spec_kind() == s.phase.answer(),
    ensures
        good(setup, s, on_event(setup, s, event)),
{
    match s.phase {
        Phase::Health | Phase::Connect | Phase::Handshake | Phase::InspectCode
        | Phase::InspectVariable | Phase::AddMetric { .. } | Phase::AddInvalid
        | Phase::EnableGroup => lemma_good_early(setup, s, event),
        Phase::WaitTimer | Phase::WaitPause | Phase::WaitPoll { .. } | Phase::WaitMissing { .. }
        | Phase::MultiList { .. } | Phase::MultiEvents { .. } => lemma_good_waiting(
            setup,
            s,
            event,
        ),
        Phase::IntroAdd { .. } | Phase::IntroTimer | Phase::IntroPause | Phase::IntroPoll { .. }
        | Phase::IntroRemove { .. } | Phase::Remove { .. } | Phase::RemoveInvalid
        | Phase::Close => lemma_good_late(setup, s, event),
        _ => lemma_good_checking(setup, s, event),
    }
}

/// A turn up to and with `i`, but behind the last one that adds, asks to remove a metric with the
/// name.
pub open spec fn is_removed(turns: Seq<WorkflowTurn>, i: int, name: Seq<char>) -> bool {
    exists|u: int|
        0 <= u <= i && stage(turns[u].state.phase) > 0 && #[trigger] asks(
            turns[u],
            ActionView::RemoveMetric(name),
        )
}

/// The metrics of a list before a position have been removed.
spec fn are_removed(
    turns: Seq<WorkflowTurn>,
    i: int,
    metrics: Seq<super::MetricPoint>,
    n: int,
) -> bool {
    forall|j: int|
        0 <= j < n && j < metrics.len() ==> is_removed(turns, i, (#[trigger] metrics[j]).name@)
}

/// What every turn of a run meets: those before it removed what its phase says.
spec fn so_far(setup: WorkflowSetup, turns: Seq<WorkflowTurn>, i: int) -> bool {
    let p = turns[i].state.phase;
    &&& state_ok(setup, turns[i].state)
    &&& is_marked(setup, turns[i])
    &&& match p {
        Phase::IntroRemove { index } => are_removed(turns, i, setup.intro(), index + 1),
        Phase::Remove { index } => are_removed(
            turns,
            i,
            setup.intro(),
            setup.intro().len() as int,
        ) && are_removed(turns, i, setup.metrics(), index + 1),
        Phase::RemoveInvalid | Phase::Close => are_removed(
            turns,
            i,
            setup.intro(),
            setup.intro().len() as int,
        ) && are_removed(turns, i, setup.metrics(), setup.metrics().len() as int) && (
        setup.config.invalid_metric matches Some(m) ==> is_removed(turns, i, m.name@)),
        _ => true,
    }
}

proof fn lemma_removed_stays(turns: Seq<WorkflowTurn>, i: int, k: int, name: Seq<char>)
    requires
        is_removed(turns, i, name),
        i <= k,
    ensures
        is_removed(turns, k, name),
{
    let u = choose|u: int|
        0 <= u <= i && stage(turns[u].state.phase) > 0 && #[trigger] asks(
            turns[u],
            ActionView::RemoveMetric(name),
        );
    assert(asks(turns[u], ActionView::RemoveMetric(name)));
}

proof fn lemma_all_stay(
    turns: Seq<WorkflowTurn>,
    i: int,
    metrics: Seq<super::MetricPoint>,
    n: int,
)
    requires
        are_removed(turns, i, metrics, n),
    ensures
        are_removed(turns, i + 1, metrics, n),
{
    assert forall|j: int| 0 <= j < n && j < metrics.len() implies is_removed(
        turns,
        i + 1,
        (#[trigger] metrics[j]).name@,
    ) by {
        lemma_removed_stays(turns, i, i + 1, metrics[j].name@);
    }
}

proof fn lemma_so_far_goes_on(
    setup: WorkflowSetup,
    turns: Seq<WorkflowTurn>,
    event: Event,
    i: int,
)
    requires
        limits_ok(setup),
        0 <= i,
        i + 1 < turns.len(),
        so_far(setup, turns, i),
        turn_leads_on(setup, turns[i], event, turns[i + 1]),
    ensures
        so_far(setup, turns, i + 1),
        step_ok(setup, turns[i].state, turns[i + 1]),
{
    let s = turns[i].state;
    let t = turns[i + 1];
    law_turn_keeps_state(setup, s, event);
    lemma_good(setup, s, event);
    let k = setup.intro().len() as int;
    let n = setup.metrics().len() as int;
    match t.state.phase {
        Phase::IntroRemove { index } => {
            assert(asks(t, ActionView::RemoveMetric(setup.intro()[index as int].name@)));
            if index > 0 {
                lemma_all_stay(turns, i, setup.intro(), index as int);
            }
        },
        Phase::Remove { index } => {
            assert(asks(t, ActionView::RemoveMetric(setup.metrics()[index as int].name@)));
            if s.phase is IntroRemove || s.phase is Remove {
                lemma_intro_stays(setup, turns, i);
            }
            if index > 0 {
                lemma_all_stay(turns, i, setup.metrics(), index as int);
            }
        },
        Phase::RemoveInvalid => {
            let m = setup.config.invalid_metric->0;
            assert(asks(t, ActionView::RemoveMetric(m.name@)));
            if stage(s.phase) > 0 {
                lemma_intro_stays(setup, turns, i);
            }
            if s.phase is Remove {
                lemma_all_stay(turns, i, setup.metrics(), n);
            }
        },
        Phase::Close => {
            if stage(s.phase) > 0 {
                lemma_intro_stays(setup, turns, i);
            }
            if s.phase is Remove || s.phase is RemoveInvalid {
                lemma_all_stay(turns, i, setup.metrics(), n);
            }
            if s.phase is RemoveInvalid {
                let m = setup.config.invalid_metric->0;
                lemma_removed_stays(turns, i, i + 1, m.name@);
            }
        },
        _ => {},
    }
}

proof fn lemma_intro_stays(setup: WorkflowSetup, turns: Seq<WorkflowTurn>, i: int)
    requires
        so_far(setup, turns, i),
        ({
            let p = turns[i].state.phase;
            p is Remove || p is RemoveInvalid || (p is IntroRemove && intro_done(setup, p))
        }),
    ensures
        are_removed(turns, i + 1, setup.intro(), setup.intro().len() as int),
{
    let k = setup.intro().len() as int;
    assert(are_removed(turns, i, setup.intro(), k));
    lemma_all_stay(turns, i, setup.intro(), k);
}

proof fn lemma_run_so_far(
    setup: WorkflowSetup,
    turns: Seq<WorkflowTurn>,
    events: Seq<Event>,
    i: int,
)
    requires
        limits_ok(setup),
        is_whole_run(setup, turns, events),
        0 <= i < turns.len(),
    ensures
        so_far(setup, turns, i),
        i > 0 ==> step_ok(setup, turns[i - 1].state, turns[i]),
    decreases i,
{
    if i > 0 {
        lemma_run_so_far(setup, turns, events, i - 1);
        assert(turn_leads_on(setup, turns[i - 1], events[i - 1], turns[i - 1 + 1]));
        lemma_so_far_goes_on(setup, turns, events[i - 1], i - 1);
    }
}

/// Every turn of a run leads to a state that a run can be in, and every turn but the last asks for
/// an action that the event behind it answers.
pub proof fn lemma_run_states(
    setup: WorkflowSetup,
    turns: Seq<WorkflowTurn>,
    events: Seq<Event>,
    i: int,
)
    requires
        limits_ok(setup),
        is_whole_run(setup, turns, events),
        0 <= i < turns.len(),
    ensures
        state_ok(setup, turns[i].state),
        turns[i].next is Ask <==> i < events.len(),
        i < events.len() ==> !(turns[i].state.phase is Finished) && events[i].spec_kind()
            == turns[i].state.phase.answer() && turns[i + 1] == on_event(
            setup,
            turns[i].state,
            events[i],
        ),
{
    lemma_run_so_far(setup, turns, events, i);
    if i < events.len() {
        assert(turn_leads_on(setup, turns[i], events[i], turns[i + 1]));
    }
}

proof fn lemma_stages_rise(
    setup: WorkflowSetup,
    turns: Seq<WorkflowTurn>,
    events: Seq<Event>,
    i: int,
    j: int,
)
    requires
        limits_ok(setup),
        is_whole_run(setup, turns, events),
        0 <= i <= j < turns.len(),
        stage(turns[i].state.phase) > 0,
    ensures
        stage(turns[j].state.phase) > 0,
    decreases j - i,
{
    if i < j {
        lemma_stages_rise(setup, turns, events, i, j - 1);
        lemma_run_so_far(setup, turns, events, j);
    }
}

proof fn lemma_connection_stays(
    setup: WorkflowSetup,
    turns: Seq<WorkflowTurn>,
    events: Seq<Event>,
    j: int,
)
    requires
        limits_ok(setup),
        is_whole_run(setup, turns, events),
        2 <= j < turns.len(),
    ensures
        turns[j].state.connection_id == turns[2].state.connection_id,
        !(turns[j].state.phase is Health) && !(turns[j].state.phase is Connect),
    decreases j,
{
    lemma_run_so_far(setup, turns, events, j);
    assert(turn_leads_on(setup, turns[0], events[0], turns[1]));
    assert(turn_leads_on(setup, turns[1], events[1], turns[2]));
    if j > 2 {
        lemma_connection_stays(setup, turns, events, j - 1);
        assert(turn_leads_on(setup, turns[j - 1], events[j - 1], turns[j - 1 + 1]));
        lemma_run_so_far(setup, turns, events, j - 1);
        lemma_not_back(setup, turns[j - 1].state, events[j - 1]);
    }
}

proof fn lemma_not_back_multi(
    setup: WorkflowSetup,
    s: WorkflowState,
    log: Seq<ReportView>,
    index: usize,
)
    requires
        index <= setup.metrics().len(),
    ensures
        ({
            let p = at_multi(setup, s, log, index).state.phase;
            !(p is Health) && !(p is Connect)
        }),
    decreases setup.metrics().len() - index,
{
    if index < setup.metrics().len() && index < usize::MAX
        && setup.metrics()[index as int].extra_expressions@.len() == 0 {
        lemma_not_back_multi(setup, s, log, (index + 1) as usize);
    }
}

proof fn lemma_not_back(setup: WorkflowSetup, s: WorkflowState, event: Event)
    requires
        limits_ok(setup),
        state_ok(setup, s),
        !(s.phase is Finished) && !(s.phase is Health),
        event.spec_kind() == s.phase.answer(),
    ensures
        ({
            let p = on_event(setup, s, event).state.phase;
            !(p is Health) && !(p is Connect)
        }),
{
    assert forall|t: WorkflowState, log: Seq<ReportView>, i: usize|
        i <= setup.metrics().len() implies !((#[trigger] at_multi(
        setup,
        t,
        log,
        i,
    )).state.phase is Health) && !(at_multi(setup, t, log, i).state.phase is Connect) by {
        lemma_not_back_multi(setup, t, log, i);
    }
}

/// A run that ends well leaves nothing behind: every metric that it asked to add, disabled or not,
/// it asks to remove later; and its last action closes the connection that it made.
pub proof fn law_successful_run_cleans_up(
    setup: WorkflowSetup,
    turns: Seq<WorkflowTurn>,
    events: Seq<Event>,
)
    requires
        limits_ok(setup),
        is_whole_run(setup, turns, events),
        turns.last().next matches NextView::Finish(Ok(_)),
    ensures
        forall|i: int|
            0 <= i < turns.len() && #[trigger] adds(turns[i]) ==> removes_later(
                turns,
                i,
                added_name(turns[i]),
            ),
        forall|j: int|
            0 <= j < setup.metrics().len() ==> removes_later(
                turns,
                0,
                (#[trigger] setup.metrics()[j]).name@,
            ),
        events.len() >= 2,
        events[1] matches Event::Connection(Ok(r)) && asks(
            turns[turns.len() - 2],
            ActionView::CloseConnection(r.data.connection_id@),
        ),
{
    let last = turns.len() - 1;
    let end = last - 1;
    assert(turns[0].next is Ask);
    assert(last >= 1);
    lemma_run_so_far(setup, turns, events, last);
    lemma_run_so_far(setup, turns, events, end);
    assert(turns[end].state.phase is Close);
    assert(turn_leads_on(setup, turns[0], events[0], turns[1]));
    assert(end >= 1);
    assert(turns[1].next is Ask);
    assert(turns[1].state.phase is Connect);
    assert(end >= 2);
    assert(turn_leads_on(setup, turns[1], events[1], turns[2]));
    assert(turns[2].next is Ask);
    lemma_connection_stays(setup, turns, events, end);
    assert forall|i: int| 0 <= i < turns.len() && #[trigger] adds(turns[i]) implies removes_later(
        turns,
        i,
        added_name(turns[i]),
    ) by {
        lemma_run_so_far(setup, turns, events, i);
        let name = added_name(turns[i]);
        assert(stage(turns[i].state.phase) == 0);
        match turns[i].state.phase {
            Phase::AddMetric { index } => {
                assert(is_removed(turns, end, setup.metrics()[index as int].name@));
            },
            Phase::AddInvalid => {
                assert(is_removed(turns, end, setup.config.invalid_metric->0.name@));
            },
            Phase::IntroAdd { index } => {
                assert(is_removed(turns, end, setup.intro()[index as int].name@));
            },
            _ => {},
        }
        assert(is_removed(turns, end, name));
        lemma_removed_is_later(setup, turns, events, i, end, name);
    }
    assert forall|j: int| 0 <= j < setup.metrics().len() implies removes_later(
        turns,
        0,
        (#[trigger] setup.metrics()[j]).name@,
    ) by {
        let name = setup.metrics()[j].name@;
        assert(is_removed(turns, end, name));
        assert(stage(turns[0].state.phase) == 0);
        lemma_removed_is_later(setup, turns, events, 0, end, name);
    }
}

/// The turn asks to add a metric.
pub open spec fn adds(turn: WorkflowTurn) -> bool {
    turn.next matches NextView::Ask(ActionView::AddMetric(_))
}

/// The name of the metric that the turn asks to add.
pub open spec fn added_name(turn: WorkflowTurn) -> Seq<char> {
    match turn.next {
        NextView::Ask(ActionView::AddMetric(r)) => r.name,
        _ => Seq::empty(),
    }
}

/// A turn behind a position asks to remove a metric with the name.
pub open spec fn removes_later(turns: Seq<WorkflowTurn>, i: int, name: Seq<char>) -> bool {
    exists|u: int|
        i < u < turns.len() && #[trigger] asks(turns[u], ActionView::RemoveMetric(name))
}

proof fn lemma_removed_is_later(
    setup: WorkflowSetup,
    turns: Seq<WorkflowTurn>,
    events: Seq<Event>,
    i: int,
    end: int,
    name: Seq<char>,
)
    requires
        limits_ok(setup),
        is_whole_run(setup, turns, events),
        0 <= i < turns.len(),
        end < turns.len(),
        stage(turns[i].state.phase) == 0,
        is_removed(turns, end, name),
    ensures
        removes_later(turns, i, name),
{
    let u = choose|u: int|
        0 <= u <= end && stage(turns[u].state.phase) > 0 && #[trigger] asks(
            turns[u],
            ActionView::RemoveMetric(name),
        );
    if u <= i {
        lemma_stages_rise(setup, turns, events, u, i);
    }
    assert(asks(turns[u], ActionView::RemoveMetric(name)));
}

// ---------------------------------------------------------------------------
// Adding and enabling
// ---------------------------------------------------------------------------

/// How far a run is until its group is enabled.
spec fn part(phase: Phase) -> nat {
    match phase {
        Phase::Health | Phase::Connect | Phase::Handshake | Phase::InspectCode
        | Phase::InspectVariable => 0,
        Phase::AddMetric { .. } => 1,
        Phase::AddInvalid => 2,
        Phase::EnableGroup => 3,
        _ => 4,
    }
}

/// All metrics have been added when the phase is left with the event.
spec fn adding_done(setup: WorkflowSetup, s: WorkflowState, event: Event) -> bool {
    match s.phase {
        Phase::AddMetric { index } => index + 1 >= setup.metrics().len() && event matches Event::Text(
            Ok(_),
        ),
        Phase::AddInvalid => true,
        _ => part(s.phase) == 0 && setup.metrics().len() == 0,
    }
}

/// How a run comes from one state to a turn, as far as adding and enabling are concerned.
spec fn adds_ok(setup: WorkflowSetup, s: WorkflowState, event: Event, t: WorkflowTurn) -> bool {
    match t.state.phase {
        Phase::AddMetric { index } => {
            &&& index < setup.metrics().len()
            &&& asks(
                t,
                ActionView::AddMetric(
                    metric_request(setup, setup.metrics()[index as int], t.state.connection_id),
                ),
            )
            &&& if index == 0 {
                part(s.phase) == 0
            } else {
                s.phase matches Phase::AddMetric { index: i } && i + 1 == index && event matches
                    Event::Text(Ok(_))
            }
        },
        Phase::AddInvalid => adding_done(setup, s, event),
        Phase::EnableGroup => adding_done(setup, s, event) && asks(
            t,
            ActionView::EnableGroup(setup.config.group_name@),
        ),
        _ => if part(t.state.phase) == 0 {
            part(s.phase) == 0
        } else {
            ||| part(s.phase) == 4
            ||| t.next matches NextView::Finish(Err(_))
            ||| s.phase is EnableGroup && counts_all(setup, event)
        },
    }
}

/// The event says that as many metrics were enabled as the run has.
pub open spec fn counts_all(setup: WorkflowSetup, event: Event) -> bool {
    event matches Event::Count(Ok(r)) && r.data == setup.metrics().len()
}

proof fn lemma_part_multi(
    setup: WorkflowSetup,
    s: WorkflowState,
    log: Seq<ReportView>,
    index: usize,
)
    requires
        index <= setup.metrics().len(),
    ensures
        part(at_multi(setup, s, log, index).state.phase) == 4,
    decreases setup.metrics().len() - index,
{
    if index < setup.metrics().len() && index < usize::MAX
        && setup.metrics()[index as int].extra_expressions@.len() == 0 {
        lemma_part_multi(setup, s, log, (index + 1) as usize);
    }
}

proof fn lemma_adds_early(setup: WorkflowSetup, s: WorkflowState, event: Event)
    requires
        limits_ok(setup),
        state_ok(setup, s),
        event.spec_kind() == s.phase.answer(),
        part(s.phase) < 4,
    ensures
        adds_ok(setup, s, event, on_event(setup, s, event)),
{
}

proof fn lemma_adds_late(setup: WorkflowSetup, s: WorkflowState, event: Event)
    requires
        limits_ok(setup),
        state_ok(setup, s),
        event.spec_kind() == s.phase.answer(),
        part(s.phase) == 4,
        !(s.phase is Finished),
    ensures
        adds_ok(setup, s, event, on_event(setup, s, event)),
{
    assert forall|t: WorkflowState, log: Seq<ReportView>, i: usize|
        i <= setup.metrics().len() implies part(
        (#[trigger] at_multi(setup, t, log, i)).state.phase,
    ) == 4 by {
        lemma_part_multi(setup, t, log, i);
    }
}

/// The turn at `u` asks to add the metric, disabled, and is answered with success.
pub open spec fn is_added_at(
    setup: WorkflowSetup,
    turns: Seq<WorkflowTurn>,
    events: Seq<Event>,
    metric: super::MetricPoint,
    u: int,
) -> bool {
    &&& turns[u].next matches NextView::Ask(ActionView::AddMetric(request)) && request
        == metric_request(setup, metric, turns[u].state.connection_id) && request.enabled == Some(
        false,
    )
    &&& events[u] matches Event::Text(Ok(_))
}

/// The metric is added, disabled, before the turn at `e`.
pub open spec fn is_added_before(
    setup: WorkflowSetup,
    turns: Seq<WorkflowTurn>,
    events: Seq<Event>,
    metric: super::MetricPoint,
    e: int,
) -> bool {
    exists|u: int| 0 <= u < e && #[trigger] is_added_at(setup, turns, events, metric, u)
}

/// The first `n` metrics are added, disabled, before the turn at `e`.
pub open spec fn are_added_before(
    setup: WorkflowSetup,
    turns: Seq<WorkflowTurn>,
    events: Seq<Event>,
    n: int,
    e: int,
) -> bool {
    forall|j: int|
        0 <= j < n && j < setup.metrics().len() ==> is_added_before(
            setup,
            turns,
            events,
            #[trigger] setup.metrics()[j],
            e,
        )
}

/// The turn at `e` asks to enable the group, every metric was added before it, and the answer
/// counts them all.
pub open spec fn enables_all_at(
    setup: WorkflowSetup,
    turns: Seq<WorkflowTurn>,
    events: Seq<Event>,
    e: int,
) -> bool {
    &&& asks(turns[e], ActionView::EnableGroup(setup.config.group_name@))
    &&& counts_all(setup, events[e])
    &&& are_added_before(setup, turns, events, setup.metrics().len() as int, e)
}

/// What every turn of a run meets: those before it added and enabled what its phase says.
spec fn added_so_far(
    setup: WorkflowSetup,
    turns: Seq<WorkflowTurn>,
    events: Seq<Event>,
    i: int,
) -> bool {
    match turns[i].state.phase {
        Phase::AddMetric { index } => are_added_before(setup, turns, events, index as int, i)
            && index < setup.metrics().len() && asks(
            turns[i],
            ActionView::AddMetric(
                metric_request(
                    setup,
                    setup.metrics()[index as int],
                    turns[i].state.connection_id,
                ),
            ),
        ),
        Phase::AddInvalid => are_added_before(
            setup,
            turns,
            events,
            setup.metrics().len() as int,
            i,
        ),
        Phase::EnableGroup => are_added_before(
            setup,
            turns,
            events,
            setup.metrics().len() as int,
            i,
        ) && asks(turns[i], ActionView::EnableGroup(setup.config.group_name@)),
        _ => part(turns[i].state.phase) == 4 ==> turns[i].next matches NextView::Finish(Err(_)) || (
        exists|e: int| 0 <= e < i && #[trigger] enables_all_at(setup, turns, events, e)),
    }
}

proof fn lemma_added_so_far(
    setup: WorkflowSetup,
    turns: Seq<WorkflowTurn>,
    events: Seq<Event>,
    i: int,
)
    requires
        limits_ok(setup),
        is_whole_run(setup, turns, events),
        0 <= i < turns.len(),
    ensures
        added_so_far(setup, turns, events, i),
    decreases i,
{
    if i > 0 {
        let u = i - 1;
        let s = turns[u].state;
        lemma_added_so_far(setup, turns, events, u);
        lemma_run_so_far(setup, turns, events, u);
        assert(turn_leads_on(setup, turns[u], events[u], turns[u + 1]));
        if part(s.phase) < 4 {
            lemma_adds_early(setup, s, events[u]);
        } else {
            lemma_adds_late(setup, s, events[u]);
        }
        if let Phase::AddMetric { index } = s.phase {
            if let Event::Text(Ok(_)) = events[u] {
                let m = setup.metrics()[index as int];
                assert(is_added_at(setup, turns, events, m, u));
                assert forall|j: int|
                    0 <= j < index + 1 && j < setup.metrics().len() implies is_added_before(
                    setup,
                    turns,
                    events,
                    #[trigger] setup.metrics()[j],
                    i,
                ) by {
                    if j < index {
                        lemma_added_stays(setup, turns, events, setup.metrics()[j], u);
                    }
                }
                assert(are_added_before(setup, turns, events, index + 1, i));
            }
        } else if s.phase is AddInvalid {
            assert forall|j: int| 0 <= j < setup.metrics().len() implies is_added_before(
                setup,
                turns,
                events,
                #[trigger] setup.metrics()[j],
                i,
            ) by {
                lemma_added_stays(setup, turns, events, setup.metrics()[j], u);
            }
        } else if s.phase is EnableGroup {
            if counts_all(setup, events[u]) {
                assert(enables_all_at(setup, turns, events, u));
            }
        } else if part(s.phase) == 4 {
            let e = choose|e: int| 0 <= e < u && #[trigger] enables_all_at(setup, turns, events, e);
            assert(enables_all_at(setup, turns, events, e));
        }
    }
}

proof fn lemma_added_stays(
    setup: WorkflowSetup,
    turns: Seq<WorkflowTurn>,
    events: Seq<Event>,
    metric: super::MetricPoint,
    e: int,
)
    requires
        is_added_before(setup, turns, events, metric, e),
    ensures
        is_added_before(setup, turns, events, metric, e + 1),
{
    let u = choose|u: int| 0 <= u < e && #[trigger] is_added_at(setup, turns, events, metric, u);
    assert(is_added_at(setup, turns, events, metric, u));
}

/// A run that ends well has added every metric disabled, and then enabled them by their group: each
/// was sent as disabled and accepted, and the answer to enabling the group was their number.
pub proof fn law_successful_run_enables_by_group(
    setup: WorkflowSetup,
    turns: Seq<WorkflowTurn>,
    events: Seq<Event>,
)
    requires
        limits_ok(setup),
        is_whole_run(setup, turns, events),
        turns.last().next matches NextView::Finish(Ok(_)),
    ensures
        exists|e: int| 0 <= e < events.len() && #[trigger] enables_all_at(setup, turns, events, e),
{
    let last = turns.len() - 1;
    lemma_run_so_far(setup, turns, events, last);
    lemma_added_so_far(setup, turns, events, last);
}

} // verus!
