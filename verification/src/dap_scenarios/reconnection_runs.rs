//! What holds of whole runs of the reconnection workflow, from the first action to the result.

use vstd::prelude::*;

use super::reconnection::{
    at_health, initial_state, law_turn_keeps_state, on_event, result_ok, state_ok, turn_ok, Phase,
    ReconnectionResultView, ReconnectionSetup, ReconnectionState, ReconnectionTurn,
};
use crate::exchange::{ActionView, Event, NextView};

verus! {

/// The turns of a run and the events that answered them: every turn but the last asks for an
/// action, and the event that answers it leads to the turn behind it.
pub open spec fn is_whole_run(
    setup: ReconnectionSetup,
    turns: Seq<ReconnectionTurn>,
    events: Seq<Event>,
) -> bool {
    &&& turns.len() == events.len() + 1
    &&& turns[0] == at_health(setup, initial_state(), Seq::empty())
    &&& forall|i: int| 0 <= i < events.len() ==> #[trigger] leads_on(setup, turns, events, i)
    &&& turns.last().next is Finish
}

/// The turn at `i` asks for an action, and the event that answers it leads to the one behind it.
pub open spec fn leads_on(
    setup: ReconnectionSetup,
    turns: Seq<ReconnectionTurn>,
    events: Seq<Event>,
    i: int,
) -> bool {
    &&& turns[i].next is Ask
    &&& events[i].spec_kind() == turns[i].state.phase.answer()
    &&& turns[i + 1] == on_event(setup, turns[i].state, events[i])
}

/// The turn asks for the action.
pub open spec fn asks(turn: ReconnectionTurn, action: ActionView) -> bool {
    turn.next == NextView::<ReconnectionResultView>::Ask(action)
}

/// The turn at `j` comes behind that at `i` and asks for the action.
pub open spec fn asks_later(
    turns: Seq<ReconnectionTurn>,
    i: int,
    j: int,
    action: ActionView,
) -> bool {
    i < j < turns.len() && asks(turns[j], action)
}

/// How far a run is: 0 until it begins to remove metrics.
spec fn stage(phase: Phase) -> nat {
    match phase {
        Phase::Remove { .. } => 1,
        Phase::Close => 2,
        Phase::Finished => 3,
        _ => 0,
    }
}

/// A connection is open in the phase.
spec fn is_open(phase: Phase) -> bool {
    match phase {
        Phase::Health | Phase::Connect | Phase::DisconnectPause { .. } | Phase::Restart { .. }
        | Phase::RestartPause { .. } | Phase::Reconnect { .. } | Phase::Finished => false,
        _ => true,
    }
}

/// A turn adds, removes and closes only what its phase is about.
spec fn is_marked(setup: ReconnectionSetup, t: ReconnectionTurn) -> bool {
    match t.next {
        NextView::Finish(_) => t.state.phase is Finished,
        NextView::Ask(action) => match t.state.phase {
            Phase::AddMetric { index } => index < setup.used() && (
            action matches ActionView::AddMetric(r) ==> r.name
                == setup.config.metrics@[index as int].name@),
            Phase::Remove { index } => index < setup.used() && action == ActionView::RemoveMetric(
                setup.config.metrics@[index as int].name@,
            ),
            Phase::Disconnect { .. } | Phase::Close => action == ActionView::CloseConnection(
                t.state.connection_id,
            ),
            Phase::Finished => false,
            _ => !(action is AddMetric),
        },
    }
}

/// How a run comes from one state to a turn, as far as removing and closing are concerned.
spec fn step_ok(
    setup: ReconnectionSetup,
    s: ReconnectionState,
    event: Event,
    t: ReconnectionTurn,
) -> bool {
    &&& stage(s.phase) <= stage(t.state.phase)
    &&& match t.state.phase {
        Phase::Remove { index } => index > 0 ==> (s.phase matches Phase::Remove { index: i } && i + 1
            == index),
        Phase::Close => setup.used() > 0 ==> (s.phase matches Phase::Remove { index } && index + 1
            >= setup.used()),
        Phase::Finished => t.next matches NextView::Finish(Ok(_)) ==> s.phase is Close,
        _ => true,
    }
    &&& is_open(s.phase) && !(s.phase is Disconnect) && !(s.phase is Close) ==> t.next matches
        NextView::Finish(Err(_)) || (is_open(t.state.phase) && t.state.connection_id
        == s.connection_id)
    &&& event matches Event::Connection(Ok(r)) ==> is_open(t.state.phase) && t.state.connection_id
        == r.data.connection_id@
}

proof fn lemma_step(setup: ReconnectionSetup, s: ReconnectionState, event: Event)
    requires
        setup.cycles < usize::MAX,
        state_ok(setup, s),
        !(s.phase is Finished),
        event.spec_kind() == s.phase.answer(),
    ensures
        is_marked(setup, on_event(setup, s, event)),
        step_ok(setup, s, event, on_event(setup, s, event)),
{
}

proof fn lemma_run_so_far(
    setup: ReconnectionSetup,
    turns: Seq<ReconnectionTurn>,
    events: Seq<Event>,
    i: int,
)
    requires
        setup.cycles < usize::MAX,
        is_whole_run(setup, turns, events),
        0 <= i < turns.len(),
    ensures
        turn_ok(setup, turns[i]),
        is_marked(setup, turns[i]),
        i > 0 ==> step_ok(setup, turns[i - 1].state, events[i - 1], turns[i]),
    decreases i,
{
    if i > 0 {
        lemma_run_so_far(setup, turns, events, i - 1);
        assert(leads_on(setup, turns, events, i - 1));
        law_turn_keeps_state(setup, turns[i - 1].state, events[i - 1]);
        lemma_step(setup, turns[i - 1].state, events[i - 1]);
    }
}

/// Every turn of a run leads to a state that a run can be in.
pub proof fn lemma_run_states(
    setup: ReconnectionSetup,
    turns: Seq<ReconnectionTurn>,
    events: Seq<Event>,
    i: int,
)
    requires
        setup.cycles < usize::MAX,
        is_whole_run(setup, turns, events),
        0 <= i < turns.len(),
    ensures
        turn_ok(setup, turns[i]),
{
    lemma_run_so_far(setup, turns, events, i);
}

proof fn lemma_stages_rise(
    setup: ReconnectionSetup,
    turns: Seq<ReconnectionTurn>,
    events: Seq<Event>,
    i: int,
    j: int,
)
    requires
        setup.cycles < usize::MAX,
        is_whole_run(setup, turns, events),
        0 <= i <= j < turns.len(),
    ensures
        stage(turns[i].state.phase) <= stage(turns[j].state.phase),
    decreases j - i,
{
    if i < j {
        lemma_stages_rise(setup, turns, events, i, j - 1);
        lemma_run_so_far(setup, turns, events, j);
    }
}

/// Where a run removes a metric behind that at `k`, or closes, it has removed the one at `k`.
proof fn lemma_removed(
    setup: ReconnectionSetup,
    turns: Seq<ReconnectionTurn>,
    events: Seq<Event>,
    m: int,
    k: int,
) -> (j: int)
    requires
        setup.cycles < usize::MAX,
        is_whole_run(setup, turns, events),
        0 <= m < turns.len(),
        0 <= k < setup.used(),
        match turns[m].state.phase {
            Phase::Remove { index } => k <= index,
            Phase::Close => true,
            _ => false,
        },
    ensures
        0 <= j <= m,
        stage(turns[j].state.phase) == 1,
        asks(turns[j], ActionView::RemoveMetric(setup.config.metrics@[k].name@)),
    decreases m,
{
    lemma_run_so_far(setup, turns, events, m);
    if turns[m].state.phase matches Phase::Remove { index } && index == k {
        m
    } else {
        lemma_removed(setup, turns, events, m - 1, k)
    }
}

/// Where a connection is open in a run that ends well, it is closed.
proof fn lemma_closed(
    setup: ReconnectionSetup,
    turns: Seq<ReconnectionTurn>,
    events: Seq<Event>,
    m: int,
) -> (j: int)
    requires
        setup.cycles < usize::MAX,
        is_whole_run(setup, turns, events),
        turns.last().next matches NextView::Finish(Ok(_)),
        0 <= m < turns.len(),
        is_open(turns[m].state.phase),
    ensures
        m <= j < turns.len(),
        asks(turns[j], ActionView::CloseConnection(turns[m].state.connection_id)),
    decreases turns.len() - m,
{
    lemma_run_so_far(setup, turns, events, m);
    if turns[m].state.phase is Disconnect || turns[m].state.phase is Close {
        m
    } else {
        assert(m < turns.len() - 1);
        lemma_run_so_far(setup, turns, events, m + 1);
        if m + 1 < turns.len() - 1 {
            assert(leads_on(setup, turns, events, m + 1));
        }
        lemma_closed(setup, turns, events, m + 1)
    }
}

/// A run that ends well has reconnected as often as it was asked to and captured events on every
/// connection. It leaves nothing behind: every metric that it asked to add it asks to remove
/// later, every connection that it made it asks to close later, and closing is its last action.
pub proof fn law_successful_run_cleans_up(
    setup: ReconnectionSetup,
    turns: Seq<ReconnectionTurn>,
    events: Seq<Event>,
)
    requires
        setup.cycles < usize::MAX,
        is_whole_run(setup, turns, events),
        turns.last().next matches NextView::Finish(Ok(_)),
    ensures
        turns.last().next matches NextView::Finish(Ok(r)) && r.metrics_added == setup.used()
            && result_ok(r, setup.cycles as int),
        forall|i: int|
            0 <= i < turns.len() ==> (#[trigger] turns[i].next matches NextView::Ask(
                ActionView::AddMetric(request),
            ) ==> exists|j: int|
                #[trigger] asks_later(turns, i, j, ActionView::RemoveMetric(request.name))),
        forall|i: int|
            0 <= i < events.len() ==> (#[trigger] events[i] matches Event::Connection(Ok(r))
                ==> exists|j: int|
                #[trigger] asks_later(
                    turns,
                    i,
                    j,
                    ActionView::CloseConnection(r.data.connection_id@),
                )),
        turns.len() >= 2,
        turns[turns.len() - 2].next matches NextView::Ask(ActionView::CloseConnection(_)),
{
    let last = turns.len() - 1;
    let end = last - 1;
    assert(turns[0].next is Ask);
    lemma_run_so_far(setup, turns, events, last);
    lemma_run_so_far(setup, turns, events, end);
    assert(turns[end].state.phase is Close);
    assert forall|i: int| 0 <= i < turns.len() implies (#[trigger] turns[i].next matches
        NextView::Ask(ActionView::AddMetric(request)) ==> exists|j: int|
        #[trigger] asks_later(turns, i, j, ActionView::RemoveMetric(request.name))) by {
        if let NextView::Ask(ActionView::AddMetric(request)) = turns[i].next {
            lemma_run_so_far(setup, turns, events, i);
            let index = turns[i].state.phase->AddMetric_index as int;
            let j = lemma_removed(setup, turns, events, end, index);
            if j < i {
                lemma_stages_rise(setup, turns, events, j, i);
            }
            assert(asks_later(turns, i, j, ActionView::RemoveMetric(request.name)));
        }
    }
    assert forall|i: int| 0 <= i < events.len() implies (#[trigger] events[i] matches
        Event::Connection(Ok(r)) ==> exists|j: int|
        #[trigger] asks_later(
            turns,
            i,
            j,
            ActionView::CloseConnection(r.data.connection_id@),
        )) by {
        if let Event::Connection(Ok(r)) = events[i] {
            lemma_run_so_far(setup, turns, events, i + 1);
            let j = lemma_closed(setup, turns, events, i + 1);
            assert(asks_later(
                turns,
                i,
                j,
                ActionView::CloseConnection(r.data.connection_id@),
            ));
        }
    }
}

/// How many of the first `n` turns ask to restart the debugger.
pub open spec fn restarts(turns: Seq<ReconnectionTurn>, n: nat) -> nat
    decreases n,
{
    if n == 0 {
        0
    } else {
        let before = restarts(turns, (n - 1) as nat);
        if asks(turns[n - 1], ActionView::RestartDebugger) {
            before + 1
        } else {
            before
        }
    }
}

/// How many connections of the run were reopened, or are about to be, in the phase.
spec fn cycles_begun(setup: ReconnectionSetup, phase: Phase) -> int {
    match phase {
        Phase::Timer { cycle } | Phase::PollPause { cycle } | Phase::Restart { cycle }
        | Phase::RestartPause { cycle } | Phase::Reconnect { cycle }
        | Phase::ReconnectPause { cycle } => cycle as int,
        Phase::Poll { cycle, .. } | Phase::Tally { cycle, .. } => cycle as int,
        Phase::Disconnect { cycle } | Phase::DisconnectPause { cycle } => cycle - 1,
        Phase::Remove { .. } | Phase::Close | Phase::Finished => setup.cycles as int,
        _ => 0,
    }
}

proof fn lemma_restart_step(setup: ReconnectionSetup, s: ReconnectionState, event: Event)
    requires
        setup.cycles < usize::MAX,
        state_ok(setup, s),
        !(s.phase is Finished),
        event.spec_kind() == s.phase.answer(),
    ensures
        ({
            let t = on_event(setup, s, event);
            let before = cycles_begun(setup, s.phase);
            let after = cycles_begun(setup, t.state.phase);
            &&& asks(t, ActionView::RestartDebugger) <==> t.state.phase is Restart
            &&& t.state.phase is Restart ==> setup.restart && after == before + 1
            &&& !(t.state.phase is Restart) ==> t.next matches NextView::Finish(Err(_)) || after
                == before || (!setup.restart && after == before + 1)
        }),
{
}

proof fn lemma_restarts_so_far(
    setup: ReconnectionSetup,
    turns: Seq<ReconnectionTurn>,
    events: Seq<Event>,
    i: int,
)
    requires
        setup.cycles < usize::MAX,
        is_whole_run(setup, turns, events),
        0 <= i < turns.len(),
    ensures
        turns[i].next matches NextView::Finish(Err(_)) || restarts(turns, (i + 1) as nat) == (
        if setup.restart {
            cycles_begun(setup, turns[i].state.phase)
        } else {
            0
        }),
    decreases i,
{
    reveal_with_fuel(restarts, 2);
    if i > 0 {
        lemma_restarts_so_far(setup, turns, events, i - 1);
        lemma_run_so_far(setup, turns, events, i - 1);
        assert(leads_on(setup, turns, events, i - 1));
        lemma_restart_step(setup, turns[i - 1].state, events[i - 1]);
    }
}

/// A run that ends well has restarted the debugger once for each time that it reconnected where a
/// restart was asked for, and never otherwise.
pub proof fn law_restarts(
    setup: ReconnectionSetup,
    turns: Seq<ReconnectionTurn>,
    events: Seq<Event>,
)
    requires
        setup.cycles < usize::MAX,
        is_whole_run(setup, turns, events),
        turns.last().next matches NextView::Finish(Ok(_)),
    ensures
        restarts(turns, turns.len()) == (if setup.restart {
            setup.cycles as nat
        } else {
            0
        }),
{
    let last = turns.len() - 1;
    lemma_run_so_far(setup, turns, events, last);
    lemma_restarts_so_far(setup, turns, events, last);
}

} // verus!
