//! What a run of the workflow captures while it waits, and how it begins.

use vstd::prelude::*;

use super::reconnection_counts::{answered, answered_from, capped};
use super::workflow::{
    at_multi, law_success_adds_all_metrics, limits_ok, on_event, state_ok, Phase, WorkflowSetup,
    WorkflowState, WorkflowTurn,
};
use super::workflow_group::{asks_for, asks_for_first, fails, lemma_finished, lemma_multi_leads};
use super::workflow_runs::{asks, is_whole_run, lemma_run_states};
use crate::exchange::{ActionView, Event, NextView};
use crate::report::ReportView;

verus! {

/// The turn at `d` looks at the timer of the wait, and the turns behind it ask for the events of
/// every metric.
pub open spec fn is_wait_round(setup: WorkflowSetup, turns: Seq<WorkflowTurn>, d: int) -> bool {
    let n = setup.metrics().len() as int;
    &&& 0 <= d
    &&& d + 1 + n < turns.len()
    &&& turns[d].next matches NextView::Ask(ActionView::CheckTimer(_, limit)) && limit
        == setup.config.event_wait_secs
    &&& asks_for_first(setup, turns, d + 1, n)
}

/// Every metric has events in the round at `d`.
pub open spec fn every_metric_captured(setup: WorkflowSetup, events: Seq<Event>, d: int) -> bool {
    forall|k: int| 0 <= k < setup.metrics().len() ==> #[trigger] captured_in(events, d, k)
}

/// The metric at `k` has events in the round at `d`.
pub open spec fn captured_in(events: Seq<Event>, d: int, k: int) -> bool {
    answered(events[d + 1 + k]) > 0
}

spec fn before_wait(phase: Phase) -> bool {
    match phase {
        Phase::Health | Phase::Connect | Phase::Handshake | Phase::InspectCode
        | Phase::InspectVariable | Phase::AddMetric { .. } | Phase::AddInvalid
        | Phase::EnableGroup => true,
        _ => false,
    }
}

spec fn in_wait(phase: Phase) -> bool {
    match phase {
        Phase::WaitTimer | Phase::WaitPoll { .. } | Phase::WaitPause
        | Phase::WaitMissing { .. } => true,
        _ => false,
    }
}

spec fn past_wait(phase: Phase) -> bool {
    !before_wait(phase) && !in_wait(phase)
}

/// The phase asks for the metric at `k` once more when the time is up.
spec fn looks_for(phase: Phase, k: int) -> bool {
    phase matches Phase::WaitMissing { index } && index == k
}

/// How a turn of the wait follows from the state before it.
spec fn wait_back(setup: WorkflowSetup, s: WorkflowState, event: Event, t: WorkflowTurn) -> bool {
    let n = setup.metrics().len() as int;
    let one = if answered(event) > 0 {
        1int
    } else {
        0int
    };
    &&& t.state.phase is WaitTimer ==> (t.next matches NextView::Ask(
        ActionView::CheckTimer(_, limit),
    ) && limit == setup.config.event_wait_secs)
    &&& before_wait(t.state.phase) ==> before_wait(s.phase)
    &&& past_wait(s.phase) ==> past_wait(t.state.phase)
    &&& match t.state.phase {
        Phase::WaitPoll { index, total, active } => {
            &&& index < n
            &&& asks_for(setup, t, index as int)
            &&& t.state.result.total_events == s.result.total_events
            &&& if index == 0 {
                s.phase is WaitTimer && event == (Event::Timer { expired: false }) && total == 0
                    && active == 0
            } else {
                s.phase matches Phase::WaitPoll { index: i, total: u, active: a } && i + 1 == index
                    && total == capped(u as nat + answered(event)) && active == a + one
            }
        },
        Phase::WaitMissing { index } => {
            &&& index < n
            &&& asks_for(setup, t, index as int)
            &&& t.state.result.total_events == s.result.total_events
            &&& if index == 0 {
                s.phase is WaitTimer && event == (Event::Timer { expired: true })
                    && t.state.missing.len() == 0
            } else {
                looks_for(s.phase, index - 1) && (t.state.missing.len() > 0 <==> s.missing.len() > 0
                    || answered(event) == 0)
            }
        },
        p => if past_wait(p) && !fails(t) && !past_wait(s.phase) {
            if n == 0 {
                s.phase is WaitTimer && event is Timer && t.state.result.total_events == if event
                    == (Event::Timer { expired: true }) {
                    s.result.total_events
                } else {
                    0
                }
            } else {
                ||| s.phase matches Phase::WaitPoll { index, total, active } && index == n - 1
                    && active + one == n && t.state.result.total_events == capped(
                    total as nat + answered(event),
                )
                ||| looks_for(s.phase, n - 1) && s.missing.len() == 0 && answered(event) > 0
                    && t.state.result.total_events == s.result.total_events
            }
        } else {
            t.state.result.total_events == s.result.total_events
        },
    }
}

/// How a run goes on from a state of the wait.
spec fn wait_on(setup: WorkflowSetup, s: WorkflowState, event: Event, t: WorkflowTurn) -> bool {
    let n = setup.metrics().len() as int;
    match s.phase {
        Phase::WaitTimer => if n == 0 {
            !fails(t) && past_wait(t.state.phase)
        } else if event == (Event::Timer { expired: true }) {
            looks_for(t.state.phase, 0)
        } else {
            t.state.phase matches Phase::WaitPoll { index, .. } && index == 0
        },
        Phase::WaitPoll { index, active, .. } => if index + 1 < n {
            t.state.phase matches Phase::WaitPoll { index: i, .. } && i == index + 1
        } else if active == n - 1 && answered(event) > 0 {
            !fails(t) && past_wait(t.state.phase)
        } else {
            asks(t, ActionView::Pause(2000))
        },
        Phase::WaitMissing { index } => if index + 1 < n {
            looks_for(t.state.phase, index + 1)
        } else if s.missing.len() > 0 || answered(event) == 0 {
            fails(t)
        } else {
            !fails(t) && past_wait(t.state.phase)
        },
        _ => true,
    }
}

proof fn lemma_wait_early(setup: WorkflowSetup, s: WorkflowState, event: Event)
    requires
        limits_ok(setup),
        state_ok(setup, s),
        event.spec_kind() == s.phase.answer(),
        before_wait(s.phase),
    ensures
        wait_back(setup, s, event, on_event(setup, s, event)),
        wait_on(setup, s, event, on_event(setup, s, event)),
{
}

/// What the end of the wait may be: a metric with several expressions, the first metric, or the
/// group where there is none.
spec fn multi_ok(setup: WorkflowSetup, s: WorkflowState, t: WorkflowTurn) -> bool {
    &&& t.next is Ask
    &&& t.state.result == s.result
    &&& t.state.phase is MultiList || t.state.phase is BaselineFirst
        || t.state.phase is DisableGroup
}

proof fn lemma_wait_timer(setup: WorkflowSetup, s: WorkflowState, event: Event)
    requires
        limits_ok(setup),
        state_ok(setup, s),
        event.spec_kind() == s.phase.answer(),
        s.phase is WaitTimer || s.phase is WaitPause,
    ensures
        wait_back(setup, s, event, on_event(setup, s, event)),
        wait_on(setup, s, event, on_event(setup, s, event)),
{
    assert forall|t: WorkflowState, log: Seq<ReportView>, i: usize|
        i <= setup.metrics().len() implies multi_ok(
        setup,
        t,
        #[trigger] at_multi(setup, t, log, i),
    ) by {
        lemma_multi_leads(setup, t, log, i);
    }
}

proof fn lemma_wait_poll(setup: WorkflowSetup, s: WorkflowState, event: Event)
    requires
        limits_ok(setup),
        state_ok(setup, s),
        event.spec_kind() == s.phase.answer(),
        s.phase is WaitPoll,
    ensures
        wait_back(setup, s, event, on_event(setup, s, event)),
        wait_on(setup, s, event, on_event(setup, s, event)),
{
    assert forall|t: WorkflowState, log: Seq<ReportView>, i: usize|
        i <= setup.metrics().len() implies multi_ok(
        setup,
        t,
        #[trigger] at_multi(setup, t, log, i),
    ) by {
        lemma_multi_leads(setup, t, log, i);
    }
}

proof fn lemma_wait_missing(setup: WorkflowSetup, s: WorkflowState, event: Event)
    requires
        limits_ok(setup),
        state_ok(setup, s),
        event.spec_kind() == s.phase.answer(),
        s.phase is WaitMissing || s.phase is MultiList || s.phase is MultiEvents,
    ensures
        wait_back(setup, s, event, on_event(setup, s, event)),
        wait_on(setup, s, event, on_event(setup, s, event)),
{
    assert forall|t: WorkflowState, log: Seq<ReportView>, i: usize|
        i <= setup.metrics().len() implies multi_ok(
        setup,
        t,
        #[trigger] at_multi(setup, t, log, i),
    ) by {
        lemma_multi_leads(setup, t, log, i);
    }
}

proof fn lemma_wait_late(setup: WorkflowSetup, s: WorkflowState, event: Event)
    requires
        limits_ok(setup),
        state_ok(setup, s),
        event.spec_kind() == s.phase.answer(),
        past_wait(s.phase),
        !(s.phase is MultiList),
        !(s.phase is MultiEvents),
        !(s.phase is Finished),
    ensures
        wait_back(setup, s, event, on_event(setup, s, event)),
        wait_on(setup, s, event, on_event(setup, s, event)),
{
}

/// The turns of a run, as far as the wait is concerned.
spec fn wait_run(setup: WorkflowSetup, turns: Seq<WorkflowTurn>, events: Seq<Event>) -> bool {
    &&& turns.len() == events.len() + 1
    &&& turns[0].state.phase is Health
    &&& turns[0].next is Ask
    &&& turns[0].state.result.total_events == 0
    &&& forall|i: int| 0 <= i < events.len() ==> #[trigger] wait_leads(setup, turns, events, i)
    &&& turns.last().next is Finish
    &&& turns.last().state.phase is Finished
    &&& turns.last().next matches NextView::Finish(Ok(r)) ==> r == turns.last().state.result
}

/// The turn at `i` leads to the one behind it, as far as the wait is concerned.
spec fn wait_leads(
    setup: WorkflowSetup,
    turns: Seq<WorkflowTurn>,
    events: Seq<Event>,
    i: int,
) -> bool {
    &&& turns[i].next is Ask
    &&& state_ok(setup, turns[i].state)
    &&& events[i].spec_kind() == turns[i].state.phase.answer()
    &&& wait_back(setup, turns[i].state, events[i], turns[i + 1])
    &&& wait_on(setup, turns[i].state, events[i], turns[i + 1])
}

proof fn lemma_wait_run(setup: WorkflowSetup, turns: Seq<WorkflowTurn>, events: Seq<Event>)
    requires
        limits_ok(setup),
        is_whole_run(setup, turns, events),
    ensures
        wait_run(setup, turns, events),
{
    assert(turns[0].next is Ask);
    lemma_finished(setup, turns, events);
    lemma_last_result(setup, turns, events);
    assert forall|i: int| 0 <= i < events.len() implies #[trigger] wait_leads(
        setup,
        turns,
        events,
        i,
    ) by {
        lemma_run_states(setup, turns, events, i);
        let s = turns[i].state;
        match s.phase {
            Phase::Health | Phase::Connect | Phase::Handshake | Phase::InspectCode
            | Phase::InspectVariable | Phase::AddMetric { .. } | Phase::AddInvalid
            | Phase::EnableGroup => lemma_wait_early(setup, s, events[i]),
            Phase::WaitTimer | Phase::WaitPause => lemma_wait_timer(setup, s, events[i]),
            Phase::WaitPoll { .. } => lemma_wait_poll(setup, s, events[i]),
            Phase::WaitMissing { .. } | Phase::MultiList { .. } | Phase::MultiEvents { .. } =>
                lemma_wait_missing(setup, s, events[i]),
            _ => lemma_wait_late(setup, s, events[i]),
        }
    }
}

/// The result of a run that ends well is that of its last state.
pub proof fn lemma_last_result(
    setup: WorkflowSetup,
    turns: Seq<WorkflowTurn>,
    events: Seq<Event>,
)
    requires
        limits_ok(setup),
        is_whole_run(setup, turns, events),
    ensures
        turns.last().next matches NextView::Finish(Ok(r)) ==> r == turns.last().state.result,
{
    let last = turns.len() - 1;
    assert(turns[0].next is Ask);
    lemma_run_states(setup, turns, events, last - 1);
    if turns.last().next matches NextView::Finish(Ok(_)) {
        law_success_adds_all_metrics(
            setup,
            turns[last - 1].state,
            events[last - 1],
        );
    }
}

/// What is known at a turn of the wait.
spec fn wait_so_far(
    setup: WorkflowSetup,
    turns: Seq<WorkflowTurn>,
    events: Seq<Event>,
    i: int,
    d: int,
) -> bool {
    let n = setup.metrics().len() as int;
    let s = turns[i].state;
    match s.phase {
        Phase::WaitPoll { index, total, active } => {
            &&& d == i - 1 - index
            &&& timer_at(setup, turns, events, d, false)
            &&& index < n
            &&& asks_for_first(setup, turns, d + 1, index + 1)
            &&& s.result.total_events == 0
            &&& total == capped(answered_from(events, d + 1, index as nat))
            &&& active <= index
            &&& active == index <==> forall|k: int|
                0 <= k < index ==> #[trigger] captured_in(events, d, k)
        },
        Phase::WaitMissing { index } => {
            &&& d == i - 1 - index
            &&& timer_at(setup, turns, events, d, true)
            &&& index < n
            &&& asks_for_first(setup, turns, d + 1, index + 1)
            &&& s.result.total_events == 0
            &&& s.missing.len() == 0 <==> forall|k: int|
                0 <= k < index ==> #[trigger] captured_in(events, d, k)
        },
        p => if past_wait(p) {
            fails(turns[i]) || ({
                &&& is_wait_round(setup, turns, d)
                &&& d + 1 + n <= i
                &&& every_metric_captured(setup, events, d)
                &&& s.result.total_events == round_total(setup, events, d)
            })
        } else {
            &&& s.result.total_events == 0
            &&& p is WaitTimer ==> i > 0 && (turns[i].next matches NextView::Ask(
                ActionView::CheckTimer(_, limit),
            ) && limit == setup.config.event_wait_secs)
        },
    }
}

/// What a run counts of the round at `d`: the events in the answers, or nothing where the time
/// was up.
pub open spec fn round_total(setup: WorkflowSetup, events: Seq<Event>, d: int) -> usize {
    if events[d] == (Event::Timer { expired: true }) {
        0
    } else {
        capped(answered_from(events, d + 1, setup.metrics().len()))
    }
}

/// The turn at `d` looks at the timer of the wait, which says whether the time is up.
spec fn timer_at(
    setup: WorkflowSetup,
    turns: Seq<WorkflowTurn>,
    events: Seq<Event>,
    d: int,
    expired: bool,
) -> bool {
    &&& 0 <= d
    &&& turns[d].next matches NextView::Ask(ActionView::CheckTimer(_, limit)) && limit
        == setup.config.event_wait_secs
    &&& events[d] == (Event::Timer { expired })
}

proof fn lemma_asks_more(setup: WorkflowSetup, turns: Seq<WorkflowTurn>, start: int, n: int)
    requires
        0 <= n,
        asks_for_first(setup, turns, start, n),
        start + n < turns.len(),
        asks_for(setup, turns[start + n], n),
    ensures
        asks_for_first(setup, turns, start, n + 1),
{
}

proof fn lemma_one_more(events: Seq<Event>, d: int, index: int)
    requires
        index > 0,
    ensures
        (forall|k: int| 0 <= k < index ==> #[trigger] captured_in(events, d, k)) <==> ((forall|k: int|
            0 <= k < index - 1 ==> #[trigger] captured_in(events, d, k)) && captured_in(
            events,
            d,
            index - 1,
        )),
        answered_from(events, d + 1, index as nat) == answered_from(
            events,
            d + 1,
            (index - 1) as nat,
        ) + answered(events[d + index]),
{
    if captured_in(events, d, index - 1) && (forall|k: int|
        0 <= k < index - 1 ==> #[trigger] captured_in(events, d, k)) {
        assert forall|k: int| 0 <= k < index implies #[trigger] captured_in(events, d, k) by {}
    }
}

#[verifier::rlimit(40)]
proof fn lemma_wait_so_far(
    setup: WorkflowSetup,
    turns: Seq<WorkflowTurn>,
    events: Seq<Event>,
    i: int,
) -> (d: int)
    requires
        wait_run(setup, turns, events),
        0 <= i < turns.len(),
    ensures
        wait_so_far(setup, turns, events, i, d),
    decreases i,
{
    if i == 0 {
        0
    } else {
        let before = lemma_wait_so_far(setup, turns, events, i - 1);
        assert(wait_leads(setup, turns, events, i - 1));
        let n = setup.metrics().len() as int;
        let s = turns[i - 1].state;
        match turns[i].state.phase {
            Phase::WaitPoll { index, .. } => {
                let d = i - 1 - index;
                if index == 0 {
                    assert(asks_for_first(setup, turns, d + 1, 0));
                } else {
                    lemma_one_more(events, d, index as int);
                }
                assert(turns[d + 1 + index] == turns[i]);
                lemma_asks_more(setup, turns, d + 1, index as int);
                d
            },
            Phase::WaitMissing { index } => {
                let d = i - 1 - index;
                if index == 0 {
                    assert(asks_for_first(setup, turns, d + 1, 0));
                } else {
                    lemma_one_more(events, d, index as int);
                }
                assert(turns[d + 1 + index] == turns[i]);
                lemma_asks_more(setup, turns, d + 1, index as int);
                d
            },
            p => {
                if past_wait(p) && !fails(turns[i]) && !past_wait(s.phase) {
                    if n == 0 {
                        assert(asks_for_first(setup, turns, i, 0));
                        i - 1
                    } else {
                        lemma_one_more(events, before, n);
                        before
                    }
                } else {
                    before
                }
            },
        }
    }
}

/// In a run that ends well, every metric has events in the last round of queries of the wait. The
/// total is the number of events in that round, or nothing where the time was up before it.
pub proof fn law_every_metric_captures(
    setup: WorkflowSetup,
    turns: Seq<WorkflowTurn>,
    events: Seq<Event>,
) -> (d: int)
    requires
        limits_ok(setup),
        is_whole_run(setup, turns, events),
        turns.last().next matches NextView::Finish(Ok(_)),
    ensures
        is_wait_round(setup, turns, d),
        every_metric_captured(setup, events, d),
        turns.last().next->Finish_0->Ok_0.total_events == round_total(setup, events, d),
{
    lemma_wait_run(setup, turns, events);
    lemma_wait_so_far(setup, turns, events, turns.len() - 1)
}

proof fn lemma_wait_forward(
    setup: WorkflowSetup,
    turns: Seq<WorkflowTurn>,
    events: Seq<Event>,
    d: int,
    k: int,
)
    requires
        wait_run(setup, turns, events),
        0 <= d < events.len(),
        turns[d].state.phase is WaitTimer,
        0 <= k < setup.metrics().len(),
    ensures
        d + 1 + k < events.len(),
        if events[d] == (Event::Timer { expired: true }) {
            looks_for(turns[d + 1 + k].state.phase, k)
        } else {
            turns[d + 1 + k].state.phase matches Phase::WaitPoll { index, .. } && index == k
        },
    decreases k,
{
    if k == 0 {
        assert(wait_leads(setup, turns, events, d));
    } else {
        lemma_wait_forward(setup, turns, events, d, k - 1);
        assert(wait_leads(setup, turns, events, d + 1 + k - 1));
    }
}

/// Each time that a run has looked at the timer of its wait, it asks for the events of every
/// metric. Where every metric has events it goes on. Otherwise it pauses for two seconds while
/// there is time, and ends with an error when the time is up.
pub proof fn law_wait_round(
    setup: WorkflowSetup,
    turns: Seq<WorkflowTurn>,
    events: Seq<Event>,
    d: int,
)
    requires
        limits_ok(setup),
        is_whole_run(setup, turns, events),
        0 <= d < events.len(),
        turns[d].state.phase is WaitTimer,
    ensures
        is_wait_round(setup, turns, d),
        ({
            let behind = turns[d + 1 + setup.metrics().len()];
            if every_metric_captured(setup, events, d) {
                !fails(behind) && !asks(behind, ActionView::Pause(2000))
            } else if events[d] == (Event::Timer { expired: true }) {
                fails(behind)
            } else {
                asks(behind, ActionView::Pause(2000))
            }
        }),
{
    lemma_wait_run(setup, turns, events);
    lemma_wait_outcome(setup, turns, events, d);
    let n = setup.metrics().len() as int;
    if every_metric_captured(setup, events, d) {
        lemma_wait_left(setup, turns, events, d + n);
    }
}

/// A turn that leaves the wait does not pause.
proof fn lemma_wait_left(
    setup: WorkflowSetup,
    turns: Seq<WorkflowTurn>,
    events: Seq<Event>,
    i: int,
)
    requires
        limits_ok(setup),
        is_whole_run(setup, turns, events),
        0 <= i < events.len(),
        in_wait(turns[i].state.phase),
        past_wait(turns[i + 1].state.phase),
    ensures
        !asks(turns[i + 1], ActionView::Pause(2000)),
{
    lemma_run_states(setup, turns, events, i);
    assert forall|t: WorkflowState, log: Seq<ReportView>, j: usize|
        j <= setup.metrics().len() implies !asks(
        #[trigger] at_multi(setup, t, log, j),
        ActionView::Pause(2000),
    ) by {
        lemma_multi_leads(setup, t, log, j);
    }
}

proof fn lemma_wait_outcome(
    setup: WorkflowSetup,
    turns: Seq<WorkflowTurn>,
    events: Seq<Event>,
    d: int,
)
    requires
        wait_run(setup, turns, events),
        0 <= d < events.len(),
        turns[d].state.phase is WaitTimer,
    ensures
        is_wait_round(setup, turns, d),
        in_wait(turns[d + setup.metrics().len()].state.phase),
        ({
            let behind = turns[d + 1 + setup.metrics().len()];
            if every_metric_captured(setup, events, d) {
                !fails(behind) && past_wait(behind.state.phase)
            } else if events[d] == (Event::Timer { expired: true }) {
                fails(behind)
            } else {
                asks(behind, ActionView::Pause(2000))
            }
        }),
{
    let n = setup.metrics().len() as int;
    let a = lemma_wait_so_far(setup, turns, events, d);
    assert(wait_leads(setup, turns, events, d));
    if n == 0 {
        assert(asks_for_first(setup, turns, d + 1, 0));
    } else {
        lemma_wait_forward(setup, turns, events, d, n - 1);
        let i = d + n;
        let b = lemma_wait_so_far(setup, turns, events, i);
        assert(wait_leads(setup, turns, events, i));
        lemma_one_more(events, d, n);
    }
}

} // verus!
