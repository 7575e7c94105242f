//! What a run of the workflow makes of the events that come in after one metric was disabled.

use vstd::prelude::*;

use super::reconnection_counts::answered;
use super::workflow::{
    allowance, at_multi, limits_ok, on_event, single_wait, state_ok, Phase, WorkflowResult, WorkflowSetup,
    WorkflowState, WorkflowTurn,
};
use super::workflow_group::{asks_for, fails, lemma_finished, lemma_multi_leads};
use super::workflow_runs::{asks, is_whole_run, lemma_run_states};
use crate::exchange::{ActionView, Event, NextView};
use crate::report::ReportView;

verus! {

/// How many events more than before a metric may have after it was disabled: one for each
/// iteration that began in two and a half of them, and seven that may be under way.
pub open spec fn single_allowance(setup: WorkflowSetup) -> nat {
    let ms = setup.config.iteration_duration_ms;
    if ms == 0 {
        7
    } else if ms == 1 {
        2 + 7
    } else {
        3 + 7
    }
}

/// The wait is two and a half iterations, rounded down to a millisecond, or the longest wait where
/// that is longer.
pub open spec fn is_single_wait(setup: WorkflowSetup, wait: u64) -> bool {
    let ms = setup.config.iteration_duration_ms as int;
    if 5 * ms < 2 * (u64::MAX + 1) {
        2 * wait <= 5 * ms < 2 * wait + 2
    } else {
        wait == u64::MAX
    }
}

/// The turn pauses for two and a half iterations.
pub open spec fn waits_single(setup: WorkflowSetup, turn: WorkflowTurn) -> bool {
    match turn.next {
        NextView::Ask(ActionView::Pause(wait)) => is_single_wait(setup, wait),
        _ => false,
    }
}

/// Where the first metric was counted before it was disabled at `d`: right before that, or before
/// the second metric was counted.
pub open spec fn counted_at(setup: WorkflowSetup, d: int) -> int {
    if setup.metrics().len() > 1 {
        d - 2
    } else {
        d - 1
    }
}

/// The turn at `d` disables the first metric. Right before it the first metric was counted, and
/// the second where there is one; behind it the run waits and counts the first metric again.
pub open spec fn is_single_check(setup: WorkflowSetup, turns: Seq<WorkflowTurn>, d: int) -> bool {
    &&& setup.metrics().len() > 0
    &&& 0 <= counted_at(setup, d)
    &&& d + 3 < turns.len()
    &&& asks_for(setup, turns[counted_at(setup, d)], 0)
    &&& setup.metrics().len() > 1 ==> asks_for(setup, turns[d - 1], 1)
    &&& asks(turns[d], ActionView::ToggleMetric(setup.metrics()[0].name@, false))
    &&& waits_single(setup, turns[d + 1])
    &&& asks_for(setup, turns[d + 2], 0)
}

/// The first metric has more events after it was disabled at `d` than it may have.
pub open spec fn single_went_on(setup: WorkflowSetup, events: Seq<Event>, d: int) -> bool {
    answered(events[d + 2]) > answered(events[counted_at(setup, d)]) + single_allowance(setup)
}

spec fn past_single(phase: Phase) -> bool {
    match phase {
        Phase::BaselineAll { .. } | Phase::DisableGroup | Phase::SettleGroup
        | Phase::VerifyGroup { .. } | Phase::IntroAdd { .. } | Phase::IntroTimer
        | Phase::IntroPoll { .. } | Phase::IntroPause | Phase::IntroRemove { .. }
        | Phase::Remove { .. } | Phase::RemoveInvalid | Phase::Close | Phase::Finished => true,
        _ => false,
    }
}

spec fn is_over(setup: WorkflowSetup, first: usize, event: Event) -> bool {
    answered(event) > first + single_allowance(setup)
}

/// How a turn around the disabled metric follows from the state before it.
spec fn single_back(setup: WorkflowSetup, s: WorkflowState, event: Event, t: WorkflowTurn) -> bool {
    let n = setup.metrics().len() as int;
    &&& t.next matches NextView::Ask(ActionView::ToggleMetric(..)) ==> t.state.phase is ToggleFirst
    &&& match t.state.phase {
        Phase::BaselineFirst => n > 0 && asks_for(setup, t, 0),
        Phase::BaselineOther { first } => n > 1 && s.phase is BaselineFirst && first == answered(
            event,
        ) && asks_for(setup, t, 1),
        Phase::ToggleFirst { first, other } => {
            &&& n > 0
            &&& asks(t, ActionView::ToggleMetric(setup.metrics()[0].name@, false))
            &&& if n > 1 {
                s.phase == (Phase::BaselineOther { first }) && other == answered(event)
            } else {
                s.phase is BaselineFirst && first == answered(event)
            }
        },
        Phase::SettleFirst { first, other } => s.phase == (Phase::ToggleFirst { first, other })
            && waits_single(setup, t),
        Phase::VerifyStopped { first, other } => s.phase == (Phase::SettleFirst { first, other })
            && asks_for(setup, t, 0),
        Phase::VerifyOther { other } => {
            &&& n > 1
            &&& asks_for(setup, t, 1)
            &&& s.phase matches Phase::VerifyStopped { first, other: o } && o == other && !is_over(
                setup,
                first,
                event,
            )
        },
        p => past_single(p) && !fails(t) ==> past_single(s.phase) || n == 0 || (if n == 1 {
            s.phase matches Phase::VerifyStopped { first, .. } && !is_over(setup, first, event)
        } else {
            s.phase matches Phase::VerifyOther { other } && answered(event) > other
        }),
    }
}

/// How a run goes on from a state around the disabled metric.
spec fn single_on(setup: WorkflowSetup, s: WorkflowState, event: Event, t: WorkflowTurn) -> bool {
    let n = setup.metrics().len() as int;
    match s.phase {
        Phase::ToggleFirst { first, other } => t.state.phase == (Phase::SettleFirst {
            first,
            other,
        }),
        Phase::SettleFirst { first, other } => t.state.phase == (Phase::VerifyStopped {
            first,
            other,
        }),
        Phase::VerifyStopped { first, other } => if is_over(setup, first, event) {
            fails(t)
        } else if n > 1 {
            t.state.phase == (Phase::VerifyOther { other })
        } else {
            !fails(t)
        },
        Phase::VerifyOther { other } => fails(t) <==> answered(event) <= other,
        _ => true,
    }
}

proof fn lemma_quotient(x: int, ms: int, k: int)
    requires
        ms > 0,
        k * ms <= x < (k + 1) * ms,
    ensures
        x / ms == k,
{
    assert(x / ms == k) by (nonlinear_arith)
        requires
            ms > 0,
            k * ms <= x < (k + 1) * ms,
    ;
}

proof fn lemma_single_numbers(setup: WorkflowSetup)
    requires
        limits_ok(setup),
    ensures
        ({
            let ms = setup.config.iteration_duration_ms;
            &&& is_single_wait(setup, single_wait(ms))
            &&& allowance(single_wait(ms), ms) == single_allowance(setup)
        }),
{
    let ms = setup.config.iteration_duration_ms as int;
    let w = single_wait(setup.config.iteration_duration_ms) as int;
    if ms == 1 {
        lemma_quotient(w + ms - 1, ms, 2);
    } else if ms > 1 {
        assert(2 * ms < w <= 3 * ms);
        lemma_quotient(w + ms - 1, ms, 3);
    }
}

proof fn lemma_single_early(setup: WorkflowSetup, s: WorkflowState, event: Event)
    requires
        limits_ok(setup),
        state_ok(setup, s),
        event.spec_kind() == s.phase.answer(),
        s.phase is Health || s.phase is Connect || s.phase is Handshake || s.phase is InspectCode
            || s.phase is InspectVariable || s.phase is AddMetric || s.phase is AddInvalid
            || s.phase is EnableGroup,
    ensures
        single_back(setup, s, event, on_event(setup, s, event)),
        single_on(setup, s, event, on_event(setup, s, event)),
{
}

proof fn lemma_single_waiting(setup: WorkflowSetup, s: WorkflowState, event: Event)
    requires
        limits_ok(setup),
        state_ok(setup, s),
        event.spec_kind() == s.phase.answer(),
        s.phase is WaitTimer || s.phase is WaitPause || s.phase is WaitPoll || s.phase is WaitMissing
            || s.phase is MultiList || s.phase is MultiEvents,
    ensures
        single_back(setup, s, event, on_event(setup, s, event)),
        single_on(setup, s, event, on_event(setup, s, event)),
{
    assert forall|t: WorkflowState, log: Seq<ReportView>, i: usize|
        i <= setup.metrics().len() implies single_back(
        setup,
        s,
        event,
        #[trigger] at_multi(setup, t, log, i),
    ) by {
        lemma_multi_leads(setup, t, log, i);
    }
}

proof fn lemma_single_checking(setup: WorkflowSetup, s: WorkflowState, event: Event)
    requires
        limits_ok(setup),
        state_ok(setup, s),
        event.spec_kind() == s.phase.answer(),
        s.phase is BaselineFirst || s.phase is BaselineOther || s.phase is ToggleFirst
            || s.phase is SettleFirst || s.phase is VerifyStopped || s.phase is VerifyOther,
    ensures
        single_back(setup, s, event, on_event(setup, s, event)),
        single_on(setup, s, event, on_event(setup, s, event)),
{
    lemma_single_numbers(setup);
}

proof fn lemma_single_late(setup: WorkflowSetup, s: WorkflowState, event: Event)
    requires
        limits_ok(setup),
        state_ok(setup, s),
        event.spec_kind() == s.phase.answer(),
        past_single(s.phase),
        !(s.phase is Finished),
    ensures
        single_back(setup, s, event, on_event(setup, s, event)),
        single_on(setup, s, event, on_event(setup, s, event)),
{
}

/// The turns of a run, as far as the disabled metric is concerned.
spec fn single_run(setup: WorkflowSetup, turns: Seq<WorkflowTurn>, events: Seq<Event>) -> bool {
    &&& turns.len() == events.len() + 1
    &&& turns[0].state.phase is Health
    &&& turns[0].next == NextView::<WorkflowResult>::Ask(ActionView::Health)
    &&& forall|i: int| 0 <= i < events.len() ==> #[trigger] single_leads(setup, turns, events, i)
    &&& turns.last().next is Finish
    &&& turns.last().state.phase is Finished
}

/// The turn at `i` leads to the one behind it, as far as the disabled metric is concerned.
spec fn single_leads(
    setup: WorkflowSetup,
    turns: Seq<WorkflowTurn>,
    events: Seq<Event>,
    i: int,
) -> bool {
    &&& turns[i].next is Ask
    &&& single_back(setup, turns[i].state, events[i], turns[i + 1])
    &&& single_on(setup, turns[i].state, events[i], turns[i + 1])
}

proof fn lemma_single_run(setup: WorkflowSetup, turns: Seq<WorkflowTurn>, events: Seq<Event>)
    requires
        limits_ok(setup),
        is_whole_run(setup, turns, events),
    ensures
        single_run(setup, turns, events),
{
    assert(turns[0].next is Ask);
    lemma_finished(setup, turns, events);
    assert forall|i: int| 0 <= i < events.len() implies #[trigger] single_leads(
        setup,
        turns,
        events,
        i,
    ) by {
        lemma_run_states(setup, turns, events, i);
        let s = turns[i].state;
        match s.phase {
            Phase::Health | Phase::Connect | Phase::Handshake | Phase::InspectCode
            | Phase::InspectVariable | Phase::AddMetric { .. } | Phase::AddInvalid
            | Phase::EnableGroup => lemma_single_early(setup, s, events[i]),
            Phase::WaitTimer | Phase::WaitPause | Phase::WaitPoll { .. }
            | Phase::WaitMissing { .. } | Phase::MultiList { .. } | Phase::MultiEvents { .. } =>
                lemma_single_waiting(setup, s, events[i]),
            Phase::BaselineFirst | Phase::BaselineOther { .. } | Phase::ToggleFirst { .. }
            | Phase::SettleFirst { .. } | Phase::VerifyStopped { .. }
            | Phase::VerifyOther { .. } => lemma_single_checking(setup, s, events[i]),
            _ => lemma_single_late(setup, s, events[i]),
        }
    }
}

/// The first metric was disabled at `d`, with these counts before.
spec fn toggled_at(
    setup: WorkflowSetup,
    turns: Seq<WorkflowTurn>,
    events: Seq<Event>,
    d: int,
    first: usize,
    other: usize,
) -> bool {
    &&& setup.metrics().len() > 0
    &&& 0 <= counted_at(setup, d)
    &&& asks_for(setup, turns[counted_at(setup, d)], 0)
    &&& first == answered(events[counted_at(setup, d)])
    &&& setup.metrics().len() > 1 ==> asks_for(setup, turns[d - 1], 1) && other == answered(
        events[d - 1],
    )
    &&& asks(turns[d], ActionView::ToggleMetric(setup.metrics()[0].name@, false))
}

/// What is known at a turn of how the first metric was disabled.
spec fn single_so_far(
    setup: WorkflowSetup,
    turns: Seq<WorkflowTurn>,
    events: Seq<Event>,
    i: int,
    d: int,
) -> bool {
    let n = setup.metrics().len();
    match turns[i].state.phase {
        Phase::BaselineFirst => n > 0 && asks_for(setup, turns[i], 0),
        Phase::BaselineOther { first } => n > 1 && i > 0 && asks_for(setup, turns[i - 1], 0)
            && first == answered(events[i - 1]) && asks_for(setup, turns[i], 1),
        Phase::ToggleFirst { first, other } => d == i && toggled_at(
            setup,
            turns,
            events,
            d,
            first,
            other,
        ),
        Phase::SettleFirst { first, other } => d == i - 1 && toggled_at(
            setup,
            turns,
            events,
            d,
            first,
            other,
        ) && waits_single(setup, turns[i]),
        Phase::VerifyStopped { first, other } => d == i - 2 && toggled_at(
            setup,
            turns,
            events,
            d,
            first,
            other,
        ) && waits_single(setup, turns[i - 1]) && asks_for(setup, turns[i], 0),
        Phase::VerifyOther { other } => {
            &&& d == i - 3
            &&& is_single_check(setup, turns, d)
            &&& !single_went_on(setup, events, d)
            &&& n > 1
            &&& other == answered(events[d - 1])
            &&& asks_for(setup, turns[i], 1)
        },
        p => past_single(p) && !fails(turns[i]) && n > 0 ==> {
            &&& is_single_check(setup, turns, d)
            &&& !single_went_on(setup, events, d)
            &&& n > 1 ==> asks_for(setup, turns[d + 3], 1) && answered(events[d + 3]) > answered(
                events[d - 1],
            )
        },
    }
}

proof fn lemma_single_so_far(
    setup: WorkflowSetup,
    turns: Seq<WorkflowTurn>,
    events: Seq<Event>,
    i: int,
) -> (d: int)
    requires
        single_run(setup, turns, events),
        0 <= i < turns.len(),
    ensures
        single_so_far(setup, turns, events, i, d),
    decreases i,
{
    if i == 0 {
        0
    } else {
        let before = lemma_single_so_far(setup, turns, events, i - 1);
        assert(single_leads(setup, turns, events, i - 1));
        if turns[i].state.phase is ToggleFirst {
            i
        } else {
            before
        }
    }
}

/// Where a run asks to disable one metric, it is the first one. Its events, and those of the
/// second one where there is one, were counted right before that; behind it the run waits for two
/// and a half iterations and counts the first one again. The run ends with an error where that one
/// has more events than before plus those that are allowed for, and where the second one has no
/// more events than before; otherwise it goes on.
pub proof fn law_disabled_metric(
    setup: WorkflowSetup,
    turns: Seq<WorkflowTurn>,
    events: Seq<Event>,
    d: int,
)
    requires
        limits_ok(setup),
        is_whole_run(setup, turns, events),
        0 <= d < events.len(),
        turns[d].next matches NextView::Ask(ActionView::ToggleMetric(..)),
    ensures
        is_single_check(setup, turns, d),
        single_went_on(setup, events, d) ==> fails(turns[d + 3]),
        !single_went_on(setup, events, d) && setup.metrics().len() == 1 ==> !fails(turns[d + 3]),
        !single_went_on(setup, events, d) && setup.metrics().len() > 1 ==> {
            &&& d + 4 < turns.len()
            &&& asks_for(setup, turns[d + 3], 1)
            &&& fails(turns[d + 4]) <==> answered(events[d + 3]) <= answered(events[d - 1])
        },
{
    lemma_single_run(setup, turns, events);
    lemma_single_checked(setup, turns, events, d);
}

proof fn lemma_single_checked(
    setup: WorkflowSetup,
    turns: Seq<WorkflowTurn>,
    events: Seq<Event>,
    d: int,
)
    requires
        single_run(setup, turns, events),
        0 <= d < events.len(),
        turns[d].next matches NextView::Ask(ActionView::ToggleMetric(..)),
    ensures
        is_single_check(setup, turns, d),
        single_went_on(setup, events, d) ==> fails(turns[d + 3]),
        !single_went_on(setup, events, d) && setup.metrics().len() == 1 ==> !fails(turns[d + 3]),
        !single_went_on(setup, events, d) && setup.metrics().len() > 1 ==> {
            &&& d + 4 < turns.len()
            &&& asks_for(setup, turns[d + 3], 1)
            &&& fails(turns[d + 4]) <==> answered(events[d + 3]) <= answered(events[d - 1])
        },
{
    assert(single_leads(setup, turns, events, d - 1));
    let a = lemma_single_so_far(setup, turns, events, d);
    assert(single_leads(setup, turns, events, d));
    assert(single_leads(setup, turns, events, d + 1));
    assert(single_leads(setup, turns, events, d + 2));
    let b = lemma_single_so_far(setup, turns, events, d + 2);
    if !single_went_on(setup, events, d) && setup.metrics().len() > 1 {
        assert(single_leads(setup, turns, events, d + 3));
    }
}

/// A run that ends well, of a configuration with metrics, has disabled the first one: it had no
/// more events after that than are allowed for, and the second one, where there is one, had more
/// events than before.
pub proof fn law_metrics_are_isolated(
    setup: WorkflowSetup,
    turns: Seq<WorkflowTurn>,
    events: Seq<Event>,
) -> (d: int)
    requires
        limits_ok(setup),
        is_whole_run(setup, turns, events),
        turns.last().next matches NextView::Finish(Ok(_)),
        setup.metrics().len() > 0,
    ensures
        is_single_check(setup, turns, d),
        answered(events[d + 2]) <= answered(events[counted_at(setup, d)]) + single_allowance(setup),
        setup.metrics().len() > 1 ==> asks_for(setup, turns[d + 3], 1) && answered(events[d + 3])
            > answered(events[d - 1]),
{
    lemma_single_run(setup, turns, events);
    lemma_single_so_far(setup, turns, events, turns.len() - 1)
}

} // verus!
