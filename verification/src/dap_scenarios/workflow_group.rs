//! What a run of the workflow makes of the events that come in after its group was disabled.

use vstd::prelude::*;

use super::reconnection_counts::answered;
use super::workflow::{
    at_multi, law_turn_keeps_state, limits_ok, on_event, state_ok, Phase, WorkflowSetup, WorkflowState,
    WorkflowTurn,
};
use super::workflow_runs::{asks, is_whole_run, lemma_run_states};
use crate::exchange::{ActionView, Event, NextView};
use crate::report::ReportView;

verus! {

/// How many events more than before a metric may have after its group was disabled: the two
/// iterations of the wait, and seven that may be under way.
pub open spec fn group_allowance(setup: WorkflowSetup) -> nat {
    if setup.config.iteration_duration_ms > 0 {
        2 + 7
    } else {
        7
    }
}

/// The turn asks for the events of the metric at a position.
pub open spec fn asks_for(setup: WorkflowSetup, turn: WorkflowTurn, k: int) -> bool {
    asks(turn, ActionView::QueryEvents(setup.metrics()[k].name@, 100))
}

/// The turns from that at `start` on ask for the events of the first `n` metrics, one after
/// another.
pub open spec fn asks_for_first(
    setup: WorkflowSetup,
    turns: Seq<WorkflowTurn>,
    start: int,
    n: int,
) -> bool {
    &&& 0 <= start
    &&& start + n <= turns.len()
    &&& forall|k: int| 0 <= k < n ==> #[trigger] asks_for(setup, turns[start + k], k)
}

/// The turn at `d` disables the group. Right before it every metric was counted, and behind it
/// the run waits for two iterations and counts every metric again.
pub open spec fn is_group_check(setup: WorkflowSetup, turns: Seq<WorkflowTurn>, d: int) -> bool {
    let n = setup.metrics().len() as int;
    &&& asks_for_first(setup, turns, d - n, n)
    &&& d + 2 + n < turns.len()
    &&& asks(turns[d], ActionView::DisableGroup(setup.config.group_name@))
    &&& asks(turns[d + 1], ActionView::Pause((2 * setup.config.iteration_duration_ms) as u64))
    &&& asks_for_first(setup, turns, d + 2, n)
}

/// The metric at `k` has more events after the group was disabled at `d` than it may have.
pub open spec fn went_on(setup: WorkflowSetup, events: Seq<Event>, d: int, k: int) -> bool {
    answered(events[d + 2 + k]) > answered(events[d - setup.metrics().len() + k])
        + group_allowance(setup)
}

spec fn past_group(phase: Phase) -> bool {
    match phase {
        Phase::IntroAdd { .. } | Phase::IntroTimer | Phase::IntroPoll { .. } | Phase::IntroPause
        | Phase::IntroRemove { .. } | Phase::Remove { .. } | Phase::RemoveInvalid | Phase::Close
        | Phase::Finished => true,
        _ => false,
    }
}

/// The run ends with an error.
pub open spec fn fails(t: WorkflowTurn) -> bool {
    t.next matches NextView::Finish(Err(_))
}

/// The phase counts the metric at `k` before the group is disabled.
spec fn counts_before(phase: Phase, k: int) -> bool {
    phase matches Phase::BaselineAll { index } && index == k
}

/// The phase counts the metric at `k` after the group was disabled.
spec fn counts_after(phase: Phase, k: int) -> bool {
    phase matches Phase::VerifyGroup { index } && index == k
}

spec fn is_over(setup: WorkflowSetup, before: usize, event: Event) -> bool {
    answered(event) > before + group_allowance(setup)
}

/// How a turn around the disabled group follows from the state before it.
spec fn group_back(setup: WorkflowSetup, s: WorkflowState, event: Event, t: WorkflowTurn) -> bool {
    let n = setup.metrics().len() as int;
    let more = s.baselines.push(answered(event) as usize);
    &&& t.next matches NextView::Ask(ActionView::DisableGroup(_)) ==> t.state.phase is DisableGroup
    &&& match t.state.phase {
        Phase::BaselineAll { index } => {
            &&& index < n
            &&& asks_for(setup, t, index as int)
            &&& if index == 0 {
                t.state.baselines.len() == 0
            } else {
                counts_before(s.phase, index - 1) && t.state.baselines == more
            }
        },
        Phase::DisableGroup => {
            &&& asks(t, ActionView::DisableGroup(setup.config.group_name@))
            &&& if n == 0 {
                t.state.baselines.len() == 0
            } else {
                counts_before(s.phase, n - 1) && t.state.baselines == more
            }
        },
        Phase::SettleGroup => {
            &&& s.phase is DisableGroup
            &&& t.state.baselines == s.baselines
            &&& asks(t, ActionView::Pause((2 * setup.config.iteration_duration_ms) as u64))
        },
        Phase::VerifyGroup { index } => {
            &&& index < n
            &&& asks_for(setup, t, index as int)
            &&& t.state.baselines == s.baselines
            &&& if index == 0 {
                s.phase is SettleGroup && t.state.capturing.len() == 0
            } else {
                &&& counts_after(s.phase, index - 1)
                &&& t.state.capturing.len() > 0 <==> s.capturing.len() > 0 || is_over(
                    setup,
                    s.baselines[index - 1],
                    event,
                )
            }
        },
        p => past_group(p) && !fails(t) ==> past_group(s.phase) || (if n == 0 {
            s.phase is SettleGroup
        } else {
            counts_after(s.phase, n - 1) && s.capturing.len() == 0 && !is_over(
                setup,
                s.baselines[n - 1],
                event,
            )
        }),
    }
}

/// How a run goes on from a state around the disabled group.
spec fn group_on(setup: WorkflowSetup, s: WorkflowState, event: Event, t: WorkflowTurn) -> bool {
    let n = setup.metrics().len() as int;
    match s.phase {
        Phase::DisableGroup => t.state.phase is SettleGroup,
        Phase::SettleGroup => if n > 0 {
            counts_after(t.state.phase, 0)
        } else {
            !fails(t)
        },
        Phase::VerifyGroup { index } => if index + 1 < n {
            counts_after(t.state.phase, index + 1)
        } else {
            fails(t) <==> s.capturing.len() > 0 || is_over(
                setup,
                s.baselines[index as int],
                event,
            )
        },
        _ => true,
    }
}

/// Checking the metrics with several expressions leads to one of them, or to the first metric, or
/// to the group where there is none.
pub proof fn lemma_multi_leads(
    setup: WorkflowSetup,
    s: WorkflowState,
    log: Seq<ReportView>,
    index: usize,
)
    requires
        index <= setup.metrics().len(),
    ensures
        ({
            let t = at_multi(setup, s, log, index);
            let n = setup.metrics().len();
            match t.state.phase {
                Phase::MultiList { index: i } => index <= i < n && t.state == s.at(t.state.phase)
                    && asks(t, ActionView::ListMetrics),
                Phase::BaselineFirst => n > 0 && t.state == s.at(t.state.phase) && asks_for(
                    setup,
                    t,
                    0,
                ),
                Phase::DisableGroup => n == 0 && t.state == (WorkflowState {
                    baselines: Seq::empty(),
                    ..s
                }).at(t.state.phase) && asks(
                    t,
                    ActionView::DisableGroup(setup.config.group_name@),
                ),
                _ => setup.metrics().len() >= usize::MAX,
            }
        }),
    decreases setup.metrics().len() - index,
{
    if index < setup.metrics().len() && index < usize::MAX
        && setup.metrics()[index as int].extra_expressions@.len() == 0 {
        lemma_multi_leads(setup, s, log, (index + 1) as usize);
    }
}

proof fn lemma_group_early(setup: WorkflowSetup, s: WorkflowState, event: Event)
    requires
        limits_ok(setup),
        state_ok(setup, s),
        event.spec_kind() == s.phase.answer(),
        s.phase is Health || s.phase is Connect || s.phase is Handshake || s.phase is InspectCode
            || s.phase is InspectVariable || s.phase is AddMetric || s.phase is AddInvalid
            || s.phase is EnableGroup,
    ensures
        group_back(setup, s, event, on_event(setup, s, event)),
        group_on(setup, s, event, on_event(setup, s, event)),
{
}

proof fn lemma_group_waiting(setup: WorkflowSetup, s: WorkflowState, event: Event)
    requires
        limits_ok(setup),
        state_ok(setup, s),
        event.spec_kind() == s.phase.answer(),
        s.phase is WaitTimer || s.phase is WaitPause || s.phase is WaitPoll || s.phase is WaitMissing
            || s.phase is MultiList || s.phase is MultiEvents,
    ensures
        group_back(setup, s, event, on_event(setup, s, event)),
        group_on(setup, s, event, on_event(setup, s, event)),
{
    assert forall|t: WorkflowState, log: Seq<ReportView>, i: usize|
        i <= setup.metrics().len() implies group_back(
        setup,
        s,
        event,
        #[trigger] at_multi(setup, t, log, i),
    ) by {
        lemma_multi_leads(setup, t, log, i);
    }
}

proof fn lemma_group_checking(setup: WorkflowSetup, s: WorkflowState, event: Event)
    requires
        limits_ok(setup),
        state_ok(setup, s),
        event.spec_kind() == s.phase.answer(),
        s.phase is BaselineFirst || s.phase is BaselineOther || s.phase is ToggleFirst
            || s.phase is SettleFirst || s.phase is VerifyStopped || s.phase is VerifyOther
            || s.phase is BaselineAll || s.phase is DisableGroup,
    ensures
        group_back(setup, s, event, on_event(setup, s, event)),
        group_on(setup, s, event, on_event(setup, s, event)),
{
}

proof fn lemma_two_iterations(ms: int)
    requires
        ms > 0,
    ensures
        (ms * 2 + ms - 1) / ms == 2,
{
    assert((ms * 2 + ms - 1) / ms == 2) by (nonlinear_arith)
        requires
            ms > 0,
    ;
}

proof fn lemma_group_verifying(setup: WorkflowSetup, s: WorkflowState, event: Event)
    requires
        limits_ok(setup),
        state_ok(setup, s),
        event.spec_kind() == s.phase.answer(),
        s.phase is SettleGroup || s.phase is VerifyGroup,
    ensures
        group_back(setup, s, event, on_event(setup, s, event)),
        group_on(setup, s, event, on_event(setup, s, event)),
{
    if setup.config.iteration_duration_ms > 0 {
        lemma_two_iterations(setup.config.iteration_duration_ms as int);
    }
}

proof fn lemma_group_late(setup: WorkflowSetup, s: WorkflowState, event: Event)
    requires
        limits_ok(setup),
        state_ok(setup, s),
        event.spec_kind() == s.phase.answer(),
        past_group(s.phase),
        !(s.phase is Finished),
    ensures
        group_back(setup, s, event, on_event(setup, s, event)),
        group_on(setup, s, event, on_event(setup, s, event)),
{
}

proof fn lemma_group_step(
    setup: WorkflowSetup,
    turns: Seq<WorkflowTurn>,
    events: Seq<Event>,
    i: int,
)
    requires
        limits_ok(setup),
        is_whole_run(setup, turns, events),
        0 <= i < events.len(),
    ensures
        turns[i].next is Ask,
        state_ok(setup, turns[i].state),
        group_back(setup, turns[i].state, events[i], turns[i + 1]),
        group_on(setup, turns[i].state, events[i], turns[i + 1]),
{
    lemma_run_states(setup, turns, events, i);
    let s = turns[i].state;
    let event = events[i];
    match s.phase {
        Phase::Health | Phase::Connect | Phase::Handshake | Phase::InspectCode
        | Phase::InspectVariable | Phase::AddMetric { .. } | Phase::AddInvalid
        | Phase::EnableGroup => lemma_group_early(setup, s, event),
        Phase::WaitTimer | Phase::WaitPause | Phase::WaitPoll { .. } | Phase::WaitMissing { .. }
        | Phase::MultiList { .. } | Phase::MultiEvents { .. } => lemma_group_waiting(
            setup,
            s,
            event,
        ),
        Phase::BaselineFirst | Phase::BaselineOther { .. } | Phase::ToggleFirst { .. }
        | Phase::SettleFirst { .. } | Phase::VerifyStopped { .. } | Phase::VerifyOther { .. }
        | Phase::BaselineAll { .. } | Phase::DisableGroup => lemma_group_checking(setup, s, event),
        Phase::SettleGroup | Phase::VerifyGroup { .. } => lemma_group_verifying(setup, s, event),
        _ => lemma_group_late(setup, s, event),
    }
}

/// The turns of a run, as far as the disabled group is concerned.
spec fn group_run(setup: WorkflowSetup, turns: Seq<WorkflowTurn>, events: Seq<Event>) -> bool {
    &&& turns.len() == events.len() + 1
    &&& turns[0].state.phase is Health
    &&& turns[0].next is Ask
    &&& forall|i: int| 0 <= i < events.len() ==> #[trigger] group_leads(setup, turns, events, i)
    &&& turns.last().next is Finish
    &&& turns.last().state.phase is Finished
}

/// The turn at `i` leads to the one behind it, as far as the disabled group is concerned.
spec fn group_leads(
    setup: WorkflowSetup,
    turns: Seq<WorkflowTurn>,
    events: Seq<Event>,
    i: int,
) -> bool {
    &&& turns[i].next is Ask
    &&& state_ok(setup, turns[i].state)
    &&& group_back(setup, turns[i].state, events[i], turns[i + 1])
    &&& group_on(setup, turns[i].state, events[i], turns[i + 1])
}

/// The last turn of a run is in the last phase.
pub proof fn lemma_finished(setup: WorkflowSetup, turns: Seq<WorkflowTurn>, events: Seq<Event>)
    requires
        limits_ok(setup),
        is_whole_run(setup, turns, events),
    ensures
        turns.last().state.phase is Finished,
{
    let last = turns.len() - 1;
    assert(turns[0].next is Ask);
    lemma_run_states(setup, turns, events, last - 1);
    law_turn_keeps_state(setup, turns[last - 1].state, events[last - 1]);
}

proof fn lemma_group_run(setup: WorkflowSetup, turns: Seq<WorkflowTurn>, events: Seq<Event>)
    requires
        limits_ok(setup),
        is_whole_run(setup, turns, events),
    ensures
        group_run(setup, turns, events),
{
    assert(turns[0].next is Ask);
    lemma_finished(setup, turns, events);
    assert forall|i: int| 0 <= i < events.len() implies #[trigger] group_leads(
        setup,
        turns,
        events,
        i,
    ) by {
        lemma_group_step(setup, turns, events, i);
    }
}

/// The metrics were counted from the turn at `start` on, and the counts are those in the answers.
spec fn counted(
    setup: WorkflowSetup,
    turns: Seq<WorkflowTurn>,
    events: Seq<Event>,
    start: int,
    asked: int,
    counts: Seq<usize>,
) -> bool {
    &&& asks_for_first(setup, turns, start, asked)
    &&& counts.len() <= asked
    &&& forall|k: int|
        0 <= k < counts.len() ==> #[trigger] counts[k] == answered(events[start + k])
}

/// The group was disabled at `d`, and `asked` metrics were counted again since.
spec fn disabled_at(
    setup: WorkflowSetup,
    turns: Seq<WorkflowTurn>,
    events: Seq<Event>,
    d: int,
    asked: int,
    counts: Seq<usize>,
) -> bool {
    let n = setup.metrics().len() as int;
    &&& counted(setup, turns, events, d - n, n, counts)
    &&& counts.len() == n
    &&& asks(turns[d], ActionView::DisableGroup(setup.config.group_name@))
    &&& asks(turns[d + 1], ActionView::Pause((2 * setup.config.iteration_duration_ms) as u64))
    &&& asks_for_first(setup, turns, d + 2, asked)
}

/// What is known at a turn of how the group was disabled.
spec fn group_so_far(
    setup: WorkflowSetup,
    turns: Seq<WorkflowTurn>,
    events: Seq<Event>,
    i: int,
    d: int,
) -> bool {
    let n = setup.metrics().len() as int;
    let s = turns[i].state;
    match s.phase {
        Phase::BaselineAll { index } => index < n && s.baselines.len() == index && counted(
            setup,
            turns,
            events,
            i - index,
            index + 1,
            s.baselines,
        ),
        Phase::DisableGroup => {
            &&& d == i
            &&& s.baselines.len() == n
            &&& counted(setup, turns, events, i - n, n, s.baselines)
            &&& asks(turns[i], ActionView::DisableGroup(setup.config.group_name@))
        },
        Phase::SettleGroup => d == i - 1 && disabled_at(setup, turns, events, d, 0, s.baselines),
        Phase::VerifyGroup { index } => {
            &&& d == i - 2 - index
            &&& index < n
            &&& disabled_at(setup, turns, events, d, index + 1, s.baselines)
            &&& s.capturing.len() > 0 <==> exists|k: int|
                0 <= k < index && #[trigger] went_on(setup, events, d, k)
        },
        p => past_group(p) && !fails(turns[i]) ==> {
            &&& is_group_check(setup, turns, d)
            &&& d + 2 + n <= i
            &&& forall|k: int| 0 <= k < n ==> !#[trigger] went_on(setup, events, d, k)
        },
    }
}

proof fn lemma_asks_more(setup: WorkflowSetup, turns: Seq<WorkflowTurn>, start: int, n: int)
    requires
        0 <= n,
        asks_for_first(setup, turns, start, n),
        start + n < turns.len(),
        asks_for(setup, turns[start + n], n),
    ensures
        asks_for_first(setup, turns, start, n + 1),
{
}

#[verifier::rlimit(40)]
proof fn lemma_group_so_far(
    setup: WorkflowSetup,
    turns: Seq<WorkflowTurn>,
    events: Seq<Event>,
    i: int,
) -> (d: int)
    requires
        group_run(setup, turns, events),
        0 <= i < turns.len(),
    ensures
        group_so_far(setup, turns, events, i, d),
    decreases i,
{
    if i == 0 {
        0
    } else {
        let before = lemma_group_so_far(setup, turns, events, i - 1);
        assert(group_leads(setup, turns, events, i - 1));
        let n = setup.metrics().len() as int;
        let s = turns[i - 1].state;
        let t = turns[i].state;
        let event = events[i - 1];
        match t.phase {
            Phase::BaselineAll { index } => {
                let start = i - index;
                if index == 0 {
                    assert(asks_for_first(setup, turns, start, 0));
                }
                assert(turns[start + index] == turns[i]);
                lemma_asks_more(setup, turns, start, index as int);
                assert forall|k: int| 0 <= k < t.baselines.len() implies #[trigger] t.baselines[k]
                    == answered(events[start + k]) by {
                    if k < s.baselines.len() {
                        assert(t.baselines[k] == s.baselines[k]);
                    }
                }
                0
            },
            Phase::DisableGroup => {
                let start = i - n;
                if n == 0 {
                    assert(asks_for_first(setup, turns, start, 0));
                }
                assert forall|k: int| 0 <= k < t.baselines.len() implies #[trigger] t.baselines[k]
                    == answered(events[start + k]) by {
                    if k < s.baselines.len() {
                        assert(t.baselines[k] == s.baselines[k]);
                    }
                }
                i
            },
            Phase::SettleGroup => {
                assert(asks_for_first(setup, turns, before + 2, 0));
                before
            },
            Phase::VerifyGroup { index } => {
                assert(turns[before + 2 + index] == turns[i]);
                lemma_asks_more(setup, turns, before + 2, index as int);
                if index > 0 {
                    lemma_one_more(setup, events, before, index as int, s.baselines, n);
                }
                before
            },
            _ => {
                if past_group(t.phase) && !fails(turns[i]) && !past_group(s.phase) && n > 0 {
                    lemma_one_more(setup, events, before, n, s.baselines, n);
                    assert forall|k: int| 0 <= k < n implies !#[trigger] went_on(
                        setup,
                        events,
                        before,
                        k,
                    ) by {}
                }
                before
            },
        }
    }
}

/// One more metric was counted again.
proof fn lemma_one_more(
    setup: WorkflowSetup,
    events: Seq<Event>,
    d: int,
    index: int,
    counts: Seq<usize>,
    n: int,
)
    requires
        n == setup.metrics().len(),
        0 < index <= n,
        counts.len() == n,
        forall|k: int| 0 <= k < counts.len() ==> #[trigger] counts[k] == answered(events[d - n + k]),
    ensures
        went_on(setup, events, d, index - 1) <==> is_over(
            setup,
            counts[index - 1],
            events[d + 2 + index - 1],
        ),
        (exists|k: int| 0 <= k < index && #[trigger] went_on(setup, events, d, k)) <==> ((exists|
            k: int,
        |
            0 <= k < index - 1 && #[trigger] went_on(setup, events, d, k)) || went_on(
            setup,
            events,
            d,
            index - 1,
        )),
{
    assert(counts[index - 1] == answered(events[d - n + (index - 1)]));
}

/// A run that ends well has disabled its group: every metric was counted right before that and
/// again two iterations later, and no metric had more events then than before plus two for the
/// iterations and seven that may have been under way.
pub proof fn law_disabled_group_stops(
    setup: WorkflowSetup,
    turns: Seq<WorkflowTurn>,
    events: Seq<Event>,
) -> (d: int)
    requires
        limits_ok(setup),
        is_whole_run(setup, turns, events),
        turns.last().next matches NextView::Finish(Ok(_)),
    ensures
        is_group_check(setup, turns, d),
        forall|k: int|
            0 <= k < setup.metrics().len() ==> answered(#[trigger] events[d + 2 + k]) <= answered(
                events[d - setup.metrics().len() + k],
            ) + group_allowance(setup),
{
    lemma_group_run(setup, turns, events);
    let d = lemma_group_so_far(setup, turns, events, turns.len() - 1);
    assert forall|k: int| 0 <= k < setup.metrics().len() implies answered(
        #[trigger] events[d + 2 + k],
    ) <= answered(events[d - setup.metrics().len() + k]) + group_allowance(setup) by {
        assert(!went_on(setup, events, d, k));
    }
    d
}

proof fn lemma_group_forward(
    setup: WorkflowSetup,
    turns: Seq<WorkflowTurn>,
    events: Seq<Event>,
    d: int,
    k: int,
)
    requires
        group_run(setup, turns, events),
        0 <= d < events.len(),
        turns[d].state.phase is DisableGroup,
        0 <= k < setup.metrics().len(),
    ensures
        d + 2 + k < events.len(),
        counts_after(turns[d + 2 + k].state.phase, k),
    decreases k,
{
    if k == 0 {
        assert(group_leads(setup, turns, events, d));
        assert(group_leads(setup, turns, events, d + 1));
    } else {
        lemma_group_forward(setup, turns, events, d, k - 1);
        assert(group_leads(setup, turns, events, d + 2 + k - 1));
    }
}

/// Where a run asks to disable its group, it has counted every metric right before that, waits
/// for two iterations and counts every metric again. It ends with an error behind that exactly
/// where some metric has more events than before plus two for the iterations and seven that may
/// have been under way.
pub proof fn law_group_that_goes_on_is_an_error(
    setup: WorkflowSetup,
    turns: Seq<WorkflowTurn>,
    events: Seq<Event>,
    d: int,
)
    requires
        limits_ok(setup),
        is_whole_run(setup, turns, events),
        0 <= d < events.len(),
        turns[d].next matches NextView::Ask(ActionView::DisableGroup(_)),
    ensures
        is_group_check(setup, turns, d),
        ({
            let n = setup.metrics().len() as int;
            fails(turns[d + 2 + n]) <==> exists|k: int|
                0 <= k < n && #[trigger] went_on(setup, events, d, k)
        }),
{
    let n = setup.metrics().len() as int;
    lemma_group_run(setup, turns, events);
    lemma_group_phase(setup, turns, events, d);
    lemma_group_checked(setup, turns, events, d);
}

proof fn lemma_group_phase(
    setup: WorkflowSetup,
    turns: Seq<WorkflowTurn>,
    events: Seq<Event>,
    d: int,
)
    requires
        group_run(setup, turns, events),
        0 <= d < events.len(),
        turns[d].next matches NextView::Ask(ActionView::DisableGroup(_)),
        !(turns[0].next matches NextView::Ask(ActionView::DisableGroup(_))),
    ensures
        turns[d].state.phase is DisableGroup,
{
    assert(group_leads(setup, turns, events, d - 1));
}

proof fn lemma_group_checked(
    setup: WorkflowSetup,
    turns: Seq<WorkflowTurn>,
    events: Seq<Event>,
    d: int,
)
    requires
        group_run(setup, turns, events),
        0 <= d < events.len(),
        turns[d].state.phase is DisableGroup,
    ensures
        is_group_check(setup, turns, d),
        fails(turns[d + 2 + setup.metrics().len()]) <==> exists|k: int|
            0 <= k < setup.metrics().len() && #[trigger] went_on(setup, events, d, k),
{
    let n = setup.metrics().len() as int;
    assert(group_leads(setup, turns, events, d));
    if n == 0 {
        let then = lemma_group_so_far(setup, turns, events, d + 1);
        assert(group_leads(setup, turns, events, d + 1));
        assert(asks_for_first(setup, turns, d + 2, 0));
    } else {
        lemma_group_forward(setup, turns, events, d, n - 1);
        let i = d + 2 + n - 1;
        let end = lemma_group_so_far(setup, turns, events, i);
        assert(group_leads(setup, turns, events, i));
        lemma_one_more(setup, events, d, n, turns[i].state.baselines, n);
    }
}

} // verus!
