//! What the numbers in the result of a reconnection workflow count.

use vstd::prelude::*;

use super::reconnection::{
    all_events, on_event, state_ok, Phase, ReconnectionResultView, ReconnectionSetup,
    ReconnectionState, ReconnectionTurn,
};
use super::{api_name, MetricPoint};
use super::reconnection_runs::{asks, is_whole_run, lemma_run_states, leads_on};
use crate::client::AddMetricRequestView;
use crate::exchange::{ActionView, Event, NextView};
use crate::text::{decimal, opt_view};

verus! {

/// The number of events in an answer; none where there is no answer.
pub open spec fn answered(event: Event) -> nat {
    match event {
        Event::Events(Ok(r)) => r.data.len() as nat,
        _ => 0,
    }
}

/// The number of events in the `n` answers from that at `start` on.
pub open spec fn answered_from(events: Seq<Event>, start: int, n: nat) -> nat
    decreases n,
{
    if n == 0 {
        0
    } else {
        answered_from(events, start, (n - 1) as nat) + answered(events[start + n - 1])
    }
}

/// A number, or the largest size where it is beyond it.
pub open spec fn capped(n: nat) -> usize {
    if n > usize::MAX {
        usize::MAX
    } else {
        n as usize
    }
}

/// How many of the first `n` turns ask to open a connection.
pub open spec fn connects(turns: Seq<ReconnectionTurn>, n: nat) -> nat
    decreases n,
{
    if n == 0 {
        0
    } else {
        connects(turns, (n - 1) as nat) + if turns[n - 1].next matches NextView::Ask(
            ActionView::CreateConnection(..),
        ) {
            1nat
        } else {
            0nat
        }
    }
}

/// The turns from that at `start` on ask for the events of the first `n` metrics, one after
/// another.
pub open spec fn queries(
    setup: ReconnectionSetup,
    turns: Seq<ReconnectionTurn>,
    start: int,
    n: int,
) -> bool {
    &&& 0 <= start
    &&& start + n <= turns.len()
    &&& forall|k: int|
        0 <= k < n ==> asks(
            turns[start + k],
            ActionView::QueryEvents(#[trigger] setup.config.metrics@[k].name@, 100),
        )
}

/// The turns from that at `start` on are the last queries of a cycle: every metric in use is
/// asked for, on the connection of that cycle, the answers add up to `count`, and the turn behind
/// them closes the connection, or begins to clean up behind the last cycle.
pub open spec fn is_last_round(
    setup: ReconnectionSetup,
    turns: Seq<ReconnectionTurn>,
    events: Seq<Event>,
    cycle: int,
    start: int,
    count: usize,
) -> bool {
    &&& queries(setup, turns, start, setup.used() as int)
    &&& start + setup.used() < turns.len()
    &&& connects(turns, start as nat) == cycle + 1
    &&& count == capped(answered_from(events, start, setup.used()))
    &&& match turns[start + setup.used()].next {
        NextView::Ask(ActionView::CloseConnection(_)) => cycle < setup.cycles,
        NextView::Ask(ActionView::RemoveMetric(name)) => cycle == setup.cycles && name
            == setup.config.metrics@[0].name@,
        _ => false,
    }
}

/// How many connections the run has asked for in a phase.
spec fn connected(setup: ReconnectionSetup, phase: Phase) -> int {
    match phase {
        Phase::Health => 0,
        Phase::Connect | Phase::Handshake | Phase::AddMetric { .. } => 1,
        Phase::Timer { cycle } | Phase::PollPause { cycle } | Phase::Reconnect { cycle }
        | Phase::ReconnectPause { cycle } => cycle + 1,
        Phase::Poll { cycle, .. } | Phase::Tally { cycle, .. } => cycle + 1,
        Phase::Disconnect { cycle } | Phase::DisconnectPause { cycle } | Phase::Restart { cycle }
        | Phase::RestartPause { cycle } => cycle as int,
        Phase::Remove { .. } | Phase::Close | Phase::Finished => setup.cycles + 1,
    }
}

/// The position of the metric that is asked for, and the events that were counted before.
spec fn counting(phase: Phase) -> Option<(int, usize)> {
    match phase {
        Phase::Poll { index, total, .. } | Phase::Tally { index, total, .. } => Some(
            (index as int, total),
        ),
        _ => None,
    }
}

/// How a turn goes on with the counts of the state before it.
spec fn counts_on(
    setup: ReconnectionSetup,
    s: ReconnectionState,
    event: Event,
    t: ReconnectionTurn,
) -> bool {
    let connects = t.next matches NextView::Ask(ActionView::CreateConnection(..));
    let before = s.result.events_per_cycle;
    let after = t.state.result.events_per_cycle;
    &&& connected(setup, t.state.phase) == connected(setup, s.phase) + if connects {
        1int
    } else {
        0int
    }
    &&& match counting(t.state.phase) {
        Some((index, total)) => {
            &&& after == before
            &&& 0 <= index < setup.used()
            &&& asks(t, ActionView::QueryEvents(setup.config.metrics@[index].name@, 100))
            &&& index == 0 ==> total == 0
            &&& index > 0 ==> (counting(s.phase) matches Some((i, n)) && i == index - 1 && total
                == capped(n as nat + answered(event)))
        },
        None => after == before || {
            &&& counting(s.phase) matches Some((i, n)) && i == setup.used() - 1 && after
                == before.push(capped(n as nat + answered(event)))
            &&& match t.next {
                NextView::Ask(ActionView::CloseConnection(_)) => connected(setup, s.phase)
                    <= setup.cycles,
                NextView::Ask(ActionView::RemoveMetric(name)) => connected(setup, s.phase)
                    == setup.cycles + 1 && name == setup.config.metrics@[0].name@,
                _ => false,
            }
            &&& connected(setup, s.phase) == before.len() + 1
        },
    }
}

#[verifier::rlimit(40)]
proof fn lemma_counting_step(setup: ReconnectionSetup, s: ReconnectionState, event: Event)
    requires
        setup.cycles < usize::MAX,
        state_ok(setup, s),
        !(s.phase is Finished),
        event.spec_kind() == s.phase.answer(),
        !(on_event(setup, s, event).next matches NextView::Finish(Err(_))),
    ensures
        counts_on(setup, s, event, on_event(setup, s, event)),
{
}

/// What is known of the counts at a turn.
spec fn counted_so_far(
    setup: ReconnectionSetup,
    turns: Seq<ReconnectionTurn>,
    events: Seq<Event>,
    i: int,
    rounds: Seq<int>,
) -> bool {
    let counts = turns[i].state.result.events_per_cycle;
    &&& connects(turns, (i + 1) as nat) == connected(setup, turns[i].state.phase)
    &&& counting(turns[i].state.phase) matches Some((index, total)) ==> {
        &&& 0 <= index < setup.used()
        &&& queries(setup, turns, i - index, index + 1)
        &&& connects(turns, (i - index) as nat) == connected(setup, turns[i].state.phase)
        &&& total == capped(answered_from(events, i - index, index as nat))
        &&& forall|c: int| 0 <= c < rounds.len() ==> #[trigger] rounds[c] + setup.used() < i - index
    }
    &&& rounds.len() == counts.len()
    &&& forall|c: int| 0 <= c < rounds.len() ==> #[trigger] rounds[c] + setup.used() <= i
    &&& forall|c: int|
        0 <= c < rounds.len() ==> #[trigger] is_last_round(
            setup,
            turns,
            events,
            c,
            rounds[c],
            counts[c],
        )
    &&& forall|c: int, d: int|
        0 <= c < d < rounds.len() ==> #[trigger] rounds[c] + setup.used() < #[trigger] rounds[d]
}

#[verifier::rlimit(40)]
proof fn lemma_counted_so_far(
    setup: ReconnectionSetup,
    turns: Seq<ReconnectionTurn>,
    events: Seq<Event>,
    i: int,
) -> (rounds: Seq<int>)
    requires
        setup.cycles < usize::MAX,
        is_whole_run(setup, turns, events),
        0 <= i < turns.len(),
        !(turns[i].next matches NextView::Finish(Err(_))),
    ensures
        counted_so_far(setup, turns, events, i, rounds),
    decreases i,
{
    reveal_with_fuel(connects, 2);
    reveal_with_fuel(answered_from, 2);
    if i == 0 {
        Seq::empty()
    } else {
        assert(leads_on(setup, turns, events, i - 1));
        let before = lemma_counted_so_far(setup, turns, events, i - 1);
        lemma_run_states(setup, turns, events, i - 1);
        let s = turns[i - 1].state;
        lemma_counting_step(setup, s, events[i - 1]);
        if let Some((index, total)) = counting(turns[i].state.phase) {
            if index > 0 {
                assert(i - index == (i - 1) - (index - 1));
                assert(answered_from(events, i - index, index as nat) == answered_from(
                    events,
                    i - index,
                    (index - 1) as nat,
                ) + answered(events[i - 1]));
            }
            assert(queries(setup, turns, i - index, index + 1));
        }
        let counts = turns[i].state.result.events_per_cycle;
        if counts == s.result.events_per_cycle {
            assert forall|c: int| 0 <= c < before.len() implies #[trigger] is_last_round(
                setup,
                turns,
                events,
                c,
                before[c],
                counts[c],
            ) by {
                assert(is_last_round(
                    setup,
                    turns,
                    events,
                    c,
                    before[c],
                    s.result.events_per_cycle[c],
                ));
            }
            before
        } else {
            let start = i - setup.used();
            let rounds = before.push(start);
            assert(answered_from(events, start, setup.used()) == answered_from(
                events,
                start,
                (setup.used() - 1) as nat,
            ) + answered(events[i - 1]));
            assert(is_last_round(setup, turns, events, rounds.len() - 1, start, counts.last()));
            assert forall|c: int| 0 <= c < rounds.len() implies #[trigger] is_last_round(
                setup,
                turns,
                events,
                c,
                rounds[c],
                counts[c],
            ) by {
                if c < before.len() {
                    assert(rounds[c] == before[c]);
                    assert(counts[c] == s.result.events_per_cycle[c]);
                    assert(is_last_round(setup, turns, events, c, before[c], counts[c]));
                }
            }
            rounds
        }
    }
}

/// In a run that ends well the count of each cycle is the number of events in the answers to the
/// last round of queries of that cycle, over all metrics that the run uses. The rounds follow one
/// another, and the run has opened one connection more often than it reconnected.
pub proof fn law_cycle_counts(
    setup: ReconnectionSetup,
    turns: Seq<ReconnectionTurn>,
    events: Seq<Event>,
) -> (rounds: Seq<int>)
    requires
        setup.cycles < usize::MAX,
        is_whole_run(setup, turns, events),
        turns.last().next matches NextView::Finish(Ok(_)),
    ensures
        ({
            let counts = turns.last().next->Finish_0->Ok_0.events_per_cycle;
            &&& counts.len() == setup.cycles + 1
            &&& rounds.len() == setup.cycles + 1
            &&& forall|c: int|
                0 <= c <= setup.cycles ==> #[trigger] is_last_round(
                    setup,
                    turns,
                    events,
                    c,
                    rounds[c],
                    counts[c],
                )
            &&& forall|c: int, d: int|
                0 <= c < d < rounds.len() ==> #[trigger] rounds[c] + setup.used()
                    < #[trigger] rounds[d]
        }),
        connects(turns, turns.len()) == setup.cycles + 1,
{
    let last = turns.len() - 1;
    lemma_run_states(setup, turns, events, last);
    lemma_counted_so_far(setup, turns, events, last)
}

/// The turn goes on behind a cycle: it closes the connection, or begins to clean up.
pub open spec fn moves_on(turn: ReconnectionTurn) -> bool {
    turn.next matches NextView::Ask(ActionView::CloseConnection(_)) || turn.next matches
        NextView::Ask(ActionView::RemoveMetric(_))
}

/// What a phase of waiting makes of the event that answers it.
spec fn waits_on(setup: ReconnectionSetup, phase: Phase, event: Event, t: ReconnectionTurn) -> bool {
    let n = setup.used();
    match phase {
        Phase::Timer { .. } => if event == (Event::Timer { expired: true }) {
            if n > 0 {
                t.state.phase matches Phase::Tally { index, total, .. } && index == 0 && total == 0
            } else {
                ends_late(t)
            }
        } else {
            if n > 0 {
                t.state.phase matches Phase::Poll { index, total, all, .. } && index == 0 && total
                    == 0 && all
            } else {
                asks(t, ActionView::Pause(1000))
            }
        },
        Phase::Poll { index, total, all, .. } => if index + 1 < n {
            t.state.phase matches Phase::Poll { index: i, total: u, all: b, .. } && i == index + 1
                && u == capped(total as nat + answered(event)) && b == (all && answered(event) > 0)
        } else if all && answered(event) > 0 {
            moves_on(t)
        } else {
            asks(t, ActionView::Pause(1000))
        },
        Phase::Tally { index, total, .. } => if index + 1 < n {
            t.state.phase matches Phase::Tally { index: i, total: u, .. } && i == index + 1 && u
                == capped(total as nat + answered(event))
        } else if total + answered(event) > 0 {
            moves_on(t)
        } else {
            ends_late(t)
        },
        _ => true,
    }
}

/// The run ends because nothing was captured in time.
pub open spec fn ends_late(turn: ReconnectionTurn) -> bool {
    turn.next == NextView::<ReconnectionResultView>::Finish(Err("Timeout waiting for events"@))
}

/// The turn asks for the events of the metric that its phase is about, and looks at a timer only
/// in the phase for that.
spec fn waits_for(setup: ReconnectionSetup, t: ReconnectionTurn) -> bool {
    &&& t.next matches NextView::Ask(ActionView::CheckTimer(..)) ==> t.state.phase is Timer
    &&& counting(t.state.phase) matches Some((index, _)) ==> 0 <= index < setup.used() && asks(
        t,
        ActionView::QueryEvents(setup.config.metrics@[index].name@, 100),
    )
}

proof fn lemma_waiting_step(setup: ReconnectionSetup, s: ReconnectionState, event: Event)
    requires
        setup.cycles < usize::MAX,
        state_ok(setup, s),
        !(s.phase is Finished),
        event.spec_kind() == s.phase.answer(),
    ensures
        waits_on(setup, s.phase, event, on_event(setup, s, event)),
        waits_for(setup, on_event(setup, s, event)),
{
}

proof fn lemma_waiting(
    setup: ReconnectionSetup,
    turns: Seq<ReconnectionTurn>,
    events: Seq<Event>,
    i: int,
)
    requires
        setup.cycles < usize::MAX,
        is_whole_run(setup, turns, events),
        0 <= i < turns.len(),
    ensures
        waits_for(setup, turns[i]),
        turns[i].next is Ask <==> i < events.len(),
        i < events.len() ==> waits_on(setup, turns[i].state.phase, events[i], turns[i + 1])
            && events[i].spec_kind() == turns[i].state.phase.answer(),
{
    lemma_run_states(setup, turns, events, i);
    if i > 0 {
        lemma_run_states(setup, turns, events, i - 1);
        assert(leads_on(setup, turns, events, i - 1));
        lemma_waiting_step(setup, turns[i - 1].state, events[i - 1]);
    }
    if i < events.len() {
        assert(leads_on(setup, turns, events, i));
        lemma_waiting_step(setup, turns[i].state, events[i]);
    }
}

/// Each time that a run has looked at its timer, it asks for the events of every metric in use.
/// While there is time it goes on exactly where every metric has events, and pauses for a second
/// otherwise. When the time is up it goes on exactly where any metric has events, and ends with
/// an error otherwise.
#[verifier::rlimit(40)]
pub proof fn law_round_outcome(
    setup: ReconnectionSetup,
    turns: Seq<ReconnectionTurn>,
    events: Seq<Event>,
    d: int,
)
    requires
        setup.cycles < usize::MAX,
        is_whole_run(setup, turns, events),
        0 <= d < events.len(),
        turns[d].next matches NextView::Ask(ActionView::CheckTimer(..)),
    ensures
        ({
            let n = setup.used() as int;
            let behind = turns[d + 1 + n];
            let every = forall|k: int| 0 <= k < n ==> answered(#[trigger] events[d + 1 + k]) > 0;
            let sum = answered_from(events, d + 1, setup.used());
            &&& queries(setup, turns, d + 1, n)
            &&& d + 1 + n < turns.len()
            &&& events[d] == (Event::Timer { expired: true }) ==> if sum > 0 {
                moves_on(behind)
            } else {
                ends_late(behind)
            }
            &&& events[d] == (Event::Timer { expired: false }) ==> if n > 0 && every {
                moves_on(behind)
            } else {
                asks(behind, ActionView::Pause(1000))
            }
        }),
{
    reveal_with_fuel(answered_from, 3);
    lemma_waiting(setup, turns, events, d);
    let n = setup.used() as int;
    assert(n == 0 || n == 1 || n == 2);
    if n > 0 {
        lemma_waiting(setup, turns, events, d + 1);
        assert(events[d + 1 + 0] == events[d + 1]);
    }
    if n > 1 {
        lemma_waiting(setup, turns, events, d + 2);
        assert(events[d + 1 + 1] == events[d + 2]);
    }
}

proof fn lemma_request_step(setup: ReconnectionSetup, s: ReconnectionState, event: Event)
    requires
        setup.cycles < usize::MAX,
        state_ok(setup, s),
        !(s.phase is Finished),
        event.spec_kind() == s.phase.answer(),
    ensures
        request_ok(setup, on_event(setup, s, event)),
{
    let t = on_event(setup, s, event);
    if let NextView::Ask(ActionView::AddMetric(r)) = t.next {
        let k = t.state.phase->AddMetric_index as int;
        assert(t.state.phase is AddMetric && 0 <= k < setup.used());
        assert(requests_metric(setup, setup.config.metrics@[k], t.state.connection_id, r));
    }
}

/// What a turn asks to add or to connect to is what the setup says.
pub open spec fn request_ok(setup: ReconnectionSetup, turn: ReconnectionTurn) -> bool {
    match turn.next {
        NextView::Ask(ActionView::AddMetric(r)) => exists|k: int|
            0 <= k < setup.used() && #[trigger] requests_metric(
                setup,
                setup.config.metrics@[k],
                turn.state.connection_id,
                r,
            ),
        NextView::Ask(ActionView::CreateConnection(host, port, language, program)) => {
            &&& host == "127.0.0.1"@
            &&& port == setup.debugger_port
            &&& language == api_name(setup.config.language)
            &&& program == opt_view(setup.program)
        },
        _ => true,
    }
}

/// A request adds a metric at its line of the source, with its expression and its group, enabled,
/// on a connection.
pub open spec fn requests_metric(
    setup: ReconnectionSetup,
    metric: MetricPoint,
    connection_id: Seq<char>,
    r: AddMetricRequestView,
) -> bool {
    &&& r.name == metric.name@
    &&& r.location == "@"@ + setup.source_path@ + "#"@ + decimal(metric.line as nat)
    &&& r.expression == metric.expression@
    &&& r.expressions.len() == 1
    &&& r.expressions[0] == metric.expression@
    &&& r.group == opt_view(metric.group)
    &&& r.language == Some(api_name(setup.config.language))
    &&& r.connection_id == connection_id
    &&& r.enabled == Some(true)
}

/// Every metric that a run asks to add is one of those in use, as the setup describes it, and
/// every connection that it asks for goes to the debugger of the setup.
pub proof fn law_requests(
    setup: ReconnectionSetup,
    turns: Seq<ReconnectionTurn>,
    events: Seq<Event>,
    i: int,
)
    requires
        setup.cycles < usize::MAX,
        is_whole_run(setup, turns, events),
        0 <= i < turns.len(),
    ensures
        request_ok(setup, turns[i]),
{
    if i > 0 {
        lemma_run_states(setup, turns, events, i - 1);
        assert(leads_on(setup, turns, events, i - 1));
        lemma_request_step(setup, turns[i - 1].state, events[i - 1]);
    }
}

/// What the counts of a list come to together.
pub open spec fn sum_of(counts: Seq<usize>) -> nat
    decreases counts.len(),
{
    if counts.len() == 0 {
        0
    } else {
        counts[0] as nat + sum_of(counts.drop_first())
    }
}

proof fn lemma_sum_of_push(counts: Seq<usize>, n: usize)
    ensures
        sum_of(counts.push(n)) == sum_of(counts) + n,
    decreases counts.len(),
{
    if counts.len() > 0 {
        lemma_sum_of_push(counts.drop_first(), n);
        assert(counts.push(n).drop_first() =~= counts.drop_first().push(n));
    } else {
        assert(counts.push(n)[0] == n);
        assert(counts.push(n).drop_first() =~= Seq::empty());
        assert(sum_of(counts.push(n).drop_first()) == 0);
    }
}

proof fn lemma_all_events(counts: Seq<usize>)
    ensures
        all_events(counts) == capped(sum_of(counts)),
    decreases counts.len(),
{
    if counts.len() > 0 {
        lemma_all_events(counts.drop_last());
        lemma_sum_of_push(counts.drop_last(), counts.last());
        assert(counts =~= counts.drop_last().push(counts.last()));
    }
}

/// The total of a run that ends well is the sum of the counts of its cycles, and the cycles that
/// it reports are those that were asked for.
pub proof fn law_totals(
    setup: ReconnectionSetup,
    turns: Seq<ReconnectionTurn>,
    events: Seq<Event>,
)
    requires
        setup.cycles < usize::MAX,
        is_whole_run(setup, turns, events),
        turns.last().next matches NextView::Finish(Ok(_)),
    ensures
        ({
            let r = turns.last().next->Finish_0->Ok_0;
            &&& r.total_events == capped(sum_of(r.events_per_cycle))
            &&& r.reconnection_cycles == setup.cycles
            &&& r.metrics_added == setup.used()
        }),
{
    lemma_run_states(setup, turns, events, turns.len() - 1);
    lemma_all_events(turns.last().next->Finish_0->Ok_0.events_per_cycle);
}

} // verus!
