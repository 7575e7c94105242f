//! Which answers let a script go on, what it remembers of them, and in which order it asks.

use vstd::prelude::*;

use crate::client::{metric_index, ApiErrorView, EventInfo, MetricInfo};
use crate::dap_scenarios::workflow::value_json;
use crate::exchange::{ActionView, Event};
use crate::json::{json_views, JsonView};
use crate::report::{start, success, ReportView};
use crate::script::{
    advance, bind_action, check_values, fits, leftover_removals, name_mismatch, observed_queries,
    on_err, on_event, on_ok, ErrRuleView, Fault, ItemView, Judgement, OkRuleView, OutcomeView, Rule,
    ScriptNextView, ScriptState, WaitView, WaitingView,
};
use crate::text::{decimal, has_text};

verus! {

// ---------------------------------------------------------------------------
// Answers
// ---------------------------------------------------------------------------

/// The first metric with the name has three expressions.
pub open spec fn lists_three(list: Seq<MetricInfo>, name: Seq<char>) -> bool {
    exists|k: int|
        {
            &&& 0 <= k < list.len()
            &&& (#[trigger] list[k]).name@ == name
            &&& list[k].expressions@.len() == 3
            &&& forall|j: int| 0 <= j < k ==> (#[trigger] list[j]).name@ != name
        }
}

/// The first event holds a text for every expression; where its values are named, the names are
/// those of the expressions.
pub open spec fn holds_every_value(
    events: Seq<EventInfo>,
    expressions: Seq<Seq<char>>,
) -> bool {
    let values = json_views(events[0].values@);
    &&& events.len() > 0
    &&& values.len() >= expressions.len()
    &&& forall|i: int| 0 <= i < values.len() ==> value_json(#[trigger] values[i]).len() > 0
    &&& (exists|i: int| 0 <= i < values.len() && (#[trigger] values[i]).field("expression"@) is Some)
        ==> forall|i: int|
        0 <= i < expressions.len() ==> named_as(#[trigger] values[i], expressions[i])
}

/// The value is named like the expression; a value without a name is named by an empty one.
pub open spec fn named_as(value: JsonView, expression: Seq<char>) -> bool {
    match value.field("expression"@) {
        Some(JsonView::Str(name)) => name == expression,
        _ => expression == ""@,
    }
}

/// The answer is one that a rule lets pass.
pub open spec fn is_accepted(rule: OkRuleView, event: Event) -> bool {
    match rule {
        Rule::Healthy => event == Event::Health(Ok(true)),
        Rule::Validated { expect_safe } => event matches Event::Validation(Ok(r))
            && r.data.is_safe == expect_safe,
        Rule::GroupEnabled { expected } => event matches Event::Count(Ok(r)) && r.data == expected,
        Rule::MultiListed { metric } => event matches Event::Metrics(Ok(r)) && lists_three(
            r.data@,
            metric,
        ),
        Rule::MultiVerified { expressions } => event matches Event::Events(Ok(r))
            && holds_every_value(r.data@, expressions),
        Rule::BurstHealthy => event matches Event::Burst { succeeded } && succeeded >= 8,
        Rule::ErrorExpected => false,
        _ => true,
    }
}

proof fn lemma_metric_index(list: Seq<MetricInfo>, name: Seq<char>)
    ensures
        metric_index(list, name) <= list.len(),
        metric_index(list, name) < list.len() ==> list[metric_index(list, name) as int].name@
            == name,
        forall|j: int| 0 <= j < metric_index(list, name) ==> (#[trigger] list[j]).name@ != name,
    decreases list.len(),
{
    if list.len() > 0 && list[0].name@ != name {
        let t = list.drop_first();
        lemma_metric_index(t, name);
        assert forall|j: int| 0 <= j < metric_index(list, name) implies (#[trigger] list[j]).name@
            != name by {
            if j > 0 {
                assert(list[j] == t[j - 1]);
            }
        }
    }
}

proof fn lemma_lists_three(list: Seq<MetricInfo>, name: Seq<char>)
    ensures
        lists_three(list, name) <==> metric_index(list, name) < list.len() && list[metric_index(
            list,
            name,
        ) as int].expressions@.len() == 3,
{
    lemma_metric_index(list, name);
    let m = metric_index(list, name) as int;
    if lists_three(list, name) {
        let k = choose|k: int|
            {
                &&& 0 <= k < list.len()
                &&& (#[trigger] list[k]).name@ == name
                &&& list[k].expressions@.len() == 3
                &&& forall|j: int| 0 <= j < k ==> (#[trigger] list[j]).name@ != name
            };
        if m < k {
            assert(list[m].name@ != name);
        }
        if k < m {
            assert(list[k].name@ != name);
        }
    }
}

proof fn lemma_check_values(log: Seq<ReportView>, values: Seq<JsonView>, i: nat)
    ensures
        check_values(log, values, i).1 is None <==> forall|j: int|
            i <= j < values.len() ==> value_json(#[trigger] values[j]).len() > 0,
    decreases values.len() - i,
{
    if i < values.len() && value_json(values[i as int]).len() > 0 {
        let next = log.push(
            ReportView::Info(
                "  Expression ["@ + decimal(i) + "]: valueJson='"@ + value_json(
                    values[i as int],
                ) + "'"@,
            ),
        );
        lemma_check_values(next, values, i + 1);
    }
}

proof fn lemma_name_mismatch(values: Seq<JsonView>, expressions: Seq<Seq<char>>, i: nat)
    requires
        values.len() >= expressions.len(),
    ensures
        name_mismatch(values, expressions, i) is None <==> forall|j: int|
            i <= j < expressions.len() ==> named_as(#[trigger] values[j], expressions[j]),
    decreases values.len() - i,
{
    if i < expressions.len() {
        assert(named_as(values[i as int], expressions[i as int]) <==> values[i as int].str_field_or(
            "expression"@,
            ""@,
        ) == expressions[i as int]);
        if named_as(values[i as int], expressions[i as int]) {
            lemma_name_mismatch(values, expressions, i + 1);
        }
    }
}

/// A successful answer lets a script go on exactly where its rule accepts it. Otherwise the script
/// ends with an error; behind a group that was not enabled as a whole it closes its connection
/// first.
#[verifier::rlimit(40)]
pub proof fn law_successes_are_judged(
    rule: OkRuleView,
    event: Event,
    s: ScriptState,
    log: Seq<ReportView>,
)
    requires
        event.error() is None,
        fits(rule, event.spec_kind()),
    ensures
        on_ok(rule, event, s, log).judgement is Go <==> is_accepted(rule, event),
        on_ok(rule, event, s, log).judgement is FailAfterClose <==> rule is GroupEnabled
            && !is_accepted(rule, event),
{
    match (rule, event) {
        (Rule::MultiListed { metric }, Event::Metrics(Ok(r))) => {
            lemma_lists_three(r.data@, metric);
        },
        (Rule::MultiVerified { expressions }, Event::Events(Ok(r))) => {
            if r.data@.len() > 0 {
                let values = json_views(r.data@[0].values@);
                assert forall|l: Seq<ReportView>|
                    (#[trigger] check_values(l, values, 0)).1 is None <==> forall|j: int|
                        0 <= j < values.len() ==> value_json(#[trigger] values[j]).len() > 0 by {
                    lemma_check_values(l, values, 0);
                }
                if values.len() >= expressions.len() {
                    lemma_name_mismatch(values, expressions, 0);
                }
            }
        },
        _ => {},
    }
}

/// What a script remembers of a successful answer that it goes on with: the connection that was
/// made, how many things were listed, the id of the metric that was added, the finding on an
/// expression, and the sum of the events of the observed metrics. Everything else stays.
pub proof fn law_successes_are_remembered(
    rule: OkRuleView,
    event: Event,
    s: ScriptState,
    log: Seq<ReportView>,
)
    requires
        event.error() is None,
        fits(rule, event.spec_kind()),
        on_ok(rule, event, s, log).judgement is Go,
    ensures
        ({
            let t = on_ok(rule, event, s, log).state;
            let connects = rule is Connected || rule is ConnectedShort || rule is ConnectedBare
                || rule is ConnectedProbe;
            let lists = rule is ConnectionsListed || rule is MetricsListed || rule is EventsListed;
            &&& connects ==> (event matches Event::Connection(Ok(r)) && t.connection == Some(
                r.data.connection_id@,
            ) && t.value == OutcomeView::Text(r.data.connection_id@))
            &&& !connects ==> t.connection == s.connection
            &&& lists ==> t.count == listed(event) && t.value == OutcomeView::Count(
                listed(event) as usize,
            )
            &&& !lists ==> t.count == s.count
            &&& rule is MetricAdded ==> (event matches Event::Text(Ok(r)) && t.value
                == OutcomeView::Text(r.data@))
            &&& rule is Validated ==> (event matches Event::Validation(Ok(r)) && t.value
                == OutcomeView::Flag(r.data.is_safe))
            &&& !connects && !lists && !(rule is MetricAdded) && !(rule is Validated) ==> t.value
                == OutcomeView::Unit
            &&& rule is ObservedCounted ==> t.total == (if s.total + listed(event) > usize::MAX {
                usize::MAX as int
            } else {
                s.total + listed(event)
            })
            &&& rule is ObservedListed ==> t.total == 0
            &&& !(rule is ObservedCounted) && !(rule is ObservedListed) ==> t.total == s.total
            &&& t.failures == s.failures
            &&& !(rule is ObservedListed) && !(rule is LeftoversListed)
                && !(rule is ProbeMetricAdded) ==> t.todo == s.todo
        }),
{
}

/// How many things an answer lists.
pub open spec fn listed(event: Event) -> nat {
    match event {
        Event::Connections(Ok(r)) => r.data.len() as nat,
        Event::Metrics(Ok(r)) => r.data.len() as nat,
        Event::Events(Ok(r)) => r.data.len() as nat,
        _ => 0,
    }
}

/// The error is one that a rule lets pass.
pub open spec fn is_tolerated(rule: ErrRuleView, e: ApiErrorView) -> bool {
    let unconfigured = |text: Seq<char>|
        has_text(text, "not found"@) || has_text(text, "No config"@) || has_text(
            text,
            "not configured"@,
        );
    match rule {
        Fault::FailStep | Fault::Propagate | Fault::FailAndClose => false,
        Fault::AcceptUnsupported => has_text(e.message, "unimplemented"@) || has_text(
            e.message,
            "not supported"@,
        ),
        Fault::AcceptUnconfigured => unconfigured(e.message) || (e.raw_response is Some
            && unconfigured(e.raw_response->0)),
        _ => true,
    }
}

/// An error lets a script go on exactly where its rule tolerates it; otherwise the script ends with
/// that very error, behind closing its connection where the rule asks for that. A tolerated error
/// changes nothing, except that a probe puts its label and the message on the list of failures.
pub proof fn law_errors_are_judged(
    rule: ErrRuleView,
    e: ApiErrorView,
    s: ScriptState,
    log: Seq<ReportView>,
)
    ensures
        ({
            let j = on_err(rule, e, s, log);
            &&& j.judgement is Go <==> is_tolerated(rule, e)
            &&& !is_tolerated(rule, e) ==> j.judgement == if rule is FailAndClose {
                Judgement::FailAfterClose(e)
            } else {
                Judgement::Fail(e)
            }
            &&& j.state.todo == s.todo
            &&& j.state.connection == s.connection
            &&& j.state.count == s.count
            &&& j.state.total == s.total
            &&& match rule {
                Fault::Probe { label } => j.state.failures == s.failures.push(
                    label + ": "@ + e.message,
                ),
                _ => j.state.failures == s.failures,
            }
        }),
{
}

/// Judging an answer leaves the items that are to do as they are, unless the rule is one of those
/// that put further items in front.
pub proof fn law_todo_is_kept(
    ok: OkRuleView,
    err: ErrRuleView,
    event: Event,
    s: ScriptState,
    log: Seq<ReportView>,
)
    requires
        fits(ok, event.spec_kind()),
        !(ok is ObservedListed) && !(ok is LeftoversListed) && !(ok is ProbeMetricAdded),
    ensures
        event.error() is None ==> on_ok(ok, event, s, log).state.todo == s.todo,
        event.error() matches Some(e) ==> on_err(err, e@, s, log).state.todo == s.todo,
{
}

/// An answer to a call of a script that its rules do not let pass ends the script with an error, at
/// once or behind closing its connection; the connection that is closed is that of the script.
pub proof fn law_refused_answers_end_the_script(state: ScriptState, event: Event)
    requires
        state.waiting is Call,
        fits(state.waiting->Call_1, event.spec_kind()),
        event.error() is None ==> !is_accepted(state.waiting->Call_1, event),
        event.error() matches Some(e) ==> !is_tolerated(state.waiting->Call_2, e@),
    ensures
        ({
            let turn = on_event(state, event);
            ||| turn.next matches ScriptNextView::Finish(Err(_))
            ||| {
                &&& turn.state.waiting is Closing
                &&& turn.next matches ScriptNextView::Ask(ActionView::CloseConnection(id)) && (
                state.connection matches Some(c) ==> id == c)
            }
        }),
        event.error() matches Some(e) ==> {
            let turn = on_event(state, event);
            ||| turn.next == ScriptNextView::Finish(Err(e@))
            ||| turn.state.waiting == WaitingView::Closing(e@)
        },
{
    let s = ScriptState { waiting: WaitingView::Nothing, ..state };
    let log = Seq::<ReportView>::empty();
    match event.error() {
        Some(e) => law_errors_are_judged(state.waiting->Call_2, e@, s, log),
        None => law_successes_are_judged(state.waiting->Call_1, event, s, log),
    }
}

/// A script that closes its connection behind an error ends with that error, whatever closing is
/// answered.
pub proof fn law_closing_ends_with_the_error(state: ScriptState, event: Event)
    requires
        state.waiting is Closing,
    ensures
        on_event(state, event).next == ScriptNextView::Finish(Err(state.waiting->Closing_0)),
{
}

// ---------------------------------------------------------------------------
// Order
// ---------------------------------------------------------------------------

/// The connection of a script is put into the actions that have one, and nothing else changes.
pub proof fn law_connection_is_bound(action: ActionView, connection: Seq<char>)
    ensures
        action is CloseConnection ==> bind_action(action, connection)
            == ActionView::CloseConnection(connection),
        action is GetConnection ==> bind_action(action, connection) == ActionView::GetConnection(
            connection,
        ),
        action matches ActionView::AddMetric(r) ==> bind_action(action, connection) matches
            ActionView::AddMetric(q) && q.connection_id == connection && q.name == r.name
            && q.location == r.location && q.expression == r.expression && q.expressions
            == r.expressions && q.group == r.group && q.enabled == r.enabled && q.language
            == r.language && q.mode == r.mode,
        action matches ActionView::Observe(r) ==> bind_action(action, connection) matches
            ActionView::Observe(q) && q.connection_id == Some(connection) && q.file == r.file
            && q.expressions == r.expressions && q.line == r.line && q.name == r.name && q.group
            == r.group && q.find_variable == r.find_variable,
        !(action is CloseConnection) && !(action is GetConnection) && !(action is AddMetric)
            && !(action is Observe) ==> bind_action(action, connection) == action,
{
}

/// What an item asks for in a state; nothing for an item that only reports, and for a call that
/// needs a connection where there is none.
pub open spec fn asked_by(item: ItemView, s: ScriptState) -> Option<ActionView> {
    match item {
        ItemView::Pause(millis) => Some(ActionView::Pause(millis)),
        ItemView::Wait(w) => Some(ActionView::CheckTimer(true, w.timeout_secs)),
        ItemView::Call(c) => if c.needs_connection && s.connection is None {
            None
        } else if c.bind {
            Some(
                bind_action(
                    c.action,
                    if s.connection is Some {
                        s.connection->0
                    } else {
                        "unknown"@
                    },
                ),
            )
        } else {
            Some(c.action)
        },
        _ => None,
    }
}

/// The item ends the script: it is the verdict, and there are failures.
pub open spec fn ends_by(item: ItemView, s: ScriptState) -> bool {
    item is Verdict && s.failures.len() > 0
}

/// A script asks for what its first item that asks for something asks for, and the items behind
/// that one are left to do. Where no item asks for anything it is over: with an error where a
/// verdict comes first on a list of failures, and with what the last call gave otherwise.
pub proof fn law_items_are_taken_in_order(s: ScriptState, log: Seq<ReportView>) -> (k: int)
    ensures
        0 <= k <= s.todo.len(),
        forall|j: int|
            0 <= j < k ==> asked_by(#[trigger] s.todo[j], s) is None && !ends_by(s.todo[j], s),
        ({
            let turn = advance(s, log);
            if k == s.todo.len() {
                turn.next == ScriptNextView::Finish(Ok(s.value))
            } else if ends_by(s.todo[k], s) {
                turn.next matches ScriptNextView::Finish(Err(_))
            } else {
                &&& asked_by(s.todo[k], s) is Some
                &&& turn.next == ScriptNextView::Ask(asked_by(s.todo[k], s)->0)
                &&& turn.state.todo == s.todo.skip(k + 1)
                &&& s.todo[k] matches ItemView::Call(c) ==> (turn.state.waiting matches
                    WaitingView::Call(_, ok, err) && ok == c.ok && err == c.err)
                &&& s.todo[k] matches ItemView::Wait(w) ==> turn.state.waiting
                    == WaitingView::WaitTimer(w)
            }
        }),
        advance(s, log).state.connection == s.connection,
        advance(s, log).state.count == s.count,
        advance(s, log).state.total == s.total,
        advance(s, log).state.failures == s.failures,
    decreases s.todo.len(),
{
    if s.todo.len() == 0 {
        0
    } else if asked_by(s.todo[0], s) is Some || ends_by(s.todo[0], s) {
        assert(s.todo.drop_first() =~= s.todo.skip(1));
        0
    } else {
        let rest = ScriptState { todo: s.todo.drop_first(), ..s };
        let l = choose|l: Seq<ReportView>| advance(s, log) == #[trigger] advance(rest, l);
        assert(exists|l: Seq<ReportView>| advance(s, log) == #[trigger] advance(rest, l)) by {
            lemma_skips(s, log);
        }
        let k = law_items_are_taken_in_order(rest, l);
        if k < rest.todo.len() {
            assert(rest.todo.skip(k + 1) =~= s.todo.skip(k + 2));
        }
        assert forall|j: int| 0 <= j < k + 1 implies asked_by(#[trigger] s.todo[j], s) is None
            && !ends_by(s.todo[j], s) by {
            if j > 0 {
                assert(s.todo[j] == rest.todo[j - 1]);
                assert(asked_by(rest.todo[j - 1], rest) is None);
            }
        }
        if k < rest.todo.len() {
            assert(rest.todo[k] == s.todo[k + 1]);
        }
        k + 1
    }
}

proof fn lemma_skips(s: ScriptState, log: Seq<ReportView>)
    requires
        s.todo.len() > 0,
        asked_by(s.todo[0], s) is None,
        !ends_by(s.todo[0], s),
    ensures
        exists|l: Seq<ReportView>|
            advance(s, log) == #[trigger] advance(
                ScriptState { todo: s.todo.drop_first(), ..s },
                l,
            ),
{
    reveal_with_fuel(advance, 2);
    let rest = ScriptState { todo: s.todo.drop_first(), ..s };
    let l = match s.todo[0] {
        ItemView::Section(title) => log.push(ReportView::Section(title)),
        ItemView::Info(message) => log.push(ReportView::Info(message)),
        ItemView::InfoCount(before, after) => log.push(
            ReportView::Info(before + decimal(s.count as nat) + after),
        ),
        ItemView::Step(name, description) => log.push(start(name, description)),
        ItemView::Total => if s.total > 0 {
            log.push(
                success(
                    decimal(s.total as nat) + " total events captured"@,
                ),
            )
        } else {
            log.push(ReportView::Warn("No events captured yet (may need more time)"@))
        },
        ItemView::Verdict => log.push(ReportView::Info("All endpoints passed!"@)),
        _ => log,
    };
    assert(advance(s, log) == advance(rest, l));
}

// ---------------------------------------------------------------------------
// Waiting
// ---------------------------------------------------------------------------

/// While there is time, a wait asks for the events of its metric; when the time is up the script
/// ends with an error.
pub proof fn law_wait_looks_at_the_timer(state: ScriptState, w: WaitView, event: Event)
    requires
        state.waiting == WaitingView::WaitTimer(w),
        event is Timer,
    ensures
        ({
            let turn = on_event(state, event);
            if event == (Event::Timer { expired: true }) {
                turn.next matches ScriptNextView::Finish(Err(_))
            } else {
                &&& turn.next == ScriptNextView::Ask(ActionView::QueryEvents(w.metric, 100))
                &&& turn.state.waiting == WaitingView::WaitQuery(w)
            }
        }),
{
}

/// A wait goes on exactly where there are as many events as it needs, and the number is remembered;
/// otherwise the script pauses for a second and looks at the timer again.
pub proof fn law_wait_counts_events(state: ScriptState, w: WaitView, event: Event)
    requires
        state.waiting == WaitingView::WaitQuery(w),
        event is Events,
    ensures
        ({
            let turn = on_event(state, event);
            let enough = event matches Event::Events(Ok(r)) && r.data.len() >= w.min_events;
            &&& enough ==> turn.state.count == listed(event)
            &&& enough && state.todo.len() == 0 ==> turn.next == ScriptNextView::Finish(
                Ok(OutcomeView::Count(listed(event) as usize)),
            )
            &&& !enough ==> turn.next == ScriptNextView::Ask(ActionView::Pause(1000))
                && turn.state.waiting == WaitingView::WaitPause(w) && turn.state.todo == state.todo
        }),
{
    if let Event::Events(Ok(r)) = event {
        if r.data.len() >= w.min_events {
            let n = r.data@.len() as usize;
            let s = ScriptState { waiting: WaitingView::Nothing, ..state };
            let l = Seq::<ReportView>::empty().push(
                ReportView::Progress("Found "@ + decimal(n as nat) + " events..."@),
            ).push(success(decimal(n as nat) + " events captured"@));
            let k = law_items_are_taken_in_order(
                ScriptState { count: n, value: OutcomeView::Count(n), ..s },
                l,
            );
        }
    }
}

/// Behind the pause of a wait the script looks at the timer again, without starting it anew.
pub proof fn law_wait_goes_on(state: ScriptState, w: WaitView, event: Event)
    requires
        state.waiting == WaitingView::WaitPause(w),
    ensures
        on_event(state, event).next == ScriptNextView::Ask(
            ActionView::CheckTimer(false, w.timeout_secs),
        ),
        on_event(state, event).state.waiting == WaitingView::WaitTimer(w),
{
}

/// The name of a metric says that it was observed.
pub open spec fn was_observed(metric: MetricInfo) -> bool {
    has_text(metric.name@, "metric"@) || has_text(metric.name@, "observe"@)
}

/// The name of a metric says that it was left over.
pub open spec fn was_left_over(metric: MetricInfo) -> bool {
    has_text(metric.name@, "symbol_at_"@) || has_text(metric.name@, "quantity_at_"@)
}

/// The events of every metric that was observed are asked for, in the order of the list, and of no
/// other.
pub proof fn law_observed_metrics_are_queried(list: Seq<MetricInfo>, metric: MetricInfo)
    ensures
        observed_queries(Seq::empty(), 0).len() == 0,
        observed_queries(list.push(metric), list.len() + 1).len() == observed_queries(
            list,
            list.len(),
        ).len() + (if was_observed(metric) {
            1int
        } else {
            0
        }),
        observed_queries(list.push(metric), list.len() + 1).subrange(
            0,
            observed_queries(list, list.len()).len() as int,
        ) == observed_queries(list, list.len()),
        was_observed(metric) ==> (observed_queries(list.push(metric), list.len() + 1).last()
            matches ItemView::Call(c) && c.action == ActionView::QueryEvents(metric.name@, 10)),
{
    let longer = list.push(metric);
    assert(longer[longer.len() - 1] == metric);
    lemma_observed_queries_prefix(list, longer, list.len());
    let q = observed_queries(list, list.len());
    assert(observed_queries(longer, longer.len()).subrange(0, q.len() as int) =~= q);
}

proof fn lemma_observed_queries_prefix(list: Seq<MetricInfo>, longer: Seq<MetricInfo>, n: nat)
    requires
        n <= list.len() <= longer.len(),
        forall|i: int| 0 <= i < list.len() ==> #[trigger] longer[i] == list[i],
    ensures
        observed_queries(longer, n) == observed_queries(list, n),
    decreases n,
{
    if n > 0 {
        lemma_observed_queries_prefix(list, longer, (n - 1) as nat);
        assert(longer[n - 1] == list[n - 1]);
    }
}

/// Every metric that was left over is removed, in the order of the list, and no other.
pub proof fn law_leftovers_are_removed(list: Seq<MetricInfo>, metric: MetricInfo)
    ensures
        leftover_removals(Seq::empty(), 0).len() == 0,
        leftover_removals(list.push(metric), list.len() + 1).len() == leftover_removals(
            list,
            list.len(),
        ).len() + (if was_left_over(metric) {
            1int
        } else {
            0
        }),
        leftover_removals(list.push(metric), list.len() + 1).subrange(
            0,
            leftover_removals(list, list.len()).len() as int,
        ) == leftover_removals(list, list.len()),
        was_left_over(metric) ==> (leftover_removals(list.push(metric), list.len() + 1).last()
            matches ItemView::Call(c) && c.action == ActionView::RemoveMetric(metric.name@)),
{
    let longer = list.push(metric);
    assert(longer[longer.len() - 1] == metric);
    lemma_leftover_removals_prefix(list, longer, list.len());
    let q = leftover_removals(list, list.len());
    assert(leftover_removals(longer, longer.len()).subrange(0, q.len() as int) =~= q);
}

proof fn lemma_leftover_removals_prefix(list: Seq<MetricInfo>, longer: Seq<MetricInfo>, n: nat)
    requires
        n <= list.len() <= longer.len(),
        forall|i: int| 0 <= i < list.len() ==> #[trigger] longer[i] == list[i],
    ensures
        leftover_removals(longer, n) == leftover_removals(list, n),
    decreases n,
{
    if n > 0 {
        lemma_leftover_removals_prefix(list, longer, (n - 1) as nat);
        assert(longer[n - 1] == list[n - 1]);
    }
}

} // verus!
