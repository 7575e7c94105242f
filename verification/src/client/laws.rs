//! What requests hold before anything is added to them, and how metrics are found by their names.

use vstd::prelude::*;

use crate::client::{
    bare_observe, bare_request, connection_event_type, crash_event_type, disconnection_event_type,
    metric_event_type, metric_index, MetricInfo,
};

verus! {

/// A request for a metric holds what it was made of: the first of its expressions is the
/// expression, and nothing else is asked for.
pub proof fn law_bare_requests(
    name: Seq<char>,
    location: Seq<char>,
    expressions: Seq<Seq<char>>,
    connection_id: Seq<char>,
)
    ensures
        ({
            let r = bare_request(name, location, expressions, connection_id);
            &&& r.name == name && r.location == location && r.connection_id == connection_id
            &&& r.expressions == expressions
            &&& expressions.len() > 0 ==> r.expression == expressions[0]
            &&& expressions.len() == 0 ==> r.expression.len() == 0
            &&& r.language is None && r.group is None && r.mode is None && r.enabled is None
            &&& r.sample_rate is None && r.sample_interval_seconds is None
            &&& r.max_per_second is None
            &&& r.capture_stack_trace is None && r.stack_trace_ttl is None
            &&& r.stack_trace_full is None && r.stack_trace_head is None
            &&& r.stack_trace_tail is None
            &&& r.capture_memory_snapshot is None && r.snapshot_scope is None
            &&& r.snapshot_ttl is None
        }),
{
}

/// An observation holds its file and its one expression, and nothing else is asked for.
pub proof fn law_bare_observations(file: Seq<char>, expression: Seq<char>)
    ensures
        ({
            let r = bare_observe(file, expression);
            &&& r.file == file && r.expression == expression
            &&& r.expressions.len() == 1 && r.expressions[0] == expression
            &&& r.line is None && r.connection_id is None && r.name is None
            &&& r.find_variable is None && r.group is None && r.ttl_seconds is None
            &&& r.capture_stack_trace is None && r.capture_memory_snapshot is None
        }),
{
}

/// A metric is found by its name at the first place where the name stands, and behind the last
/// where it stands nowhere.
pub proof fn law_metrics_are_found_by_name(list: Seq<MetricInfo>, name: Seq<char>)
    ensures
        metric_index(list, name) <= list.len(),
        metric_index(list, name) < list.len() ==> list[metric_index(list, name) as int].name@
            == name,
        forall|j: int|
            0 <= j < metric_index(list, name) ==> (#[trigger] list[j]).name@ != name,
    decreases list.len(),
{
    if list.len() > 0 && list[0].name@ != name {
        let rest = list.drop_first();
        law_metrics_are_found_by_name(rest, name);
        assert forall|j: int| 0 <= j < metric_index(list, name) implies (#[trigger] list[j]).name@
            != name by {
            if j > 0 {
                assert(rest[j - 1] == list[j]);
            }
        }
        if metric_index(rest, name) < rest.len() {
            assert(rest[metric_index(rest, name) as int] == list[metric_index(list, name) as int]);
        }
    }
}

/// A connection is created, closed, lost or restored, and a metric is added, removed or toggled:
/// these events, and no others, concern them. A connection is gone where it was closed or lost, or
/// where the debugger crashed.
pub proof fn law_event_types(t: Seq<char>)
    ensures
        connection_event_type(t) <==> {
            ||| t == "connection_"@ + "created"@
            ||| t == "connection_"@ + "closed"@
            ||| t == "connection_"@ + "lost"@
            ||| t == "connection_"@ + "restored"@
        },
        metric_event_type(t) <==> {
            ||| t == "metric_"@ + "added"@
            ||| t == "metric_"@ + "removed"@
            ||| t == "metric_"@ + "toggled"@
        },
        crash_event_type(t) <==> t == "debugger_"@ + "crash"@,
        disconnection_event_type(t) <==> {
            ||| t == "connection_"@ + "closed"@
            ||| t == "connection_"@ + "lost"@
            ||| t == "debugger_"@ + "crash"@
        },
{
    reveal_strlit("connection_");
    reveal_strlit("metric_");
    reveal_strlit("debugger_");
    reveal_strlit("created");
    reveal_strlit("closed");
    reveal_strlit("lost");
    reveal_strlit("restored");
    reveal_strlit("added");
    reveal_strlit("removed");
    reveal_strlit("toggled");
    reveal_strlit("crash");
    reveal_strlit("connection_created");
    reveal_strlit("connection_closed");
    reveal_strlit("connection_lost");
    reveal_strlit("connection_restored");
    reveal_strlit("metric_added");
    reveal_strlit("metric_removed");
    reveal_strlit("metric_toggled");
    reveal_strlit("debugger_crash");
    assert("connection_"@ + "created"@ =~= "connection_created"@);
    assert("connection_"@ + "closed"@ =~= "connection_closed"@);
    assert("connection_"@ + "lost"@ =~= "connection_lost"@);
    assert("connection_"@ + "restored"@ =~= "connection_restored"@);
    assert("metric_"@ + "added"@ =~= "metric_added"@);
    assert("metric_"@ + "removed"@ =~= "metric_removed"@);
    assert("metric_"@ + "toggled"@ =~= "metric_toggled"@);
    assert("debugger_"@ + "crash"@ =~= "debugger_crash"@);
}

} // verus!
