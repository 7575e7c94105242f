//! What the steps of a scenario ask for, and which answers they take.

use vstd::prelude::*;

use crate::client::ApiErrorView;
use crate::exchange::{ActionView, Event};
use crate::scenarios::{
    add_metric, all_endpoints, close_connection, create_connection, full_metric_lifecycle,
    get_status, health_check, list_connections, list_metrics, query_events, remove_metric,
    toggle_metric, validate_expression, wake_sleep_cycle,
};
use crate::script::rules::{is_accepted, is_tolerated};
use crate::script::ItemView;

verus! {

/// A step asks for the action.
pub open spec fn asks(item: ItemView, action: ActionView) -> bool {
    item matches ItemView::Call(c) && c.action == action
}

/// A step is lost where its answer is an error, whatever the error says.
pub open spec fn is_lost_on_errors(item: ItemView) -> bool {
    forall|e: ApiErrorView| !#[trigger] is_tolerated(item->Call_0.err, e)
}

/// A step takes an answer that is no error.
pub open spec fn takes(item: ItemView, event: Event) -> bool {
    is_accepted(item->Call_0.ok, event)
}

/// The daemon passes for its health exactly where it says that it is healthy; its status is only
/// asked for.
pub proof fn law_daemon_steps(event: Event)
    ensures
        asks(health_check(), ActionView::Health) && is_lost_on_errors(health_check()),
        takes(health_check(), event) <==> event == Event::Health(Ok(true)),
        asks(get_status(), ActionView::GetStatus) && is_lost_on_errors(get_status()),
        takes(get_status(), event),
{
}

/// A connection is opened to what was named, and closed by its id; without one, the connection
/// that is open is meant.
pub proof fn law_connection_steps(
    host: Seq<char>,
    port: u16,
    language: Seq<char>,
    id: Seq<char>,
    event: Event,
)
    ensures
        ({
            let open = create_connection(host, port, language);
            &&& asks(open, ActionView::CreateConnection(host, port, language, None))
            &&& is_lost_on_errors(open) && takes(open, event) && !open->Call_0.bind
        }),
        asks(close_connection(Some(id)), ActionView::CloseConnection(id)),
        !close_connection(Some(id))->Call_0.bind,
        close_connection(None)->Call_0.action is CloseConnection,
        close_connection(None)->Call_0.bind,
        is_lost_on_errors(close_connection(Some(id))) && is_lost_on_errors(close_connection(None)),
        asks(list_connections(), ActionView::ListConnections),
        is_lost_on_errors(list_connections()),
{
}

/// A metric is added, switched, removed and asked for its events by its name.
pub proof fn law_metric_steps(
    name: Seq<char>,
    location: Seq<char>,
    expression: Seq<char>,
    id: Seq<char>,
    enabled: bool,
    limit: u32,
)
    ensures
        ({
            let add = add_metric(name, location, expression, seq![expression], Some(id));
            &&& add->Call_0.action matches ActionView::AddMetric(r) && r.name == name && r.location
                == location && r.expressions.len() == 1 && r.expressions[0] == expression
                && r.connection_id == id
            &&& is_lost_on_errors(add) && !add->Call_0.bind
        }),
        add_metric(name, location, expression, seq![expression], None)->Call_0.bind,
        asks(toggle_metric(name, enabled), ActionView::ToggleMetric(name, enabled)),
        is_lost_on_errors(toggle_metric(name, enabled)),
        asks(remove_metric(name), ActionView::RemoveMetric(name)),
        is_lost_on_errors(remove_metric(name)),
        asks(query_events(name, limit), ActionView::QueryEvents(name, limit)),
        is_lost_on_errors(query_events(name, limit)),
        asks(list_metrics(), ActionView::ListMetrics),
        is_lost_on_errors(list_metrics()),
{
}

/// A validation passes exactly where the expression is found as safe as is expected.
pub proof fn law_validation_steps(
    expression: Seq<char>,
    language: Seq<char>,
    expect_safe: bool,
    event: Event,
)
    ensures
        ({
            let step = validate_expression(expression, language, expect_safe);
            &&& asks(step, ActionView::ValidateExpression(expression, language))
            &&& is_lost_on_errors(step)
            &&& takes(step, event) <==> (event matches Event::Validation(Ok(r)) && r.data.is_safe
                == expect_safe)
        }),
{
}

/// The daemon is woken, and then put to sleep.
pub proof fn law_wake_sleep_cycle()
    ensures
        wake_sleep_cycle().len() == 2,
        asks(wake_sleep_cycle()[0], ActionView::Wake),
        asks(wake_sleep_cycle()[1], ActionView::Sleep),
        is_lost_on_errors(wake_sleep_cycle()[0]) && is_lost_on_errors(wake_sleep_cycle()[1]),
{
}

/// The first step that asks for an action of this kind stands at this place.
pub open spec fn stands_first(
    script: Seq<ItemView>,
    i: int,
    kind: spec_fn(ActionView) -> bool,
) -> bool {
    &&& 0 <= i < script.len()
    &&& script[i] matches ItemView::Call(c) && kind(c.action)
    &&& forall|j: int|
        0 <= j < i ==> !((#[trigger] script[j]) matches ItemView::Call(c) && kind(c.action))
}

/// The places of the steps in the life of a metric.
pub struct Life {
    pub opened: int,
    pub added: int,
    pub awaited: int,
    pub disabled: int,
    pub removed: int,
}

/// The steps of the life of a metric stand at these places, one behind the other.
pub open spec fn is_life(
    script: Seq<ItemView>,
    life: Life,
    host: Seq<char>,
    port: u16,
    name: Seq<char>,
    location: Seq<char>,
    expression: Seq<char>,
    wait_secs: u64,
) -> bool {
    &&& 0 <= life.opened < life.added < life.awaited < life.disabled < life.removed < script.len()
    &&& asks(script[life.opened], ActionView::CreateConnection(host, port, "python"@, None))
    &&& is_add_of(script[life.added], name, location, expression)
    &&& waits_for(script[life.awaited], name, wait_secs)
    &&& asks(script[life.disabled], ActionView::ToggleMetric(name, false))
    &&& asks(script[life.removed], ActionView::RemoveMetric(name))
}

/// In the life of a metric a connection is opened first, then the metric is added, then at least
/// one event of it is waited for as long as was said, and only then it is switched off and removed.
pub proof fn law_metric_life(
    host: Seq<char>,
    port: u16,
    name: Seq<char>,
    location: Seq<char>,
    expression: Seq<char>,
    wait_secs: u64,
) -> (life: Life)
    ensures
        is_life(
            full_metric_lifecycle(host, port, name, location, expression, wait_secs),
            life,
            host,
            port,
            name,
            location,
            expression,
            wait_secs,
        ),
        stands_first(
            full_metric_lifecycle(host, port, name, location, expression, wait_secs),
            1,
            |a: ActionView| true,
        ),
        asks(
            full_metric_lifecycle(host, port, name, location, expression, wait_secs)[1],
            ActionView::Health,
        ),
{
    Life { opened: 2, added: 6, awaited: 10, disabled: 13, removed: 14 }
}

/// A step adds the metric to the connection that is open.
pub open spec fn is_add_of(
    item: ItemView,
    name: Seq<char>,
    location: Seq<char>,
    expression: Seq<char>,
) -> bool {
    item matches ItemView::Call(c) && c.bind && (c.action matches ActionView::AddMetric(
        r,
    ) && r.name == name && r.location == location && r.expressions == seq![expression])
}

/// A step waits for an event of the metric.
pub open spec fn waits_for(item: ItemView, name: Seq<char>, secs: u64) -> bool {
    item matches ItemView::Wait(w) && w.metric == name && w.min_events == 1 && w.timeout_secs == secs
}

/// Of all endpoints the health comes first, and an expression that is safe and one that is not are
/// tried in Python and in Go.
pub proof fn law_all_endpoints()
    ensures
        stands_first(all_endpoints(), 1, |a: ActionView| true),
        asks(all_endpoints()[1], ActionView::Health),
        all_endpoints().contains(get_status()),
        all_endpoints().contains(validate_expression("user.id"@, "python"@, true)),
        all_endpoints().contains(validate_expression("eval('bad')"@, "python"@, false)),
        all_endpoints().contains(validate_expression("len(items)"@, "go"@, true)),
        all_endpoints().contains(validate_expression("exec.Command(\"ls\")"@, "go"@, false)),
        all_endpoints().contains(list_metrics()),
        forall|i: int|
            0 <= i < all_endpoints().len() && (#[trigger] all_endpoints()[i]) is Call
                ==> is_lost_on_errors(all_endpoints()[i]),
{
    let script = all_endpoints();
    assert(script[2] == get_status());
    assert(script[6] == validate_expression("user.id"@, "python"@, true));
    assert(script[7] == validate_expression("eval('bad')"@, "python"@, false));
    assert(script[9] == validate_expression("len(items)"@, "go"@, true));
    assert(script[10] == validate_expression("exec.Command(\"ls\")"@, "go"@, false));
    assert(script[12] == list_metrics());
}

} // verus!
