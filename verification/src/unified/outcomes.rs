//! When the scenarios that every backend runs end well, and what the longer ones leave behind.

use vstd::prelude::*;

use crate::client::{AddMetricRequestView, ApiErrorView};
use crate::exchange::{ActionView, Event, EventKind};
use crate::report::ReportView;
use crate::script::rules::{
    is_accepted, is_tolerated, law_errors_are_judged, law_items_are_taken_in_order,
    law_successes_are_judged, law_todo_is_kept,
};
use crate::script::{
    advance, fits, fresh, on_err, on_event, on_ok, CallView, ItemView, Rule, ScriptNextView,
    ScriptState, ScriptTurn, WaitingView,
};
use crate::text::has_text;
use crate::unified::{
    add_metric_script, close_connection_script, comprehensive_coverage_script,
    concurrent_requests_script, error_handling_script, observe_auto_connection_script,
    observe_workflow_script, streaming_refusal, validate_config_script, BackendType,
    connection_lifecycle_script, create_connection_script, disable_group_script,
    enable_group_script, get_config_script, get_connection_script, get_mcp_usage_script,
    get_metric_nonexistent_script, get_status_script, group_operations_script, health_check_script,
    inspect_file_script, inspect_file_with_variable_script, list_connections_script,
    list_groups_script, list_metrics_script, metric_crud_script, multi_expr_metric_script,
    observe_auto_connection_on_mcp_script, observe_workflow_on_mcp_script,
    query_events_nonexistent_script, query_events_script, reload_config_script,
    remove_metric_script, sleep_script, toggle_metric_script, update_config_script,
    validate_safe_expression_script, validate_safe_go_expression_script,
    validate_safe_rust_expression_script, validate_unsafe_expression_script,
    validate_unsafe_go_expression_script, validate_unsafe_rust_expression_script, wake_script,
};

verus! {

/// The first turn of a script.
pub open spec fn first_turn(script: Seq<ItemView>) -> ScriptTurn {
    advance(fresh(script), Seq::<ReportView>::empty())
}

/// The script asks for one action and nothing else before it is answered.
pub open spec fn asks_for(script: Seq<ItemView>, action: ActionView) -> bool {
    first_turn(script).next == ScriptNextView::Ask(action)
}

/// The event that answers the first action ends the script well.
pub open spec fn ends_well(script: Seq<ItemView>, event: Event) -> bool {
    on_event(first_turn(script).state, event).next matches ScriptNextView::Finish(Ok(_))
}

/// The event that answers the first action ends the script with an error, at once.
pub open spec fn ends_badly(script: Seq<ItemView>, event: Event) -> bool {
    on_event(first_turn(script).state, event).next matches ScriptNextView::Finish(Err(_))
}

/// The answer is no error.
pub open spec fn succeeds(event: Event) -> bool {
    event.error() is None
}

proof fn lemma_one_call(script: Seq<ItemView>, c: CallView, event: Event)
    requires
        script.len() == 1,
        script[0] == ItemView::Call(c),
        !c.needs_connection,
        !c.bind,
        !(c.ok is ObservedListed) && !(c.ok is LeftoversListed) && !(c.ok is ProbeMetricAdded),
        !(c.ok is GroupEnabled),
        !(c.err is FailAndClose),
        fits(c.ok, event.spec_kind()),
    ensures
        asks_for(script, c.action),
        ends_well(script, event) <==> if succeeds(event) {
            is_accepted(c.ok, event)
        } else {
            is_tolerated(c.err, event.error()->0@)
        },
        ends_badly(script, event) <==> !ends_well(script, event),
{
    let s = fresh(script);
    let log = Seq::<ReportView>::empty();
    let k = law_items_are_taken_in_order(s, log);
    let w = ScriptState { waiting: WaitingView::Nothing, ..first_turn(script).state };
    assert(w.todo.len() == 0);
    let j = match event.error() {
        Some(e) => {
            law_errors_are_judged(c.err, e@, w, log);
            on_err(c.err, e@, w, log)
        },
        None => {
            law_successes_are_judged(c.ok, event, w, log);
            on_ok(c.ok, event, w, log)
        },
    };
    if j.judgement is Go {
        law_todo_is_kept(c.ok, c.err, event, w, log);
        let m = law_items_are_taken_in_order(j.state, j.log);
    }
}

/// The answer finds an expression safe, or not.
pub open spec fn finds(event: Event, safe: bool) -> bool {
    event matches Event::Validation(Ok(r)) && r.data.is_safe == safe
}

/// The error says the text.
pub open spec fn says(event: Event, text: Seq<char>) -> bool {
    event.error() is Some && has_text(event.error()->0@.message, text)
}

/// The error, or the raw response that it holds, says the text.
pub open spec fn says_or_shows(event: Event, text: Seq<char>) -> bool {
    says(event, text) || (event.error() is Some && event.error()->0@.raw_response is Some
        && has_text(event.error()->0@.raw_response->0, text))
}

/// The daemon passes for its health exactly where it says that it is healthy.
pub proof fn law_health(event: Event)
    requires
        event.spec_kind() == EventKind::Health,
    ensures
        asks_for(health_check_script(), ActionView::Health),
        ends_well(health_check_script(), event) <==> event == Event::Health(Ok(true)),
        ends_badly(health_check_script(), event) <==> !ends_well(health_check_script(), event),
{
    lemma_one_call(health_check_script(), health_check_script()[0]->Call_0, event);
}

/// The status is passed exactly where there is one.
pub proof fn law_status(event: Event)
    requires
        event.spec_kind() == EventKind::Status,
    ensures
        asks_for(get_status_script(), ActionView::GetStatus),
        ends_well(get_status_script(), event) <==> succeeds(event),
        ends_badly(get_status_script(), event) <==> !ends_well(get_status_script(), event),
{
    lemma_one_call(get_status_script(), get_status_script()[0]->Call_0, event);
}

/// Waking is passed exactly where it is answered.
pub proof fn law_waking(event: Event)
    requires
        event.spec_kind() == EventKind::Text,
    ensures
        asks_for(wake_script(), ActionView::Wake),
        ends_well(wake_script(), event) <==> succeeds(event),
        ends_badly(wake_script(), event) <==> !ends_well(wake_script(), event),
{
    lemma_one_call(wake_script(), wake_script()[0]->Call_0, event);
}

/// Putting the daemon to sleep is passed exactly where it is answered.
pub proof fn law_sleeping(event: Event)
    requires
        event.spec_kind() == EventKind::Text,
    ensures
        asks_for(sleep_script(), ActionView::Sleep),
        ends_well(sleep_script(), event) <==> succeeds(event),
        ends_badly(sleep_script(), event) <==> !ends_well(sleep_script(), event),
{
    lemma_one_call(sleep_script(), sleep_script()[0]->Call_0, event);
}

/// Listing the connections is passed exactly where there is a list.
pub proof fn law_connection_list(event: Event)
    requires
        event.spec_kind() == EventKind::Connections,
    ensures
        asks_for(list_connections_script(), ActionView::ListConnections),
        ends_well(list_connections_script(), event) <==> succeeds(event),
        ends_badly(list_connections_script(), event) <==> !ends_well(list_connections_script(), event),
{
    lemma_one_call(list_connections_script(), list_connections_script()[0]->Call_0, event);
}

/// Listing the metrics is passed exactly where there is a list.
pub proof fn law_metric_list(event: Event)
    requires
        event.spec_kind() == EventKind::Metrics,
    ensures
        asks_for(list_metrics_script(), ActionView::ListMetrics),
        ends_well(list_metrics_script(), event) <==> succeeds(event),
        ends_badly(list_metrics_script(), event) <==> !ends_well(list_metrics_script(), event),
{
    lemma_one_call(list_metrics_script(), list_metrics_script()[0]->Call_0, event);
}

/// Asking for a metric that does not exist is passed with every answer.
pub proof fn law_unknown_metric(event: Event)
    requires
        event.spec_kind() == EventKind::Metric,
    ensures
        asks_for(get_metric_nonexistent_script(), ActionView::GetMetric("nonexistent"@)),
        ends_well(get_metric_nonexistent_script(), event) <==> true,
        ends_badly(get_metric_nonexistent_script(), event) <==> !ends_well(get_metric_nonexistent_script(), event),
{
    lemma_one_call(get_metric_nonexistent_script(), get_metric_nonexistent_script()[0]->Call_0, event);
}

/// Listing the groups is passed exactly where there is a list.
pub proof fn law_group_list(event: Event)
    requires
        event.spec_kind() == EventKind::Groups,
    ensures
        asks_for(list_groups_script(), ActionView::ListGroups),
        ends_well(list_groups_script(), event) <==> succeeds(event),
        ends_badly(list_groups_script(), event) <==> !ends_well(list_groups_script(), event),
{
    lemma_one_call(list_groups_script(), list_groups_script()[0]->Call_0, event);
}

/// Enabling a group is passed exactly where it is answered with a number.
pub proof fn law_enabling_a_group(event: Event)
    requires
        event.spec_kind() == EventKind::Count,
    ensures
        asks_for(enable_group_script(), ActionView::EnableGroup("test_group"@)),
        ends_well(enable_group_script(), event) <==> succeeds(event),
        ends_badly(enable_group_script(), event) <==> !ends_well(enable_group_script(), event),
{
    lemma_one_call(enable_group_script(), enable_group_script()[0]->Call_0, event);
}

/// Disabling a group is passed exactly where it is answered with a number.
pub proof fn law_disabling_a_group(event: Event)
    requires
        event.spec_kind() == EventKind::Count,
    ensures
        asks_for(disable_group_script(), ActionView::DisableGroup("test_group"@)),
        ends_well(disable_group_script(), event) <==> succeeds(event),
        ends_badly(disable_group_script(), event) <==> !ends_well(disable_group_script(), event),
{
    lemma_one_call(disable_group_script(), disable_group_script()[0]->Call_0, event);
}

/// A harmless Python expression has to be found safe.
pub proof fn law_safe_python(event: Event)
    requires
        event.spec_kind() == EventKind::Validation,
    ensures
        asks_for(validate_safe_expression_script(), ActionView::ValidateExpression("user.id"@, "python"@)),
        ends_well(validate_safe_expression_script(), event) <==> finds(event, true),
        ends_badly(validate_safe_expression_script(), event) <==> !ends_well(validate_safe_expression_script(), event),
{
    lemma_one_call(validate_safe_expression_script(), validate_safe_expression_script()[0]->Call_0, event);
}

/// A dangerous Python expression has to be found unsafe.
pub proof fn law_unsafe_python(event: Event)
    requires
        event.spec_kind() == EventKind::Validation,
    ensures
        asks_for(validate_unsafe_expression_script(), ActionView::ValidateExpression("eval('bad')"@, "python"@)),
        ends_well(validate_unsafe_expression_script(), event) <==> finds(event, false),
        ends_badly(validate_unsafe_expression_script(), event) <==> !ends_well(validate_unsafe_expression_script(), event),
{
    lemma_one_call(validate_unsafe_expression_script(), validate_unsafe_expression_script()[0]->Call_0, event);
}

/// A harmless Go expression has to be found safe.
pub proof fn law_safe_go(event: Event)
    requires
        event.spec_kind() == EventKind::Validation,
    ensures
        asks_for(validate_safe_go_expression_script(), ActionView::ValidateExpression("len(items)"@, "go"@)),
        ends_well(validate_safe_go_expression_script(), event) <==> finds(event, true),
        ends_badly(validate_safe_go_expression_script(), event) <==> !ends_well(validate_safe_go_expression_script(), event),
{
    lemma_one_call(validate_safe_go_expression_script(), validate_safe_go_expression_script()[0]->Call_0, event);
}

/// A dangerous Go expression has to be found unsafe.
pub proof fn law_unsafe_go(event: Event)
    requires
        event.spec_kind() == EventKind::Validation,
    ensures
        asks_for(validate_unsafe_go_expression_script(), ActionView::ValidateExpression("exec.Command(\"ls\")"@, "go"@)),
        ends_well(validate_unsafe_go_expression_script(), event) <==> finds(event, false),
        ends_badly(validate_unsafe_go_expression_script(), event) <==> !ends_well(validate_unsafe_go_expression_script(), event),
{
    lemma_one_call(validate_unsafe_go_expression_script(), validate_unsafe_go_expression_script()[0]->Call_0, event);
}

/// A harmless Rust expression has to be found safe.
pub proof fn law_safe_rust(event: Event)
    requires
        event.spec_kind() == EventKind::Validation,
    ensures
        asks_for(validate_safe_rust_expression_script(), ActionView::ValidateExpression("items.len()"@, "rust"@)),
        ends_well(validate_safe_rust_expression_script(), event) <==> finds(event, true),
        ends_badly(validate_safe_rust_expression_script(), event) <==> !ends_well(validate_safe_rust_expression_script(), event),
{
    lemma_one_call(validate_safe_rust_expression_script(), validate_safe_rust_expression_script()[0]->Call_0, event);
}

/// A dangerous Rust expression has to be found unsafe.
pub proof fn law_unsafe_rust(event: Event)
    requires
        event.spec_kind() == EventKind::Validation,
    ensures
        asks_for(validate_unsafe_rust_expression_script(), ActionView::ValidateExpression(
                "std::fs::read_to_string(\"config.txt\")"@,
                "rust"@,
            )),
        ends_well(validate_unsafe_rust_expression_script(), event) <==> finds(event, false),
        ends_badly(validate_unsafe_rust_expression_script(), event) <==> !ends_well(validate_unsafe_rust_expression_script(), event),
{
    lemma_one_call(validate_unsafe_rust_expression_script(), validate_unsafe_rust_expression_script()[0]->Call_0, event);
}

/// Getting the configuration is passed exactly where it is answered.
pub proof fn law_config(event: Event)
    requires
        event.spec_kind() == EventKind::Text,
    ensures
        asks_for(get_config_script(), ActionView::GetConfig),
        ends_well(get_config_script(), event) <==> succeeds(event),
        ends_badly(get_config_script(), event) <==> !ends_well(get_config_script(), event),
{
    lemma_one_call(get_config_script(), get_config_script()[0]->Call_0, event);
}

/// Asking for the events of a metric that does not exist is passed with every answer.
pub proof fn law_events_of_unknown_metric(event: Event)
    requires
        event.spec_kind() == EventKind::Events,
    ensures
        asks_for(query_events_nonexistent_script(), ActionView::QueryEvents("test"@, 10)),
        ends_well(query_events_nonexistent_script(), event) <==> true,
        ends_badly(query_events_nonexistent_script(), event) <==> !ends_well(query_events_nonexistent_script(), event),
{
    lemma_one_call(query_events_nonexistent_script(), query_events_nonexistent_script()[0]->Call_0, event);
}

/// Inspecting a file around a line is passed exactly where it is answered.
pub proof fn law_file_inspection(event: Event)
    requires
        event.spec_kind() == EventKind::Text,
    ensures
        asks_for(inspect_file_script(), ActionView::InspectFile(
                "fixtures/python/detrix_example_app.py"@,
                Some(10),
                None,
            )),
        ends_well(inspect_file_script(), event) <==> succeeds(event),
        ends_badly(inspect_file_script(), event) <==> !ends_well(inspect_file_script(), event),
{
    lemma_one_call(inspect_file_script(), inspect_file_script()[0]->Call_0, event);
}

/// Looking for a variable in a file is passed exactly where it is answered.
pub proof fn law_variable_inspection(event: Event)
    requires
        event.spec_kind() == EventKind::Text,
    ensures
        asks_for(inspect_file_with_variable_script(), ActionView::InspectFile(
                "fixtures/python/detrix_example_app.py"@,
                None,
                Some("price"@),
            )),
        ends_well(inspect_file_with_variable_script(), event) <==> succeeds(event),
        ends_badly(inspect_file_with_variable_script(), event) <==> !ends_well(inspect_file_with_variable_script(), event),
{
    lemma_one_call(inspect_file_with_variable_script(), inspect_file_with_variable_script()[0]->Call_0, event);
}

/// Updating the configuration, which is not kept, is passed where it is done and where the error
/// says that it is not offered.
pub proof fn law_config_update(event: Event)
    requires
        event.spec_kind() == EventKind::Done,
    ensures
        asks_for(update_config_script(), ActionView::UpdateConfig("[server]\nhttp_port = 8080\n"@, false)),
        ends_well(update_config_script(), event) <==> succeeds(event) || says(event, "unimplemented"@) || says(event, "not supported"@),
        ends_badly(update_config_script(), event) <==> !ends_well(update_config_script(), event),
{
    lemma_one_call(update_config_script(), update_config_script()[0]->Call_0, event);
}

/// Reloading the configuration is passed where it is done and where the error, or its raw response,
/// says that there is no configuration.
pub proof fn law_config_reload(event: Event)
    requires
        event.spec_kind() == EventKind::Done,
    ensures
        asks_for(reload_config_script(), ActionView::ReloadConfig),
        ends_well(reload_config_script(), event) <==> succeeds(event) || says_or_shows(event, "not found"@)
            || says_or_shows(event, "No config"@) || says_or_shows(event, "not configured"@),
        ends_badly(reload_config_script(), event) <==> !ends_well(reload_config_script(), event),
{
    lemma_one_call(reload_config_script(), reload_config_script()[0]->Call_0, event);
}

/// Creating a connection goes to the port of this machine, for Python, and is passed exactly where
/// one is made.
pub proof fn law_creating_a_connection(port: u16, event: Event)
    requires
        event.spec_kind() == EventKind::Connection,
    ensures
        asks_for(create_connection_script(port), ActionView::CreateConnection("127.0.0.1"@, port, "python"@, None)),
        ends_well(create_connection_script(port), event) <==> succeeds(event),
        ends_badly(create_connection_script(port), event) <==> !ends_well(create_connection_script(port), event),
{
    lemma_one_call(create_connection_script(port), create_connection_script(port)[0]->Call_0, event);
}

/// Getting a connection asks for its id and is passed exactly where it is answered.
pub proof fn law_getting_a_connection(id: Seq<char>, event: Event)
    requires
        event.spec_kind() == EventKind::Connection,
    ensures
        asks_for(get_connection_script(id), ActionView::GetConnection(id)),
        ends_well(get_connection_script(id), event) <==> succeeds(event),
        ends_badly(get_connection_script(id), event) <==> !ends_well(get_connection_script(id), event),
{
    lemma_one_call(get_connection_script(id), get_connection_script(id)[0]->Call_0, event);
}

/// Closing a connection asks for its id and is passed exactly where it is done.
pub proof fn law_closing_a_connection(id: Seq<char>, event: Event)
    requires
        event.spec_kind() == EventKind::Done,
    ensures
        asks_for(close_connection_script(id), ActionView::CloseConnection(id)),
        ends_well(close_connection_script(id), event) <==> succeeds(event),
        ends_badly(close_connection_script(id), event) <==> !ends_well(close_connection_script(id), event),
{
    lemma_one_call(close_connection_script(id), close_connection_script(id)[0]->Call_0, event);
}

/// Removing a metric asks for its name and is passed exactly where it is done.
pub proof fn law_removing_a_metric(name: Seq<char>, event: Event)
    requires
        event.spec_kind() == EventKind::Done,
    ensures
        asks_for(remove_metric_script(name), ActionView::RemoveMetric(name)),
        ends_well(remove_metric_script(name), event) <==> succeeds(event),
        ends_badly(remove_metric_script(name), event) <==> !ends_well(remove_metric_script(name), event),
{
    lemma_one_call(remove_metric_script(name), remove_metric_script(name)[0]->Call_0, event);
}

/// Enabling or disabling a metric asks for its name and is passed exactly where it is done.
pub proof fn law_toggling_a_metric(name: Seq<char>, enabled: bool, event: Event)
    requires
        event.spec_kind() == EventKind::Done,
    ensures
        asks_for(toggle_metric_script(name, enabled), ActionView::ToggleMetric(name, enabled)),
        ends_well(toggle_metric_script(name, enabled), event) <==> succeeds(event),
        ends_badly(toggle_metric_script(name, enabled), event) <==> !ends_well(toggle_metric_script(name, enabled), event),
{
    lemma_one_call(toggle_metric_script(name, enabled), toggle_metric_script(name, enabled)[0]->Call_0, event);
}

/// The usage statistics are passed exactly where they are answered.
pub proof fn law_usage(event: Event)
    requires
        event.spec_kind() == EventKind::Usage,
    ensures
        asks_for(get_mcp_usage_script(), ActionView::GetMcpUsage),
        ends_well(get_mcp_usage_script(), event) <==> succeeds(event),
        ends_badly(get_mcp_usage_script(), event) <==> !ends_well(get_mcp_usage_script(), event),
{
    lemma_one_call(get_mcp_usage_script(), get_mcp_usage_script()[0]->Call_0, event);
}

/// Adding a metric asks for its name, its location, its expression and its connection, and is
/// passed exactly where it is added.
pub proof fn law_adding_a_metric(
    name: Seq<char>,
    location: Seq<char>,
    expression: Seq<char>,
    id: Seq<char>,
    event: Event,
)
    requires
        event.spec_kind() == EventKind::Text,
    ensures
        ({
            let script = add_metric_script(name, location, expression, id);
            &&& first_turn(script).next matches ScriptNextView::Ask(ActionView::AddMetric(r))
                && r.name == name && r.location == location && r.expression == expression
                && r.expressions.len() == 1 && r.expressions[0] == expression && r.connection_id
                == id
            &&& ends_well(script, event) <==> succeeds(event)
            &&& ends_badly(script, event) <==> !succeeds(event)
        }),
{
    let script = add_metric_script(name, location, expression, id);
    lemma_one_call(script, script[0]->Call_0, event);
}

// ---------------------------------------------------------------------------
// Longer scenarios
// ---------------------------------------------------------------------------

/// The item makes a call that asks for the action, as it is written down.
pub open spec fn calls(item: ItemView, action: ActionView) -> bool {
    item matches ItemView::Call(c) && c.action == action
}

/// The item asks to add a metric.
pub open spec fn adds(item: ItemView) -> Option<AddMetricRequestView> {
    match item {
        ItemView::Call(c) => match c.action {
            ActionView::AddMetric(r) => Some(r),
            _ => None,
        },
        _ => None,
    }
}

/// An item behind that at `i` asks to remove the metric.
pub open spec fn removes_later(script: Seq<ItemView>, i: int, name: Seq<char>) -> bool {
    exists|j: int|
        i < j < script.len() && #[trigger] calls(script[j], ActionView::RemoveMetric(name))
}

/// Every metric that a script asks to add it asks to remove later.
pub open spec fn removes_what_it_adds(script: Seq<ItemView>) -> bool {
    forall|i: int|
        0 <= i < script.len() ==> (adds(#[trigger] script[i]) matches Some(r) ==> removes_later(
            script,
            i,
            r.name,
        ))
}

/// The item asks to open a connection.
pub open spec fn connects(item: ItemView) -> bool {
    item matches ItemView::Call(c) && c.action is CreateConnection
}

/// The item asks to close the connection of the script.
pub open spec fn closes(item: ItemView) -> bool {
    item matches ItemView::Call(c) && c.action is CloseConnection && c.bind
}

/// Where a script opens a connection, its last call closes it, and a failing close or remove at the
/// end does not matter to what the calls before it found.
pub open spec fn closes_what_it_opens(script: Seq<ItemView>) -> bool {
    forall|i: int|
        0 <= i < script.len() && connects(#[trigger] script[i]) ==> exists|j: int|
            i < j < script.len() && #[trigger] closes(script[j])
}

/// The scenario for the operations on groups adds two metrics, disabled, to a group, expects that
/// the group has two metrics and that enabling it enables two, and removes both metrics and closes
/// its connection in the end.
pub proof fn law_group_operations(port: u16, path: Seq<char>)
    ensures
        ({
            let script = group_operations_script(port, path);
            let group = "test_group_ops"@;
            &&& removes_what_it_adds(script)
            &&& closes_what_it_opens(script)
            &&& forall|i: int|
                0 <= i < script.len() ==> (adds(#[trigger] script[i]) matches Some(r) ==> r.group
                    == Some(group) && r.enabled == Some(false))
            &&& exists|i: int, j: int|
                0 <= i < j < script.len() && (#[trigger] adds(script[i])) is Some && (#[trigger] adds(
                    script[j],
                )) is Some && adds(script[i])->0.name != adds(script[j])->0.name
            &&& forall|i: int|
                0 <= i < script.len() ==> (#[trigger] script[i] matches ItemView::Call(c) ==> {
                    &&& c.action is EnableGroup ==> c.action == ActionView::EnableGroup(group) && (
                    c.ok matches Rule::GroupEnabled { expected } && expected == 2)
                    &&& c.action is DisableGroup ==> c.action == ActionView::DisableGroup(group)
                    &&& c.ok matches Rule::GroupChecked { group: g, expected } ==> g == group
                        && expected == 2
                    &&& c.ok matches Rule::GroupVerified { group: g } ==> g == group
                })
            &&& exists|i: int|
                0 <= i < script.len() && #[trigger] calls(
                    script[i],
                    ActionView::EnableGroup(group),
                )
            &&& exists|i: int|
                0 <= i < script.len() && #[trigger] calls(
                    script[i],
                    ActionView::DisableGroup(group),
                )
        }),
{
    let script = group_operations_script(port, path);
    let group = "test_group_ops"@;
    reveal_strlit("group_test_metric_1");
    reveal_strlit("group_test_metric_2");
    assert("group_test_metric_1"@[18] == '1');
    assert("group_test_metric_2"@[18] == '2');
    assert(adds(script[4]) is Some && adds(script[5]) is Some);
    assert(calls(script[8], ActionView::EnableGroup(group)));
    assert(calls(script[11], ActionView::DisableGroup(group)));
    assert(calls(script[13], ActionView::RemoveMetric("group_test_metric_1"@)));
    assert(calls(script[14], ActionView::RemoveMetric("group_test_metric_2"@)));
    assert(closes(script[15]));
}

/// The scenario for several expressions adds one metric with three expressions, expects that it is
/// listed with three and that its events hold a value for each of them, in their order, and
/// removes the metric and closes its connection in the end.
pub proof fn law_multi_expression(port: u16, path: Seq<char>)
    ensures
        ({
            let script = multi_expr_metric_script(port, path);
            &&& removes_what_it_adds(script)
            &&& closes_what_it_opens(script)
            &&& exists|i: int| 0 <= i < script.len() && (#[trigger] adds(script[i])) is Some
            &&& forall|i: int, j: int|
                0 <= i < script.len() && 0 <= j < script.len() && (#[trigger] adds(script[i]))
                    is Some ==> (#[trigger] script[j] matches ItemView::Call(c) ==> {
                    let r = adds(script[i])->0;
                    &&& r.expressions.len() == 3
                    &&& c.ok matches Rule::MultiListed { metric } ==> metric == r.name
                    &&& c.ok matches Rule::MultiVerified { expressions } ==> expressions
                        == r.expressions && c.action == ActionView::QueryEvents(r.name, 10)
                })
            &&& exists|j: int|
                0 <= j < script.len() && (#[trigger] script[j] matches ItemView::Call(c)
                    && c.ok is MultiListed && c.action is ListMetrics)
            &&& exists|j: int|
                0 <= j < script.len() && (#[trigger] script[j] matches ItemView::Call(c)
                    && c.ok is MultiVerified)
        }),
{
    let script = multi_expr_metric_script(port, path);
    assert(adds(script[4]) is Some);
    assert(script[7] is Call && script[7]->Call_0.ok is MultiListed);
    assert(script[11] is Call && script[11]->Call_0.ok is MultiVerified);
    assert(calls(script[13], ActionView::RemoveMetric("multi_expr_test"@)));
    assert(closes(script[14]));
}

/// The scenarios on the life of a metric and on its events remove the metric that they add; those
/// on the events, on the life of a connection and on the selection of a connection close the
/// connection that they open.
pub proof fn law_nothing_is_left_behind(port: u16, path: Seq<char>)
    ensures
        removes_what_it_adds(metric_crud_script(port, path)),
        removes_what_it_adds(query_events_script(port, path)),
        closes_what_it_opens(query_events_script(port, path)),
        closes_what_it_opens(connection_lifecycle_script(port)),
        closes_what_it_opens(observe_auto_connection_on_mcp_script(port, path)),
        closes_what_it_opens(observe_workflow_on_mcp_script(port, path)),
        closes_what_it_opens(comprehensive_coverage_script(port, path)),
{
    let crud = metric_crud_script(port, path);
    assert(calls(crud[8], ActionView::RemoveMetric("crud_test_metric"@)));
    let events = query_events_script(port, path);
    assert(calls(events[5], ActionView::RemoveMetric("query_events_test"@)));
    assert(closes(events[6]));
    assert(closes(connection_lifecycle_script(port)[5]));
    assert(closes(observe_auto_connection_on_mcp_script(port, path)[5]));
    let observe = observe_workflow_on_mcp_script(port, path);
    assert(closes(observe[14]));
    let all = comprehensive_coverage_script(port, path);
    assert(closes(all[28]));
}

/// The comprehensive scenario ends with the verdict, and every call before it puts its error on the
/// list of failures: no error ends it early, and none is passed over.
pub proof fn law_coverage_judges_every_call(port: u16, path: Seq<char>)
    ensures
        ({
            let script = comprehensive_coverage_script(port, path);
            &&& script.len() > 0
            &&& script.last() is Verdict
            &&& forall|i: int|
                0 <= i < script.len() ==> (#[trigger] script[i] matches ItemView::Call(c)
                    ==> c.err is Probe && !(c.ok is ErrorExpected) && is_harmless(c))
        }),
{
}

/// No successful answer to the call ends the script.
pub open spec fn is_harmless(c: CallView) -> bool {
    c.ok is Nothing || c.ok is ConnectedProbe || c.ok is ProbeMetricAdded
}

/// A call loses nothing where it is answered with an error.
pub open spec fn takes_errors(item: ItemView) -> bool {
    forall|e: ApiErrorView| #[trigger] is_tolerated(item->Call_0.err, e)
}

/// What does not exist is asked for, closed, validated: errors are what is expected, and end
/// nothing. A connection that does not exist must not be found.
pub proof fn law_error_handling(event: Event)
    ensures
        ({
            let script = error_handling_script();
            &&& forall|i: int|
                0 <= i < script.len() && (#[trigger] script[i]) is Call ==> takes_errors(script[i])
            &&& calls(script[1], ActionView::GetConnection("nonexistent_conn_12345"@))
                && !is_accepted(script[1]->Call_0.ok, event)
            &&& calls(script[2], ActionView::GetMetric("nonexistent_metric_xyz"@)) && is_accepted(
                script[2]->Call_0.ok,
                event,
            )
            &&& calls(script[3], ActionView::ValidateExpression(""@, "python"@)) && is_accepted(
                script[3]->Call_0.ok,
                event,
            )
            &&& calls(script[4], ActionView::CloseConnection("fake_connection_id"@)) && is_accepted(
                script[4]->Call_0.ok,
                event,
            )
            &&& calls(script[5], ActionView::ValidateConfig("invalid{{{{"@)) && is_accepted(
                script[5]->Call_0.ok,
                event,
            )
        }),
{
}

/// Of ten health checks at once at least eight must succeed; the other requests at once are only
/// counted.
pub proof fn law_concurrent_requests(succeeded: usize)
    ensures
        ({
            let script = concurrent_requests_script();
            let event = Event::Burst { succeeded };
            &&& script[1]->Call_0.action matches ActionView::Burst(path, n, _) && path == "/health"@
                && n == 10
            &&& is_accepted(script[1]->Call_0.ok, event) <==> succeeded >= 8
            &&& script[2]->Call_0.action matches ActionView::Burst(path, n, _) && path
                == "/api/v1/metrics"@ && n == 5
            &&& is_accepted(script[2]->Call_0.ok, event)
            &&& script[3]->Call_0.action matches ActionView::Burst(path, n, _) && path
                == "/api/v1/status"@ && n == 5
            &&& is_accepted(script[3]->Call_0.ok, event)
        }),
{
}

/// Tools that only MCP has are tried on MCP alone; on every other backend nothing is asked for.
pub proof fn law_mcp_only(backend: BackendType, port: u16, path: Seq<char>)
    ensures
        ({
            let workflow = observe_workflow_script(backend, port, path);
            let automatic = observe_auto_connection_script(backend, port, path);
            if backend == BackendType::Mcp {
                &&& workflow == observe_workflow_on_mcp_script(port, path)
                &&& automatic == observe_auto_connection_on_mcp_script(port, path)
            } else {
                &&& forall|i: int| 0 <= i < workflow.len() ==> !((#[trigger] workflow[i]) is Call)
                &&& forall|i: int| 0 <= i < automatic.len() ==> !((#[trigger] automatic[i]) is Call)
            }
        }),
{
}

/// Validating a configuration is passed exactly where it is answered.
pub proof fn law_config_validation(event: Event)
    requires
        event.spec_kind() == EventKind::Valid,
    ensures
        first_turn(validate_config_script()).next matches ScriptNextView::Ask(action) && action
            is ValidateConfig,
        ends_well(validate_config_script(), event) <==> succeeds(event),
        ends_badly(validate_config_script(), event) <==> !succeeds(event),
{
    lemma_one_call(validate_config_script(), validate_config_script()[0]->Call_0, event);
}

/// Events are streamed over gRPC and WebSocket, and refused by every other backend.
pub proof fn law_streaming(backend: BackendType)
    ensures
        streaming_refusal(backend) is None <==> backend == BackendType::Grpc || backend
            == BackendType::WebSocket,
{
}

} // verus!
