//! What the tool calls of the MCP backend say, and which answers are errors.

use vstd::prelude::*;

use crate::client::{
    AddMetricRequestView, ApiErrorView, EnableFromDiffRequestView, ObserveRequestView,
};
use crate::exchange::{ActionView, Event};
use crate::json::{
    holds_flag, holds_number, holds_text, holds_texts, lemma_field_absent, lemma_field_at,
    lemma_field_with_entry, number_view, strings_view, JsonView,
};
use crate::mcp::answers::{mcp_answer_is, McpReading};
use crate::mcp::calls::tool_of;
use crate::mcp::{answer_of, content_text_or_empty, content_texts, first_number, tool_request};
use crate::text::{has_text, outline, parsed_unsigned, words};

verus! {

broadcast use lemma_field_with_entry;

/// An answer reports that its tool failed: its result has `isError` set.
pub open spec fn tool_failed(json: JsonView) -> bool {
    match json.field("result"@) {
        Some(result) => result.field("isError"@) == Some(JsonView::Bool(true)),
        None => false,
    }
}

/// A value that can be read is a success exactly where it has no `error` and its tool did not
/// fail, and then it is handed on unchanged. Every error keeps the text that was received and has
/// no code.
pub proof fn law_answers_that_succeed(json: JsonView, raw: Seq<char>)
    ensures
        answer_of(Ok(json), raw) is Ok <==> json.field("error"@) is None && !tool_failed(json),
        answer_of(Ok(json), raw) matches Ok(v) ==> v == json,
        answer_of(Ok(json), raw) matches Err(e) ==> e.raw_response == Some(raw) && e.code is None,
{
}

/// The text of the first item of the content of an answer, where there is one.
pub open spec fn first_text(json: JsonView) -> Option<Seq<char>> {
    match json.field("result"@)->0.field("content"@) {
        Some(JsonView::Array(items)) => if items.len() > 0 {
            match items[0].field("text"@) {
                Some(JsonView::Str(text)) => Some(text),
                _ => None,
            }
        } else {
            None
        },
        _ => None,
    }
}

/// An answer whose tool failed is never a success: without an `error` of its own, its message is
/// the text of the first item of its content, or `MCP error` where there is no such text.
pub proof fn law_failed_tools_are_errors(json: JsonView, raw: Seq<char>)
    requires
        tool_failed(json),
    ensures
        answer_of(Ok(json), raw) is Err,
        json.field("error"@) is None ==> answer_of(Ok(json), raw)->Err_0.message == (
        match first_text(json) {
            Some(text) => text,
            None => "MCP error"@,
        }),
{
}

/// An answer with an `error` is never a success: its message is that of the error, or
/// `Unknown error` where the error has none.
pub proof fn law_reported_errors_are_errors(json: JsonView, raw: Seq<char>)
    requires
        json.field("error"@) is Some,
    ensures
        answer_of(Ok(json), raw) is Err,
        answer_of(Ok(json), raw)->Err_0.message == (match json.field("error"@)->0.field(
            "message"@,
        ) {
            Some(JsonView::Str(text)) => text,
            _ => "Unknown error"@,
        }),
{
}

/// A text that is no JSON is an error that says so and why, and keeps the text.
pub proof fn law_unreadable_answers_are_errors(why: Seq<char>, raw: Seq<char>)
    ensures
        answer_of(Err(why), raw) == Err::<JsonView, ApiErrorView>(
            ApiErrorView {
                message: "JSON parse error: "@ + why,
                code: None,
                raw_response: Some(raw),
            },
        ),
{
}

/// What tells the names apart.
proof fn lemma_names()
    ensures
        outline("name"@) == (4nat, 'n', 'e', 'm', 'e'),
        outline("location"@) == (8nat, 'l', 'n', 't', 'o'),
        outline("expressions"@) == (11nat, 'e', 's', 's', 'o'),
        outline("connection_id"@) == (13nat, 'c', 'd', 't', 'n'),
        outline("group"@) == (5nat, 'g', 'p', 'o', 'u'),
        outline("mode"@) == (4nat, 'm', 'e', 'd', 'e'),
        outline("enabled"@) == (7nat, 'e', 'd', 'b', 'e'),
        outline("capture_stack_trace"@) == (19nat, 'c', 'e', 't', 't'),
        outline("stack_trace_ttl"@) == (15nat, 's', 'l', 'r', '_'),
        outline("stack_trace_full"@) == (16nat, 's', 'l', 'a', 'f'),
        outline("stack_trace_head"@) == (16nat, 's', 'd', 'a', 'h'),
        outline("stack_trace_tail"@) == (16nat, 's', 'l', 'a', 't'),
        outline("capture_memory_snapshot"@) == (23nat, 'c', 't', 'o', 'a'),
        outline("snapshot_scope"@) == (14nat, 's', 'e', 't', 'c'),
        outline("snapshot_ttl"@) == (12nat, 's', 'l', 'o', 't'),
        outline("file"@) == (4nat, 'f', 'e', 'l', 'e'),
        outline("line"@) == (4nat, 'l', 'e', 'n', 'e'),
        outline("find_variable"@) == (13nat, 'f', 'e', 'a', 'a'),
        outline("ttl_seconds"@) == (11nat, 't', 's', 'e', 'n'),
        outline("diff"@) == (4nat, 'd', 'f', 'f', 'f'),
        outline("host"@) == (4nat, 'h', 't', 's', 't'),
        outline("port"@) == (4nat, 'p', 't', 'r', 't'),
        outline("language"@) == (8nat, 'l', 'e', 'u', 'g'),
        outline("program"@) == (7nat, 'p', 'm', 'g', 'a'),
        outline("format"@) == (6nat, 'f', 't', 'm', 'a'),
        outline("limit"@) == (5nat, 'l', 't', 'm', 'i'),
        outline("expression"@) == (10nat, 'e', 'n', 's', 'i'),
        outline("file_path"@) == (9nat, 'f', 'h', '_', 'a'),
        outline("config_toml"@) == (11nat, 'c', 'l', 'g', 'o'),
        outline("persist"@) == (7nat, 'p', 't', 's', 's'),
        outline("unacknowledged_only"@) == (19nat, 'u', 'y', 'e', '_'),
        outline("event_types"@) == (11nat, 'e', 's', '_', 'p'),
        outline("event_ids"@) == (9nat, 'e', 's', 't', 'i'),
        outline("jsonrpc"@) == (7nat, 'j', 'c', 'n', 'p'),
        outline("method"@) == (6nat, 'm', 'd', 'h', 'o'),
        outline("params"@) == (6nat, 'p', 's', 'a', 'm'),
        outline("id"@) == (2nat, 'i', 'd', 'd', 'd'),
        outline("arguments"@) == (9nat, 'a', 's', 'm', 'n'),
{
    reveal_strlit("name");
    reveal_strlit("location");
    reveal_strlit("expressions");
    reveal_strlit("connection_id");
    reveal_strlit("group");
    reveal_strlit("mode");
    reveal_strlit("enabled");
    reveal_strlit("capture_stack_trace");
    reveal_strlit("stack_trace_ttl");
    reveal_strlit("stack_trace_full");
    reveal_strlit("stack_trace_head");
    reveal_strlit("stack_trace_tail");
    reveal_strlit("capture_memory_snapshot");
    reveal_strlit("snapshot_scope");
    reveal_strlit("snapshot_ttl");
    reveal_strlit("file");
    reveal_strlit("line");
    reveal_strlit("find_variable");
    reveal_strlit("ttl_seconds");
    reveal_strlit("diff");
    reveal_strlit("host");
    reveal_strlit("port");
    reveal_strlit("language");
    reveal_strlit("program");
    reveal_strlit("format");
    reveal_strlit("limit");
    reveal_strlit("expression");
    reveal_strlit("file_path");
    reveal_strlit("config_toml");
    reveal_strlit("persist");
    reveal_strlit("unacknowledged_only");
    reveal_strlit("event_types");
    reveal_strlit("event_ids");
    reveal_strlit("jsonrpc");
    reveal_strlit("method");
    reveal_strlit("params");
    reveal_strlit("id");
    reveal_strlit("arguments");
}

/// The action calls the tool with an object.
pub open spec fn calls_tool(action: ActionView, tool: Seq<char>) -> bool {
    match tool_of(action) {
        Some((name, arguments)) => name == tool && arguments is Object,
        None => false,
    }
}

/// What the action hands to its tool.
pub open spec fn handed(action: ActionView) -> JsonView {
    match tool_of(action) {
        Some((_, arguments)) => arguments,
        None => JsonView::Null,
    }
}

/// The tool of the action takes nothing.
pub open spec fn hands_nothing(action: ActionView) -> bool {
    handed(action)->Object_0.len() == 0
}

/// The request that calls a tool is a JSON-RPC request for `tools/call` that names the tool and
/// hands it the arguments.
pub proof fn law_tool_requests(tool: Seq<char>, arguments: JsonView)
    ensures
        ({
            let request = tool_request(tool, arguments);
            &&& holds_text(request, "jsonrpc"@, Some("2.0"@))
            &&& holds_text(request, "method"@, Some("tools/call"@))
            &&& holds_number(request, "id"@, Some(1))
            &&& request.field("params"@) matches Some(params) && holds_text(
                params,
                "name"@,
                Some(tool),
            ) && params.field("arguments"@) == Some(arguments)
        }),
{
    lemma_names();
    let e = tool_request(tool, arguments)->Object_0;
    lemma_field_at(e, "jsonrpc"@, 0);
    lemma_field_at(e, "method"@, 1);
    lemma_field_at(e, "params"@, 2);
    lemma_field_at(e, "id"@, 3);
    let p = e[2].1->Object_0;
    lemma_field_at(p, "name"@, 0);
    lemma_field_at(p, "arguments"@, 1);
}

/// Groups are enabled, disabled and listed by tools of their own, which take the name of the
/// group.
pub proof fn law_group_tools(group: Seq<char>)
    ensures
        calls_tool(ActionView::EnableGroup(group), "enable_group"@),
        holds_text(handed(ActionView::EnableGroup(group)), "group"@, Some(group)),
        calls_tool(ActionView::DisableGroup(group), "disable_group"@),
        holds_text(handed(ActionView::DisableGroup(group)), "group"@, Some(group)),
        calls_tool(ActionView::ListGroups, "list_groups"@),
        hands_nothing(ActionView::ListGroups),
{
    lemma_field_at(handed(ActionView::EnableGroup(group))->Object_0, "group"@, 0);
    lemma_field_at(handed(ActionView::DisableGroup(group))->Object_0, "group"@, 0);
}

/// Connections are created, closed, got and listed by tools of their own. Creating takes host,
/// port and language, and the program where there is one; closing and getting take the id.
pub proof fn law_connection_tools(
    id: Seq<char>,
    host: Seq<char>,
    port: u16,
    language: Seq<char>,
    program: Option<Seq<char>>,
)
    ensures
        calls_tool(
            ActionView::CreateConnection(host, port, language, program),
            "create_connection"@,
        ),
        ({
            let a = handed(ActionView::CreateConnection(host, port, language, program));
            &&& holds_text(a, "host"@, Some(host))
            &&& holds_number(a, "port"@, Some(port as int))
            &&& holds_text(a, "language"@, Some(language))
            &&& holds_text(a, "program"@, program)
        }),
        calls_tool(ActionView::CloseConnection(id), "close_connection"@),
        holds_text(handed(ActionView::CloseConnection(id)), "connection_id"@, Some(id)),
        calls_tool(ActionView::GetConnection(id), "get_connection"@),
        holds_text(handed(ActionView::GetConnection(id)), "connection_id"@, Some(id)),
        calls_tool(ActionView::ListConnections, "list_connections"@),
        hands_nothing(ActionView::ListConnections),
{
    lemma_names();
    let e = seq![
        ("host"@, JsonView::Str(host)),
        ("port"@, number_view(port as int)),
        ("language"@, JsonView::Str(language)),
    ];
    lemma_field_at(e, "host"@, 0);
    lemma_field_at(e, "port"@, 1);
    lemma_field_at(e, "language"@, 2);
    lemma_field_absent(e, "program"@);
    lemma_field_at(handed(ActionView::CloseConnection(id))->Object_0, "connection_id"@, 0);
    lemma_field_at(handed(ActionView::GetConnection(id))->Object_0, "connection_id"@, 0);
}

/// A metric is added by a tool that takes its name, its location, its expressions and its
/// connection, and its group, its mode and whether it is enabled where they are set.
#[verifier::rlimit(60)]
pub proof fn law_add_metric_tool(r: AddMetricRequestView)
    ensures
        calls_tool(ActionView::AddMetric(r), "add_metric"@),
        ({
            let a = handed(ActionView::AddMetric(r));
            &&& holds_text(a, "name"@, Some(r.name))
            &&& holds_text(a, "location"@, Some(r.location))
            &&& holds_texts(a, "expressions"@, r.expressions)
            &&& holds_text(a, "connection_id"@, Some(r.connection_id))
            &&& holds_text(a, "group"@, r.group)
            &&& holds_text(a, "mode"@, r.mode)
            &&& holds_flag(a, "enabled"@, r.enabled)
        }),
{
    lemma_names();
    let e = seq![
        ("name"@, JsonView::Str(r.name)),
        ("location"@, JsonView::Str(r.location)),
        ("expressions"@, strings_view(r.expressions)),
        ("connection_id"@, JsonView::Str(r.connection_id)),
    ];
    lemma_field_at(e, "name"@, 0);
    lemma_field_at(e, "location"@, 1);
    lemma_field_at(e, "expressions"@, 2);
    lemma_field_at(e, "connection_id"@, 3);
    lemma_field_absent(e, "group"@);
    lemma_field_absent(e, "mode"@);
    lemma_field_absent(e, "enabled"@);
}

/// What a metric captures of the stack is handed to the tool that adds it, each option under its own
/// name where it is set.
#[verifier::rlimit(60)]
pub proof fn law_add_metric_trace_options(r: AddMetricRequestView)
    ensures
        calls_tool(ActionView::AddMetric(r), "add_metric"@),
        ({
            let a = handed(ActionView::AddMetric(r));
            &&& holds_flag(a, "capture_stack_trace"@, r.capture_stack_trace)
            &&& holds_number(a, "stack_trace_ttl"@, whole_u64(r.stack_trace_ttl))
            &&& holds_flag(a, "stack_trace_full"@, r.stack_trace_full)
            &&& holds_number(a, "stack_trace_head"@, whole_u32(r.stack_trace_head))
            &&& holds_number(a, "stack_trace_tail"@, whole_u32(r.stack_trace_tail))
        }),
{
    lemma_names();
    let e = seq![
        ("name"@, JsonView::Str(r.name)),
        ("location"@, JsonView::Str(r.location)),
        ("expressions"@, strings_view(r.expressions)),
        ("connection_id"@, JsonView::Str(r.connection_id)),
    ];
    lemma_field_absent(e, "capture_stack_trace"@);
    lemma_field_absent(e, "stack_trace_ttl"@);
    lemma_field_absent(e, "stack_trace_full"@);
    lemma_field_absent(e, "stack_trace_head"@);
    lemma_field_absent(e, "stack_trace_tail"@);
}

/// What a metric captures of the memory is handed to the tool that adds it, each option under its
/// own name where it is set.
#[verifier::rlimit(60)]
pub proof fn law_add_metric_snapshot_options(r: AddMetricRequestView)
    ensures
        calls_tool(ActionView::AddMetric(r), "add_metric"@),
        ({
            let a = handed(ActionView::AddMetric(r));
            &&& holds_flag(a, "capture_memory_snapshot"@, r.capture_memory_snapshot)
            &&& holds_text(a, "snapshot_scope"@, r.snapshot_scope)
            &&& holds_number(a, "snapshot_ttl"@, whole_u64(r.snapshot_ttl))
        }),
{
    lemma_names();
    let e = seq![
        ("name"@, JsonView::Str(r.name)),
        ("location"@, JsonView::Str(r.location)),
        ("expressions"@, strings_view(r.expressions)),
        ("connection_id"@, JsonView::Str(r.connection_id)),
    ];
    lemma_field_absent(e, "capture_memory_snapshot"@);
    lemma_field_absent(e, "snapshot_scope"@);
    lemma_field_absent(e, "snapshot_ttl"@);
}

/// A number, where there is one.
pub open spec fn whole_u32(n: Option<u32>) -> Option<int> {
    if n is Some {
        Some(n->0 as int)
    } else {
        None
    }
}

/// A number, where there is one.
pub open spec fn whole_u64(n: Option<u64>) -> Option<int> {
    if n is Some {
        Some(n->0 as int)
    } else {
        None
    }
}

/// A number, where there is one.
pub open spec fn whole_i64(n: Option<i64>) -> Option<int> {
    if n is Some {
        Some(n->0 as int)
    } else {
        None
    }
}

/// An observation is asked for by a tool that takes the file, the expressions, and every option
/// that is set, under its own name.
pub proof fn law_observe_tool(r: ObserveRequestView)
    ensures
        calls_tool(ActionView::Observe(r), "observe"@),
        ({
            let a = handed(ActionView::Observe(r));
            &&& holds_text(a, "file"@, Some(r.file))
            &&& holds_texts(a, "expressions"@, r.expressions)
            &&& holds_number(a, "line"@, whole_u32(r.line))
            &&& holds_text(a, "connection_id"@, r.connection_id)
            &&& holds_text(a, "name"@, r.name)
            &&& holds_text(a, "find_variable"@, r.find_variable)
            &&& holds_text(a, "group"@, r.group)
            &&& holds_flag(a, "capture_stack_trace"@, r.capture_stack_trace)
            &&& holds_flag(a, "capture_memory_snapshot"@, r.capture_memory_snapshot)
            &&& holds_number(a, "ttl_seconds"@, whole_i64(r.ttl_seconds))
        }),
{
    lemma_names();
    let e = seq![("file"@, JsonView::Str(r.file)), ("expressions"@, strings_view(r.expressions))];
    lemma_field_at(e, "file"@, 0);
    lemma_field_at(e, "expressions"@, 1);
    lemma_field_absent(e, "line"@);
    lemma_field_absent(e, "connection_id"@);
    lemma_field_absent(e, "name"@);
    lemma_field_absent(e, "find_variable"@);
    lemma_field_absent(e, "group"@);
    lemma_field_absent(e, "capture_stack_trace"@);
    lemma_field_absent(e, "capture_memory_snapshot"@);
    lemma_field_absent(e, "ttl_seconds"@);
}

/// Metrics are enabled from a diff by a tool that takes the diff, and the connection, the group
/// and the time to live where they are given.
pub proof fn law_diff_tool(r: EnableFromDiffRequestView)
    ensures
        calls_tool(ActionView::EnableFromDiff(r), "enable_from_diff"@),
        ({
            let a = handed(ActionView::EnableFromDiff(r));
            &&& holds_text(a, "diff"@, Some(r.diff))
            &&& holds_text(a, "connection_id"@, r.connection_id)
            &&& holds_text(a, "group"@, r.group)
            &&& holds_number(a, "ttl_seconds"@, whole_i64(r.ttl_seconds))
        }),
{
    lemma_names();
    let e = seq![("diff"@, JsonView::Str(r.diff))];
    lemma_field_at(e, "diff"@, 0);
    lemma_field_absent(e, "connection_id"@);
    lemma_field_absent(e, "group"@);
    lemma_field_absent(e, "ttl_seconds"@);
}

/// A metric is removed, toggled, got and queried by its name, each by a tool of its own; toggling
/// takes whether it is to be enabled, a query the limit. Lists and queries ask for JSON.
pub proof fn law_metric_tools(name: Seq<char>, enabled: bool, limit: u32)
    ensures
        calls_tool(ActionView::RemoveMetric(name), "remove_metric"@),
        holds_text(handed(ActionView::RemoveMetric(name)), "name"@, Some(name)),
        calls_tool(ActionView::ToggleMetric(name, enabled), "toggle_metric"@),
        holds_text(handed(ActionView::ToggleMetric(name, enabled)), "name"@, Some(name)),
        holds_flag(handed(ActionView::ToggleMetric(name, enabled)), "enabled"@, Some(enabled)),
        calls_tool(ActionView::GetMetric(name), "get_metric"@),
        holds_text(handed(ActionView::GetMetric(name)), "name"@, Some(name)),
        calls_tool(ActionView::ListMetrics, "list_metrics"@),
        holds_text(handed(ActionView::ListMetrics), "format"@, Some("json"@)),
        calls_tool(ActionView::QueryEvents(name, limit), "query_metrics"@),
        holds_text(handed(ActionView::QueryEvents(name, limit)), "name"@, Some(name)),
        holds_number(handed(ActionView::QueryEvents(name, limit)), "limit"@, Some(limit as int)),
        holds_text(handed(ActionView::QueryEvents(name, limit)), "format"@, Some("json"@)),
{
    lemma_names();
    lemma_field_at(handed(ActionView::RemoveMetric(name))->Object_0, "name"@, 0);
    lemma_field_at(handed(ActionView::ToggleMetric(name, enabled))->Object_0, "name"@, 0);
    lemma_field_at(handed(ActionView::ToggleMetric(name, enabled))->Object_0, "enabled"@, 1);
    lemma_field_at(handed(ActionView::GetMetric(name))->Object_0, "name"@, 0);
    lemma_field_at(handed(ActionView::ListMetrics)->Object_0, "format"@, 0);
    let q = handed(ActionView::QueryEvents(name, limit))->Object_0;
    lemma_field_at(q, "name"@, 0);
    lemma_field_at(q, "limit"@, 1);
    lemma_field_at(q, "format"@, 2);
}

/// An expression is validated for its language; a file is inspected by its path, with the line
/// and the variable where they are given.
pub proof fn law_inspection_tools(
    text: Seq<char>,
    language: Seq<char>,
    line: Option<u32>,
    variable: Option<Seq<char>>,
)
    ensures
        calls_tool(ActionView::ValidateExpression(text, language), "validate_expression"@),
        holds_text(
            handed(ActionView::ValidateExpression(text, language)),
            "expression"@,
            Some(text),
        ),
        holds_text(
            handed(ActionView::ValidateExpression(text, language)),
            "language"@,
            Some(language),
        ),
        calls_tool(ActionView::InspectFile(text, line, variable), "inspect_file"@),
        ({
            let a = handed(ActionView::InspectFile(text, line, variable));
            &&& holds_text(a, "file_path"@, Some(text))
            &&& holds_number(a, "line"@, whole_u32(line))
            &&& holds_text(a, "find_variable"@, variable)
        }),
{
    lemma_names();
    let v = handed(ActionView::ValidateExpression(text, language))->Object_0;
    lemma_field_at(v, "expression"@, 0);
    lemma_field_at(v, "language"@, 1);
    let e = seq![("file_path"@, JsonView::Str(text))];
    lemma_field_at(e, "file_path"@, 0);
    lemma_field_absent(e, "line"@);
    lemma_field_absent(e, "find_variable"@);
}

/// The configuration is got, updated, validated and reloaded by tools of their own; updating
/// takes the text and whether it is kept, validating the text.
pub proof fn law_config_tools(toml: Seq<char>, persist: bool)
    ensures
        calls_tool(ActionView::GetConfig, "get_config"@),
        hands_nothing(ActionView::GetConfig),
        calls_tool(ActionView::UpdateConfig(toml, persist), "update_config"@),
        holds_text(handed(ActionView::UpdateConfig(toml, persist)), "config_toml"@, Some(toml)),
        holds_flag(handed(ActionView::UpdateConfig(toml, persist)), "persist"@, Some(persist)),
        calls_tool(ActionView::ValidateConfig(toml), "validate_config"@),
        holds_text(handed(ActionView::ValidateConfig(toml)), "config_toml"@, Some(toml)),
        calls_tool(ActionView::ReloadConfig, "reload_config"@),
        hands_nothing(ActionView::ReloadConfig),
{
    lemma_names();
    let u = handed(ActionView::UpdateConfig(toml, persist))->Object_0;
    lemma_field_at(u, "config_toml"@, 0);
    lemma_field_at(u, "persist"@, 1);
    lemma_field_at(handed(ActionView::ValidateConfig(toml))->Object_0, "config_toml"@, 0);
}

/// System events are queried with the limit, whether acknowledged ones are left out, and the
/// types where some are given, as JSON; they are acknowledged by their numbers.
pub proof fn law_system_event_tools(
    limit: u32,
    unacknowledged_only: bool,
    types: Option<Seq<Seq<char>>>,
    ids: Seq<i64>,
)
    ensures
        calls_tool(
            ActionView::QuerySystemEvents(limit, unacknowledged_only, types),
            "query_system_events"@,
        ),
        ({
            let a = handed(ActionView::QuerySystemEvents(limit, unacknowledged_only, types));
            &&& holds_number(a, "limit"@, Some(limit as int))
            &&& holds_flag(a, "unacknowledged_only"@, Some(unacknowledged_only))
            &&& holds_text(a, "format"@, Some("json"@))
            &&& types matches Some(list) ==> holds_texts(a, "event_types"@, list)
            &&& types is None ==> a.field("event_types"@) is None
        }),
        calls_tool(ActionView::AcknowledgeSystemEvents(ids), "acknowledge_events"@),
        handed(ActionView::AcknowledgeSystemEvents(ids)).field("event_ids"@) matches Some(
            JsonView::Array(items),
        ) && items.len() == ids.len() && forall|i: int|
            0 <= i < ids.len() ==> (#[trigger] items[i]).i64_value() == Some(ids[i]),
{
    lemma_names();
    let e = seq![
        ("limit"@, number_view(limit as int)),
        ("unacknowledged_only"@, JsonView::Bool(unacknowledged_only)),
        ("format"@, JsonView::Str("json"@)),
    ];
    lemma_field_at(e, "limit"@, 0);
    lemma_field_at(e, "unacknowledged_only"@, 1);
    lemma_field_at(e, "format"@, 2);
    lemma_field_absent(e, "event_types"@);
    lemma_field_at(
        handed(ActionView::AcknowledgeSystemEvents(ids))->Object_0,
        "event_ids"@,
        0,
    );
}

/// Status and usage are read, and the daemon is woken and put to sleep, by tools of their own that
/// take nothing; health is not asked for by a tool.
pub proof fn law_daemon_tools()
    ensures
        calls_tool(ActionView::GetStatus, "get_status"@),
        hands_nothing(ActionView::GetStatus),
        calls_tool(ActionView::Wake, "wake"@),
        hands_nothing(ActionView::Wake),
        calls_tool(ActionView::Sleep, "sleep"@),
        hands_nothing(ActionView::Sleep),
        calls_tool(ActionView::GetMcpUsage, "get_mcp_usage"@),
        hands_nothing(ActionView::GetMcpUsage),
        tool_of(ActionView::Health) is None,
{
}

// ---------------------------------------------------------------------------
// Answers
// ---------------------------------------------------------------------------

proof fn lemma_first_number(ws: Seq<Seq<char>>, max: nat, i: nat)
    ensures
        match first_number(ws, max, i) {
            Some(n) => exists|k: int|
                {
                    &&& i <= k < ws.len()
                    &&& #[trigger] parsed_unsigned(ws[k], max) == Some(n)
                    &&& forall|j: int| i <= j < k ==> #[trigger] parsed_unsigned(ws[j], max) is None
                },
            None => forall|j: int|
                i <= j < ws.len() ==> #[trigger] parsed_unsigned(ws[j], max) is None,
        },
    decreases ws.len() - i,
{
    if i < ws.len() && parsed_unsigned(ws[i as int], max) is None {
        lemma_first_number(ws, max, i + 1);
        if let Some(n) = first_number(ws, max, i) {
            let k = choose|k: int|
                {
                    &&& i + 1 <= k < ws.len()
                    &&& #[trigger] parsed_unsigned(ws[k], max) == Some(n)
                    &&& forall|j: int|
                        i + 1 <= j < k ==> #[trigger] parsed_unsigned(ws[j], max) is None
                };
            assert(parsed_unsigned(ws[k], max) == Some(n));
        }
    } else if i < ws.len() {
        assert(parsed_unsigned(ws[i as int], max) == first_number(ws, max, i));
    }
}

/// A number in the words of a text comes first: it is one of them, and no word before it is a
/// number.
pub open spec fn comes_first(ws: Seq<Seq<char>>, max: nat, n: nat) -> bool {
    exists|k: int|
        {
            &&& 0 <= k < ws.len()
            &&& #[trigger] parsed_unsigned(ws[k], max) == Some(n)
            &&& forall|j: int| 0 <= j < k ==> #[trigger] parsed_unsigned(ws[j], max) is None
        }
}

/// How many metrics of a group were enabled or disabled is the first number among the words of the
/// text, or nothing where no word is a number.
pub proof fn law_affected_metrics(
    action: ActionView,
    json: JsonView,
    reading: McpReading,
    connected: Seq<char>,
    event: Event,
)
    requires
        action is EnableGroup || action is DisableGroup,
        mcp_answer_is(action, json, reading, connected, event),
    ensures
        ({
            let ws = words(content_text_or_empty(json));
            event matches Event::Count(Ok(r)) && (comes_first(ws, usize::MAX as nat, r.data as nat)
                || r.data == 0 && forall|j: int|
                0 <= j < ws.len() ==> #[trigger] parsed_unsigned(ws[j], usize::MAX as nat) is None)
        }),
{
    lemma_first_number(words(content_text_or_empty(json)), usize::MAX as nat, 0);
}

/// What the text of an answer says: a status that speaks of `active` is active and any other one
/// sleeps; an expression is safe where the text says `SAFE` and not `UNSAFE`; a configuration is
/// valid where it says `valid`; waking, sleeping, files and configurations are handed on as they
/// are.
pub proof fn law_texts_are_understood(
    action: ActionView,
    json: JsonView,
    reading: McpReading,
    connected: Seq<char>,
    event: Event,
)
    requires
        mcp_answer_is(action, json, reading, connected, event),
    ensures
        ({
            let text = content_text_or_empty(json);
            &&& action is GetStatus ==> (event matches Event::Status(Ok(r)) && r.data.mode@ == if has_text(
                text,
                "active"@,
            ) {
                "active"@
            } else {
                "sleeping"@
            })
            &&& action is ValidateExpression ==> (event matches Event::Validation(Ok(r)) && (
            r.data.is_safe <==> has_text(text, "SAFE"@) && !has_text(text, "UNSAFE"@)))
            &&& action is ValidateConfig ==> (event matches Event::Valid(Ok(r)) && (r.data
                <==> has_text(text, "valid"@)))
            &&& action is Wake || action is Sleep || action is GetConfig || action is InspectFile
                ==> (event matches Event::Text(Ok(r)) && r.data@ == text)
            &&& action matches ActionView::CreateConnection(host, port, language, _) ==> (
            event matches Event::Connection(Ok(r)) && r.data@.host == host && r.data@.port == port
                && r.data@.language == language && !r.data@.safe_mode)
            &&& action matches ActionView::GetConnection(id) ==> (event matches Event::Connection(
                Ok(r),
            ) && r.data@.connection_id == id)
            &&& action matches ActionView::GetMetric(name) ==> (event matches Event::Metric(Ok(r))
                && r.data@.name == name)
        }),
{
}

/// The text of an answer is made of the texts of its content: where there is one item with a text,
/// it is that text, and items without a text are left out.
pub proof fn law_content_texts(items: Seq<JsonView>, n: nat)
    requires
        n < items.len(),
    ensures
        content_texts(items, 0).len() == 0,
        items[n as int].field("text"@) matches Some(JsonView::Str(text)) ==> content_texts(
            items,
            n + 1,
        ) == content_texts(items, n).push(text),
        !(items[n as int].field("text"@) matches Some(JsonView::Str(_))) ==> content_texts(
            items,
            n + 1,
        ) == content_texts(items, n),
{
    reveal_with_fuel(content_texts, 2);
}

} // verus!
