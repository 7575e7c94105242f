//! Which tool each action calls, with which arguments, and the errors of a call that fails.

use vstd::prelude::*;

use crate::client::{
    plain_error, ApiError, ApiErrorView, MetricInfo, MetricInfoView,
};
use crate::exchange::{Action, ActionView};
use crate::json::{json_views, number_view, numbers_view, Json, JsonView};
use crate::mcp::{
    add_metric_args, connection_args, content_texts, diff_args, inspect_args, observe_args,
    system_event_args, text_args, tool_request, McpClient,
};
use crate::text::{cat2, views};

verus! {

/// No arguments.
pub open spec fn no_args() -> JsonView {
    JsonView::Object(Seq::empty())
}

/// The tool that an action calls, and its arguments; none where the action calls none.
pub open spec fn tool_of(action: ActionView) -> Option<(Seq<char>, JsonView)> {
    match action {
        ActionView::GetStatus => Some(("get_status"@, no_args())),
        ActionView::Wake => Some(("wake"@, no_args())),
        ActionView::Sleep => Some(("sleep"@, no_args())),
        ActionView::CreateConnection(host, port, language, program) => Some(
            ("create_connection"@, connection_args(host, port, language, program)),
        ),
        ActionView::CloseConnection(id) => Some(
            ("close_connection"@, text_args("connection_id"@, id)),
        ),
        ActionView::GetConnection(id) => Some(
            ("get_connection"@, text_args("connection_id"@, id)),
        ),
        ActionView::ListConnections => Some(("list_connections"@, no_args())),
        ActionView::AddMetric(request) => Some(("add_metric"@, add_metric_args(request))),
        ActionView::Observe(request) => Some(("observe"@, observe_args(request))),
        ActionView::EnableFromDiff(request) => Some(("enable_from_diff"@, diff_args(request))),
        ActionView::RemoveMetric(name) => Some(("remove_metric"@, text_args("name"@, name))),
        ActionView::ToggleMetric(name, enabled) => Some(
            (
                "toggle_metric"@,
                JsonView::Object(
                    seq![("name"@, JsonView::Str(name)), ("enabled"@, JsonView::Bool(enabled))],
                ),
            ),
        ),
        ActionView::GetMetric(name) => Some(("get_metric"@, text_args("name"@, name))),
        ActionView::ListMetrics => Some(("list_metrics"@, text_args("format"@, "json"@))),
        ActionView::QueryEvents(name, limit) => Some(
            (
                "query_metrics"@,
                JsonView::Object(
                    seq![
                        ("name"@, JsonView::Str(name)),
                        ("limit"@, number_view(limit as int)),
                        ("format"@, JsonView::Str("json"@)),
                    ],
                ),
            ),
        ),
        ActionView::EnableGroup(group) => Some(("enable_group"@, text_args("group"@, group))),
        ActionView::DisableGroup(group) => Some(("disable_group"@, text_args("group"@, group))),
        ActionView::ListGroups => Some(("list_groups"@, no_args())),
        ActionView::ValidateExpression(expression, language) => Some(
            (
                "validate_expression"@,
                JsonView::Object(
                    seq![
                        ("expression"@, JsonView::Str(expression)),
                        ("language"@, JsonView::Str(language)),
                    ],
                ),
            ),
        ),
        ActionView::InspectFile(path, line, variable) => Some(
            ("inspect_file"@, inspect_args(path, line, variable)),
        ),
        ActionView::GetConfig => Some(("get_config"@, no_args())),
        ActionView::UpdateConfig(toml, persist) => Some(
            (
                "update_config"@,
                JsonView::Object(
                    seq![
                        ("config_toml"@, JsonView::Str(toml)),
                        ("persist"@, JsonView::Bool(persist)),
                    ],
                ),
            ),
        ),
        ActionView::ValidateConfig(toml) => Some(
            ("validate_config"@, text_args("config_toml"@, toml)),
        ),
        ActionView::ReloadConfig => Some(("reload_config"@, no_args())),
        ActionView::QuerySystemEvents(limit, unacknowledged, types) => Some(
            ("query_system_events"@, system_event_args(limit, unacknowledged, types)),
        ),
        ActionView::AcknowledgeSystemEvents(ids) => Some(
            (
                "acknowledge_events"@,
                JsonView::Object(seq![("event_ids"@, numbers_view(ids))]),
            ),
        ),
        ActionView::GetMcpUsage => Some(("get_mcp_usage"@, no_args())),
        _ => None,
    }
}

/// The view of a tool call.
pub open spec fn tool_view(r: Option<(&'static str, Json)>) -> Option<(Seq<char>, JsonView)> {
    match r {
        Some((tool, arguments)) => Some((tool@, arguments@)),
        None => None,
    }
}

/// What is known of a metric that was asked for by its name.
pub open spec fn named_metric(name: Seq<char>) -> MetricInfoView {
    MetricInfoView {
        name,
        location: Seq::empty(),
        expression: Seq::empty(),
        expressions: Seq::empty(),
        group: None,
        enabled: true,
        mode: None,
    }
}

impl McpClient {
    /// The tool that an action calls, and its arguments; none where the action calls none.
    pub fn tool_call(action: &Action) -> (r: Option<(&'static str, Json)>)
        ensures
            tool_view(r) == tool_of(action@),
    {
        match action {
            Action::GetStatus => Some(("get_status", Self::no_arguments())),
            Action::Wake => Some(("wake", Self::no_arguments())),
            Action::Sleep => Some(("sleep", Self::no_arguments())),
            Action::CreateConnection { host, port, language, program } => Some(
                (
                    "create_connection",
                    Self::connection_arguments(host.as_str(), *port, language.as_str(), program),
                ),
            ),
            Action::CloseConnection { id } => Some(
                ("close_connection", Self::text_arguments("connection_id", id.as_str())),
            ),
            Action::GetConnection { id } => Some(
                ("get_connection", Self::text_arguments("connection_id", id.as_str())),
            ),
            Action::ListConnections => Some(("list_connections", Self::no_arguments())),
            Action::AddMetric { request } => Some(
                ("add_metric", Self::add_metric_arguments(request)),
            ),
            Action::Observe { request } => Some(("observe", Self::observe_arguments(request))),
            Action::EnableFromDiff { request } => Some(
                ("enable_from_diff", Self::diff_arguments(request)),
            ),
            Action::RemoveMetric { name } => Some(
                ("remove_metric", Self::text_arguments("name", name.as_str())),
            ),
            Action::ToggleMetric { name, enabled } => Some(
                ("toggle_metric", Self::toggle_arguments(name.as_str(), *enabled)),
            ),
            Action::GetMetric { name } => Some(
                ("get_metric", Self::text_arguments("name", name.as_str())),
            ),
            Action::ListMetrics => Some(
                ("list_metrics", Self::text_arguments("format", "json")),
            ),
            Action::QueryEvents { name, limit } => Some(
                ("query_metrics", Self::query_arguments(name.as_str(), *limit)),
            ),
            Action::EnableGroup { group } => Some(
                ("enable_group", Self::text_arguments("group", group.as_str())),
            ),
            Action::DisableGroup { group } => Some(
                ("disable_group", Self::text_arguments("group", group.as_str())),
            ),
            Action::ListGroups => Some(("list_groups", Self::no_arguments())),
            Action::ValidateExpression { expression, language } => Some(
                (
                    "validate_expression",
                    Self::validate_arguments(expression.as_str(), language.as_str()),
                ),
            ),
            Action::InspectFile { path, line, variable } => Some(
                ("inspect_file", Self::inspect_arguments(path.as_str(), *line, variable)),
            ),
            Action::GetConfig => Some(("get_config", Self::no_arguments())),
            Action::UpdateConfig { toml, persist } => Some(
                ("update_config", Self::update_config_arguments(toml.as_str(), *persist)),
            ),
            Action::ValidateConfig { toml } => Some(
                ("validate_config", Self::text_arguments("config_toml", toml.as_str())),
            ),
            Action::ReloadConfig => Some(("reload_config", Self::no_arguments())),
            Action::QuerySystemEvents { limit, unacknowledged_only, types } => Some(
                (
                    "query_system_events",
                    Self::system_event_arguments(*limit, *unacknowledged_only, types),
                ),
            ),
            Action::AcknowledgeSystemEvents { ids } => Some(
                ("acknowledge_events", Self::acknowledge_arguments(ids)),
            ),
            Action::GetMcpUsage => Some(("get_mcp_usage", Self::no_arguments())),
            _ => None,
        }
    }

    /// The JSON-RPC request of an action; none where the action calls no tool.
    pub fn call(action: &Action) -> (r: Option<Json>)
        ensures
            r is Some <==> tool_of(action@) is Some,
            r matches Some(body) ==> tool_of(action@) matches Some((tool, arguments)) && body@
                == tool_request(tool, arguments),
    {
        match Self::tool_call(action) {
            Some((tool, arguments)) => Some(Self::request(tool, arguments)),
            None => None,
        }
    }

    /// What is known of a metric that was asked for by its name.
    pub fn known_metric(name: &str) -> (r: MetricInfo)
        ensures
            r@ == named_metric(name@),
    {
        let r: MetricInfo = MetricInfo {
            name: name.to_owned(),
            location: String::new(),
            expression: String::new(),
            expressions: Vec::new(),
            group: None,
            enabled: true,
            mode: None,
        };
        assert(views(r.expressions@) =~= Seq::<Seq<char>>::empty());
        r
    }

    /// The error of a request that could not be sent; a health check says so.
    pub fn send_error(action: &Action, error: &str) -> (r: ApiError)
        ensures
            r@ == plain_error(
                (if action@ == ActionView::Health {
                    "Health check failed: "@
                } else {
                    "HTTP error: "@
                }) + error@,
            ),
    {
        match action {
            Action::Health => ApiError::new(cat2("Health check failed: ", error)),
            _ => ApiError::new(cat2("HTTP error: ", error)),
        }
    }

    /// The error of an answer that could not be read to its end.
    pub fn read_error(error: &str) -> (r: ApiError)
        ensures
            r@ == plain_error("Read error: "@ + error@),
    {
        ApiError::new(cat2("Read error: ", error))
    }

    /// The texts of an answer in which usage statistics are looked for, in order.
    pub fn usage_texts(json: &Json) -> (r: Vec<String>)
        ensures
            views(r@) == (match json@.field("result"@) {
                Some(result) => match result.items_field("content"@) {
                    Some(items) => content_texts(items, items.len()),
                    None => Seq::empty(),
                },
                None => Seq::empty(),
            }),
    {
        let mut texts: Vec<String> = Vec::new();
        assert(views(texts@) =~= Seq::<Seq<char>>::empty());
        let items: &Vec<Json> = match json.get("result") {
            Some(result) => match result.get_array("content") {
                Some(items) => items,
                None => {
                    return texts;
                },
            },
            None => {
                return texts;
            },
        };
        let ghost vs = json_views(items@);
        assert(vs =~= items@.map_values(|j: Json| j@));
        let mut i: usize = 0;
        while i < items.len()
            invariant
                i <= items.len(),
                vs == json_views(items@),
                views(texts@) == content_texts(vs, i as nat),
            decreases items.len() - i,
        {
            assert(vs[i as int] == items@[i as int]@);
            match items[i].get_str("text") {
                Some(t) => {
                    let ghost before = texts@;
                    let owned: String = t.to_owned();
                    texts.push(owned);
                    assert(views(texts@) =~= views(before).push(owned@));
                },
                None => {},
            }
            i = i + 1;
        }
        texts
    }

    /// The error of an answer in which no text is usage statistics.
    pub fn usage_unreadable(raw: &str) -> (r: ApiError)
        ensures
            r@ == (ApiErrorView {
                message: "Failed to parse MCP usage response"@,
                code: None,
                raw_response: Some(raw@),
            }),
    {
        ApiError::new("Failed to parse MCP usage response".to_owned()).with_raw(raw.to_owned())
    }
}

} // verus!
