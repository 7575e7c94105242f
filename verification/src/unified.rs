//! The unified scenarios: the backends with their capabilities, and the scripts that run
//! identically on all of them.

use vstd::prelude::*;

pub mod outcomes;

use crate::client::{
    bare_observe, bare_request, plain_error, AddMetricRequest, AddMetricRequestView, ApiError,
    ObserveRequest, ObserveRequestView,
};
use crate::exchange::{Action, ActionView};
use crate::scenarios::{
    add_metric, all_endpoints, close_connection, create_connection, full_metric_lifecycle, get_status,
    health_check, list_connections, list_metrics, remove_metric, toggle_metric, validate_expression,
    wake_sleep_cycle, TestScenarios,
};
use crate::script::{
    around, item_views, plain, probe, quiet_call, silent, step_call, Fault, Item, ItemView, Rule, Text,
    WaitView,
};
use crate::text::{cat2, cat3, decimal, joined, num, views};

verus! {

/// What a backend can do.
#[derive(Debug, Clone, Copy, PartialEq, Eq, Structural)]
pub struct BackendCapabilities {
    pub supports_streaming: bool,
    pub supports_mcp_tools: bool,
    pub supports_grpc_streaming: bool,
}

/// The backends.
#[derive(Debug, Clone, Copy, PartialEq, Eq, Structural)]
pub enum BackendType {
    Mcp,
    Grpc,
    Rest,
    WebSocket,
    Cli,
}

/// The name of a backend.
pub open spec fn backend_name(backend: BackendType) -> Seq<char> {
    match backend {
        BackendType::Mcp => "MCP"@,
        BackendType::Grpc => "gRPC"@,
        BackendType::Rest => "REST"@,
        BackendType::WebSocket => "WebSocket"@,
        BackendType::Cli => "CLI"@,
    }
}

/// What a backend can do: gRPC and WebSocket stream, only MCP has the tools.
pub open spec fn backend_capabilities(backend: BackendType) -> BackendCapabilities {
    BackendCapabilities {
        supports_streaming: backend == BackendType::Grpc || backend == BackendType::WebSocket,
        supports_mcp_tools: backend == BackendType::Mcp,
        supports_grpc_streaming: backend == BackendType::Grpc,
    }
}

impl BackendType {
    /// The name of the backend.
    pub fn name(&self) -> (r: &'static str)
        ensures
            r@ == backend_name(*self),
    {
        match self {
            BackendType::Mcp => "MCP",
            BackendType::Grpc => "gRPC",
            BackendType::Rest => "REST",
            BackendType::WebSocket => "WebSocket",
            BackendType::Cli => "CLI",
        }
    }

    /// What the backend can do.
    pub fn capabilities(&self) -> (r: BackendCapabilities)
        ensures
            r == backend_capabilities(*self),
    {
        match self {
            BackendType::Mcp => BackendCapabilities {
                supports_streaming: false,
                supports_mcp_tools: true,
                supports_grpc_streaming: false,
            },
            BackendType::Grpc => BackendCapabilities {
                supports_streaming: true,
                supports_mcp_tools: false,
                supports_grpc_streaming: true,
            },
            BackendType::WebSocket => BackendCapabilities {
                supports_streaming: true,
                supports_mcp_tools: false,
                supports_grpc_streaming: false,
            },
            _ => BackendCapabilities {
                supports_streaming: false,
                supports_mcp_tools: false,
                supports_grpc_streaming: false,
            },
        }
    }
}

/// No two backends have one name, so a report shows which backend it is about.
pub proof fn law_backend_names_differ(a: BackendType, b: BackendType)
    requires
        backend_name(a) == backend_name(b),
    ensures
        a == b,
{
    reveal_strlit("MCP");
    reveal_strlit("gRPC");
    reveal_strlit("REST");
    reveal_strlit("WebSocket");
    reveal_strlit("CLI");
    assert("MCP"@[0] == 'M');
    assert("gRPC"@[0] == 'g');
    assert("REST"@[0] == 'R');
    assert("WebSocket"@[0] == 'W');
    assert("CLI"@[0] == 'C');
}

/// Streaming over gRPC is streaming, and no backend has both streaming and the MCP tools.
pub proof fn law_capabilities(backend: BackendType)
    ensures
        ({
            let c = backend_capabilities(backend);
            &&& c.supports_grpc_streaming ==> c.supports_streaming
            &&& !(c.supports_streaming && c.supports_mcp_tools)
        }),
{
}

/// The error of a backend without streaming; none for one that streams.
pub open spec fn streaming_refusal(backend: BackendType) -> Option<Seq<char>> {
    match backend {
        BackendType::Mcp => Some("MCP does not support streaming"@),
        BackendType::Rest => Some("REST does not support streaming - use WebSocket"@),
        BackendType::Cli => Some("CLI does not support streaming"@),
        _ => None,
    }
}

/// The error with which a backend without streaming answers; none for one that streams.
pub fn streaming_unsupported(backend: BackendType) -> (r: Option<ApiError>)
    ensures
        r is Some <==> streaming_refusal(backend) is Some,
        r matches Some(e) ==> e@ == plain_error(streaming_refusal(backend)->0),
        r is None <==> backend_capabilities(backend).supports_streaming,
{
    match backend {
        BackendType::Mcp => Some(ApiError::new("MCP does not support streaming".to_owned())),
        BackendType::Rest => Some(
            ApiError::new("REST does not support streaming - use WebSocket".to_owned()),
        ),
        BackendType::Cli => Some(ApiError::new("CLI does not support streaming".to_owned())),
        _ => None,
    }
}

/// The expressions of the metric with several expressions.
pub open spec fn trade_expressions() -> Seq<Seq<char>> {
    seq!["symbol"@, "quantity"@, "price"@]
}

fn three_expressions() -> (r: Vec<String>)
    ensures
        views(r@) == trade_expressions(),
{
    let r: Vec<String> = vec!["symbol".to_owned(), "quantity".to_owned(), "price".to_owned()];
    assert(views(r@) =~= trade_expressions());
    r
}

/// The daemon is woken and put to sleep.
pub fn scenario_wake_sleep_cycle() -> (r: Vec<Item>)
    ensures
        item_views(r@) == wake_sleep_cycle(),
{
    TestScenarios::wake_sleep_cycle()
}

/// The whole life of a metric.
pub fn scenario_full_metric_lifecycle(debugpy_port: u16, script_path: &str) -> (r: Vec<Item>)
    ensures
        item_views(r@) == full_metric_lifecycle(
            "127.0.0.1"@,
            debugpy_port,
            "lifecycle_metric"@,
            "@"@ + script_path@ + "#22"@,
            "price"@,
            60,
        ),
{
    TestScenarios::full_metric_lifecycle(
        "127.0.0.1",
        debugpy_port,
        "lifecycle_metric",
        cat3("@", script_path, "#22").as_str(),
        "price",
        60,
    )
}

/// All endpoints that need no connection.
pub fn scenario_all_basic_endpoints() -> (r: Vec<Item>)
    ensures
        item_views(r@) == all_endpoints(),
{
    TestScenarios::all_endpoints()
}

/// The API must be healthy.
pub open spec fn health_check_script() -> Seq<ItemView> {
    seq![
        health_check(),
    ]
}

/// The API must be healthy.
pub fn scenario_health_check() -> (r: Vec<Item>)
    ensures
        item_views(r@) == health_check_script(),
{
    let r: Vec<Item> = vec![
        TestScenarios::health_check(),
    ];
    assert(item_views(r@) =~= health_check_script());
    r
}

/// The status is asked for.
pub open spec fn get_status_script() -> Seq<ItemView> {
    seq![
        get_status(),
    ]
}

/// The status is asked for.
pub fn scenario_get_status() -> (r: Vec<Item>)
    ensures
        item_views(r@) == get_status_script(),
{
    let r: Vec<Item> = vec![
        TestScenarios::get_status(),
    ];
    assert(item_views(r@) =~= get_status_script());
    r
}

/// The daemon is woken.
pub open spec fn wake_script() -> Seq<ItemView> {
    seq![
        step_call(
            "Wake"@,
            plain("Wake the daemon"@),
            "wake"@,
            None,
            ActionView::Wake,
            false,
            Rule::TextStatus { success: "Daemon woke up"@ },
            Fault::Propagate,
        ),
    ]
}

/// The daemon is woken.
pub fn scenario_wake() -> (r: Vec<Item>)
    ensures
        item_views(r@) == wake_script(),
{
    let r: Vec<Item> = vec![
        Item::step_call(
            "Wake",
            Text::plain("Wake the daemon"),
            "wake",
            None,
            Action::Wake,
            false,
            Rule::TextStatus { success: "Daemon woke up".to_owned() },
            Fault::Propagate,
        ),
    ];
    assert(item_views(r@) =~= wake_script());
    r
}

/// The daemon is put to sleep.
pub open spec fn sleep_script() -> Seq<ItemView> {
    seq![
        step_call(
            "Sleep"@,
            plain("Put the daemon to sleep"@),
            "sleep"@,
            None,
            ActionView::Sleep,
            false,
            Rule::TextStatus { success: "Daemon sleeping"@ },
            Fault::Propagate,
        ),
    ]
}

/// The daemon is put to sleep.
pub fn scenario_sleep() -> (r: Vec<Item>)
    ensures
        item_views(r@) == sleep_script(),
{
    let r: Vec<Item> = vec![
        Item::step_call(
            "Sleep",
            Text::plain("Put the daemon to sleep"),
            "sleep",
            None,
            Action::Sleep,
            false,
            Rule::TextStatus { success: "Daemon sleeping".to_owned() },
            Fault::Propagate,
        ),
    ];
    assert(item_views(r@) =~= sleep_script());
    r
}

/// The connections are listed.
pub open spec fn list_connections_script() -> Seq<ItemView> {
    seq![
        list_connections(),
    ]
}

/// The connections are listed.
pub fn scenario_list_connections() -> (r: Vec<Item>)
    ensures
        item_views(r@) == list_connections_script(),
{
    let r: Vec<Item> = vec![
        TestScenarios::list_connections(),
    ];
    assert(item_views(r@) =~= list_connections_script());
    r
}

/// The metrics are listed.
pub open spec fn list_metrics_script() -> Seq<ItemView> {
    seq![
        list_metrics(),
    ]
}

/// The metrics are listed.
pub fn scenario_list_metrics() -> (r: Vec<Item>)
    ensures
        item_views(r@) == list_metrics_script(),
{
    let r: Vec<Item> = vec![
        TestScenarios::list_metrics(),
    ];
    assert(item_views(r@) =~= list_metrics_script());
    r
}

/// A metric that does not exist is asked for: either answer shows that the endpoint exists.
pub open spec fn get_metric_nonexistent_script() -> Seq<ItemView> {
    seq![
        step_call(
            "Get Metric"@,
            plain("Get nonexistent metric"@),
            "get_metric"@,
            Some(plain("name=nonexistent"@)),
            ActionView::GetMetric("nonexistent"@),
            false,
            Rule::MetricShown,
            Fault::Accept {
                status: "NOT_FOUND"@,
                success: "Endpoint exists (metric not found is expected)"@,
            },
        ),
    ]
}

/// A metric that does not exist is asked for: either answer shows that the endpoint exists.
pub fn scenario_get_metric_nonexistent() -> (r: Vec<Item>)
    ensures
        item_views(r@) == get_metric_nonexistent_script(),
{
    let r: Vec<Item> = vec![
        Item::step_call(
            "Get Metric",
            Text::plain("Get nonexistent metric"),
            "get_metric",
            Some(Text::plain("name=nonexistent")),
            Action::GetMetric { name: "nonexistent".to_owned() },
            false,
            Rule::MetricShown,
            Fault::Accept {
                status: "NOT_FOUND".to_owned(),
                success: "Endpoint exists (metric not found is expected)".to_owned(),
            },
        ),
    ];
    assert(item_views(r@) =~= get_metric_nonexistent_script());
    r
}

/// The groups are listed.
pub open spec fn list_groups_script() -> Seq<ItemView> {
    seq![
        step_call(
            "List Groups"@,
            plain("List all metric groups"@),
            "list_groups"@,
            None,
            ActionView::ListGroups,
            false,
            Rule::GroupsListed,
            Fault::Propagate,
        ),
    ]
}

/// The groups are listed.
pub fn scenario_list_groups() -> (r: Vec<Item>)
    ensures
        item_views(r@) == list_groups_script(),
{
    let r: Vec<Item> = vec![
        Item::step_call(
            "List Groups",
            Text::plain("List all metric groups"),
            "list_groups",
            None,
            Action::ListGroups,
            false,
            Rule::GroupsListed,
            Fault::Propagate,
        ),
    ];
    assert(item_views(r@) =~= list_groups_script());
    r
}

/// A group is enabled.
pub open spec fn enable_group_script() -> Seq<ItemView> {
    seq![
        step_call(
            "Enable Group"@,
            plain("Enable test_group"@),
            "enable_group"@,
            Some(plain("group=test_group"@)),
            ActionView::EnableGroup("test_group"@),
            false,
            Rule::CountShown { verb: "enabled"@, success: "Group enabled"@ },
            Fault::Propagate,
        ),
    ]
}

/// A group is enabled.
pub fn scenario_enable_group() -> (r: Vec<Item>)
    ensures
        item_views(r@) == enable_group_script(),
{
    let r: Vec<Item> = vec![
        Item::step_call(
            "Enable Group",
            Text::plain("Enable test_group"),
            "enable_group",
            Some(Text::plain("group=test_group")),
            Action::EnableGroup { group: "test_group".to_owned() },
            false,
            Rule::CountShown { verb: "enabled".to_owned(), success: "Group enabled".to_owned() },
            Fault::Propagate,
        ),
    ];
    assert(item_views(r@) =~= enable_group_script());
    r
}

/// A group is disabled.
pub open spec fn disable_group_script() -> Seq<ItemView> {
    seq![
        step_call(
            "Disable Group"@,
            plain("Disable test_group"@),
            "disable_group"@,
            Some(plain("group=test_group"@)),
            ActionView::DisableGroup("test_group"@),
            false,
            Rule::CountShown { verb: "disabled"@, success: "Group disabled"@ },
            Fault::Propagate,
        ),
    ]
}

/// A group is disabled.
pub fn scenario_disable_group() -> (r: Vec<Item>)
    ensures
        item_views(r@) == disable_group_script(),
{
    let r: Vec<Item> = vec![
        Item::step_call(
            "Disable Group",
            Text::plain("Disable test_group"),
            "disable_group",
            Some(Text::plain("group=test_group")),
            Action::DisableGroup { group: "test_group".to_owned() },
            false,
            Rule::CountShown {
                verb: "disabled".to_owned(),
                success: "Group disabled".to_owned(),
            },
            Fault::Propagate,
        ),
    ];
    assert(item_views(r@) =~= disable_group_script());
    r
}

/// A safe Python expression is validated.
pub open spec fn validate_safe_expression_script() -> Seq<ItemView> {
    seq![
        validate_expression("user.id"@, "python"@, true),
    ]
}

/// A safe Python expression is validated.
pub fn scenario_validate_safe_expression() -> (r: Vec<Item>)
    ensures
        item_views(r@) == validate_safe_expression_script(),
{
    let r: Vec<Item> = vec![
        TestScenarios::validate_expression("user.id", "python", true),
    ];
    assert(item_views(r@) =~= validate_safe_expression_script());
    r
}

/// An unsafe Python expression is validated.
pub open spec fn validate_unsafe_expression_script() -> Seq<ItemView> {
    seq![
        validate_expression("eval('bad')"@, "python"@, false),
    ]
}

/// An unsafe Python expression is validated.
pub fn scenario_validate_unsafe_expression() -> (r: Vec<Item>)
    ensures
        item_views(r@) == validate_unsafe_expression_script(),
{
    let r: Vec<Item> = vec![
        TestScenarios::validate_expression("eval('bad')", "python", false),
    ];
    assert(item_views(r@) =~= validate_unsafe_expression_script());
    r
}

/// A safe Go expression is validated.
pub open spec fn validate_safe_go_expression_script() -> Seq<ItemView> {
    seq![
        validate_expression("len(items)"@, "go"@, true),
    ]
}

/// A safe Go expression is validated.
pub fn scenario_validate_safe_go_expression() -> (r: Vec<Item>)
    ensures
        item_views(r@) == validate_safe_go_expression_script(),
{
    let r: Vec<Item> = vec![
        TestScenarios::validate_expression("len(items)", "go", true),
    ];
    assert(item_views(r@) =~= validate_safe_go_expression_script());
    r
}

/// An unsafe Go expression is validated.
pub open spec fn validate_unsafe_go_expression_script() -> Seq<ItemView> {
    seq![
        validate_expression("exec.Command(\"ls\")"@, "go"@, false),
    ]
}

/// An unsafe Go expression is validated.
pub fn scenario_validate_unsafe_go_expression() -> (r: Vec<Item>)
    ensures
        item_views(r@) == validate_unsafe_go_expression_script(),
{
    let r: Vec<Item> = vec![
        TestScenarios::validate_expression("exec.Command(\"ls\")", "go", false),
    ];
    assert(item_views(r@) =~= validate_unsafe_go_expression_script());
    r
}

/// A safe Rust expression is validated.
pub open spec fn validate_safe_rust_expression_script() -> Seq<ItemView> {
    seq![
        validate_expression("items.len()"@, "rust"@, true),
    ]
}

/// A safe Rust expression is validated.
pub fn scenario_validate_safe_rust_expression() -> (r: Vec<Item>)
    ensures
        item_views(r@) == validate_safe_rust_expression_script(),
{
    let r: Vec<Item> = vec![
        TestScenarios::validate_expression("items.len()", "rust", true),
    ];
    assert(item_views(r@) =~= validate_safe_rust_expression_script());
    r
}

/// An unsafe Rust expression is validated.
pub open spec fn validate_unsafe_rust_expression_script() -> Seq<ItemView> {
    seq![
        validate_expression("std::fs::read_to_string(\"config.txt\")"@, "rust"@, false),
    ]
}

/// An unsafe Rust expression is validated.
pub fn scenario_validate_unsafe_rust_expression() -> (r: Vec<Item>)
    ensures
        item_views(r@) == validate_unsafe_rust_expression_script(),
{
    let r: Vec<Item> = vec![
        TestScenarios::validate_expression(
            "std::fs::read_to_string(\"config.txt\")",
            "rust",
            false,
        ),
    ];
    assert(item_views(r@) =~= validate_unsafe_rust_expression_script());
    r
}

/// The configuration is asked for.
pub open spec fn get_config_script() -> Seq<ItemView> {
    seq![
        step_call(
            "Get Config"@,
            plain("Get current configuration"@),
            "get_config"@,
            None,
            ActionView::GetConfig,
            false,
            Rule::CharsShown { success: "Got configuration"@ },
            Fault::Propagate,
        ),
    ]
}

/// The configuration is asked for.
pub fn scenario_get_config() -> (r: Vec<Item>)
    ensures
        item_views(r@) == get_config_script(),
{
    let r: Vec<Item> = vec![
        Item::step_call(
            "Get Config",
            Text::plain("Get current configuration"),
            "get_config",
            None,
            Action::GetConfig,
            false,
            Rule::CharsShown { success: "Got configuration".to_owned() },
            Fault::Propagate,
        ),
    ];
    assert(item_views(r@) =~= get_config_script());
    r
}

/// A configuration is validated.
pub open spec fn validate_config_script() -> Seq<ItemView> {
    seq![
        step_call(
            "Validate Config"@,
            plain("Validate configuration"@),
            "validate_config"@,
            Some(plain("config_toml=..."@)),
            ActionView::ValidateConfig(
                "\n[server]\nhttp_port = 8080\ngrpc_port = 50051\n\n[performance]\nmax_metrics = 1000\n"@,
            ),
            false,
            Rule::ValidShown,
            Fault::Propagate,
        ),
    ]
}

/// A configuration is validated.
pub fn scenario_validate_config() -> (r: Vec<Item>)
    ensures
        item_views(r@) == validate_config_script(),
{
    let r: Vec<Item> = vec![
        Item::step_call(
            "Validate Config",
            Text::plain("Validate configuration"),
            "validate_config",
            Some(Text::plain("config_toml=...")),
            Action::ValidateConfig {
                toml: "\n[server]\nhttp_port = 8080\ngrpc_port = 50051\n\n[performance]\nmax_metrics = 1000\n".to_owned(
                ),
            },
            false,
            Rule::ValidShown,
            Fault::Propagate,
        ),
    ];
    assert(item_views(r@) =~= validate_config_script());
    r
}

/// Events of a metric that does not exist are asked for: either answer shows that the endpoint exists.
pub open spec fn query_events_nonexistent_script() -> Seq<ItemView> {
    seq![
        step_call(
            "Query Events"@,
            plain("Query events for nonexistent metric"@),
            "query_events"@,
            Some(plain("name=test, limit=10"@)),
            ActionView::QueryEvents("test"@, 10),
            false,
            Rule::EventsCounted { success: "Queried events"@ },
            Fault::Accept { status: "NOT_FOUND"@, success: "Endpoint exists"@ },
        ),
    ]
}

/// Events of a metric that does not exist are asked for: either answer shows that the endpoint exists.
pub fn scenario_query_events_nonexistent() -> (r: Vec<Item>)
    ensures
        item_views(r@) == query_events_nonexistent_script(),
{
    let r: Vec<Item> = vec![
        Item::step_call(
            "Query Events",
            Text::plain("Query events for nonexistent metric"),
            "query_events",
            Some(Text::plain("name=test, limit=10")),
            Action::QueryEvents { name: "test".to_owned(), limit: 10 },
            false,
            Rule::EventsCounted { success: "Queried events".to_owned() },
            Fault::Accept {
                status: "NOT_FOUND".to_owned(),
                success: "Endpoint exists".to_owned(),
            },
        ),
    ];
    assert(item_views(r@) =~= query_events_nonexistent_script());
    r
}

/// A file is inspected.
pub open spec fn inspect_file_script() -> Seq<ItemView> {
    seq![
        step_call(
            "Inspect File"@,
            plain("Inspect Python file"@),
            "inspect_file"@,
            Some(plain("file=fixtures/python/detrix_example_app.py"@)),
            ActionView::InspectFile("fixtures/python/detrix_example_app.py"@, Some(10), None),
            false,
            Rule::CharsShown { success: "Inspected file"@ },
            Fault::Propagate,
        ),
    ]
}

/// A file is inspected.
pub fn scenario_inspect_file() -> (r: Vec<Item>)
    ensures
        item_views(r@) == inspect_file_script(),
{
    let r: Vec<Item> = vec![
        Item::step_call(
            "Inspect File",
            Text::plain("Inspect Python file"),
            "inspect_file",
            Some(Text::plain("file=fixtures/python/detrix_example_app.py")),
            Action::InspectFile {
                path: "fixtures/python/detrix_example_app.py".to_owned(),
                line: Some(10),
                variable: None,
            },
            false,
            Rule::CharsShown { success: "Inspected file".to_owned() },
            Fault::Propagate,
        ),
    ];
    assert(item_views(r@) =~= inspect_file_script());
    r
}

/// A variable is looked for in a file.
pub open spec fn inspect_file_with_variable_script() -> Seq<ItemView> {
    seq![
        step_call(
            "Inspect File (Variable)"@,
            plain("Find variable in Python file"@),
            "inspect_file"@,
            Some(plain("file=fixtures/python/detrix_example_app.py, find_variable=price"@)),
            ActionView::InspectFile(
                "fixtures/python/detrix_example_app.py"@,
                None,
                Some("price"@),
            ),
            false,
            Rule::CharsShown { success: "Found variable occurrences"@ },
            Fault::Propagate,
        ),
    ]
}

/// A variable is looked for in a file.
pub fn scenario_inspect_file_with_variable() -> (r: Vec<Item>)
    ensures
        item_views(r@) == inspect_file_with_variable_script(),
{
    let r: Vec<Item> = vec![
        Item::step_call(
            "Inspect File (Variable)",
            Text::plain("Find variable in Python file"),
            "inspect_file",
            Some(Text::plain("file=fixtures/python/detrix_example_app.py, find_variable=price")),
            Action::InspectFile {
                path: "fixtures/python/detrix_example_app.py".to_owned(),
                line: None,
                variable: Some("price".to_owned()),
            },
            false,
            Rule::CharsShown { success: "Found variable occurrences".to_owned() },
            Fault::Propagate,
        ),
    ];
    assert(item_views(r@) =~= inspect_file_with_variable_script());
    r
}

/// The configuration is updated, unless that is not offered.
pub open spec fn update_config_script() -> Seq<ItemView> {
    seq![
        step_call(
            "Update Config"@,
            plain("Update configuration"@),
            "update_config"@,
            Some(plain("config_toml=..."@)),
            ActionView::UpdateConfig("[server]\nhttp_port = 8080\n"@, false),
            false,
            Rule::Fixed { status: "OK"@, body: "Updated"@, success: "Config updated"@ },
            Fault::AcceptUnsupported,
        ),
    ]
}

/// The configuration is updated, unless that is not offered.
pub fn scenario_update_config() -> (r: Vec<Item>)
    ensures
        item_views(r@) == update_config_script(),
{
    let r: Vec<Item> = vec![
        Item::step_call(
            "Update Config",
            Text::plain("Update configuration"),
            "update_config",
            Some(Text::plain("config_toml=...")),
            Action::UpdateConfig {
                toml: "[server]\nhttp_port = 8080\n".to_owned(),
                persist: false,
            },
            false,
            Rule::Fixed {
                status: "OK".to_owned(),
                body: "Updated".to_owned(),
                success: "Config updated".to_owned(),
            },
            Fault::AcceptUnsupported,
        ),
    ];
    assert(item_views(r@) =~= update_config_script());
    r
}

/// The configuration is reloaded, unless there is none.
pub open spec fn reload_config_script() -> Seq<ItemView> {
    seq![
        step_call(
            "Reload Config"@,
            plain("Reload configuration from file"@),
            "reload_config"@,
            None,
            ActionView::ReloadConfig,
            false,
            Rule::Fixed { status: "OK"@, body: "success"@, success: "Config reload attempted"@ },
            Fault::AcceptUnconfigured,
        ),
    ]
}

/// The configuration is reloaded, unless there is none.
pub fn scenario_reload_config() -> (r: Vec<Item>)
    ensures
        item_views(r@) == reload_config_script(),
{
    let r: Vec<Item> = vec![
        Item::step_call(
            "Reload Config",
            Text::plain("Reload configuration from file"),
            "reload_config",
            None,
            Action::ReloadConfig,
            false,
            Rule::Fixed {
                status: "OK".to_owned(),
                body: "success".to_owned(),
                success: "Config reload attempted".to_owned(),
            },
            Fault::AcceptUnconfigured,
        ),
    ];
    assert(item_views(r@) =~= reload_config_script());
    r
}

/// A connection is created.
pub open spec fn create_connection_script(debugpy_port: u16) -> Seq<ItemView> {
    seq![
        create_connection("127.0.0.1"@, debugpy_port, "python"@),
    ]
}

/// A connection is created.
pub fn scenario_create_connection(debugpy_port: u16) -> (r: Vec<Item>)
    ensures
        item_views(r@) == create_connection_script(debugpy_port),
{
    let r: Vec<Item> = vec![
        TestScenarios::create_connection("127.0.0.1", debugpy_port, "python"),
    ];
    assert(item_views(r@) =~= create_connection_script(debugpy_port));
    r
}

/// A connection is asked for.
pub open spec fn get_connection_script(connection_id: Seq<char>) -> Seq<ItemView> {
    seq![
        step_call(
            "Get Connection"@,
            plain("Get connection details"@),
            "get_connection"@,
            Some(plain("id="@ + connection_id)),
            ActionView::GetConnection(connection_id),
            false,
            Rule::ConnectionShown,
            Fault::Propagate,
        ),
    ]
}

/// A connection is asked for.
pub fn scenario_get_connection(connection_id: &str) -> (r: Vec<Item>)
    ensures
        item_views(r@) == get_connection_script(connection_id@),
{
    let r: Vec<Item> = vec![
        Item::step_call(
            "Get Connection",
            Text::plain("Get connection details"),
            "get_connection",
            Some(Text::plain(cat2("id=", connection_id).as_str())),
            Action::GetConnection { id: connection_id.to_owned() },
            false,
            Rule::ConnectionShown,
            Fault::Propagate,
        ),
    ];
    assert(item_views(r@) =~= get_connection_script(connection_id@));
    r
}

/// A connection is closed.
pub open spec fn close_connection_script(connection_id: Seq<char>) -> Seq<ItemView> {
    seq![
        close_connection(Some(connection_id)),
    ]
}

/// A connection is closed.
pub fn scenario_close_connection(connection_id: &str) -> (r: Vec<Item>)
    ensures
        item_views(r@) == close_connection_script(connection_id@),
{
    let r: Vec<Item> = vec![
        TestScenarios::close_connection(Some(connection_id)),
    ];
    assert(item_views(r@) =~= close_connection_script(connection_id@));
    r
}

/// The life of a connection: create, get, list, close.
pub open spec fn connection_lifecycle_script(debugpy_port: u16) -> Seq<ItemView> {
    seq![
        ItemView::Section("CONNECTION LIFECYCLE"@),
        create_connection("127.0.0.1"@, debugpy_port, "python"@),
        ItemView::Pause(2000),
        step_call(
            "Get Connection"@,
            plain("Get connection details"@),
            "get_connection"@,
            Some(around("id="@, ""@)),
            ActionView::GetConnection(""@),
            true,
            Rule::ConnectionShown,
            Fault::Propagate,
        ),
        list_connections(),
        close_connection(None),
    ]
}

/// The life of a connection: create, get, list, close.
pub fn scenario_connection_lifecycle(debugpy_port: u16) -> (r: Vec<Item>)
    ensures
        item_views(r@) == connection_lifecycle_script(debugpy_port),
{
    let r: Vec<Item> = vec![
        Item::section("CONNECTION LIFECYCLE"),
        TestScenarios::create_connection("127.0.0.1", debugpy_port, "python"),
        Item::pause(2000),
        Item::step_call(
            "Get Connection",
            Text::plain("Get connection details"),
            "get_connection",
            Some(Text::around("id=", "")),
            Action::GetConnection { id: "".to_owned() },
            true,
            Rule::ConnectionShown,
            Fault::Propagate,
        ),
        TestScenarios::list_connections(),
        TestScenarios::close_connection(None),
    ];
    assert(item_views(r@) =~= connection_lifecycle_script(debugpy_port));
    r
}

/// A metric is added.
pub open spec fn add_metric_script(name: Seq<char>, location: Seq<char>, expression: Seq<char>, connection_id: Seq<char>) -> Seq<ItemView> {
    seq![
        add_metric(name, location, expression, seq![expression], Some(connection_id)),
    ]
}

/// A metric is added.
pub fn scenario_add_metric(name: &str, location: &str, expression: &str, connection_id: &str) -> (r: Vec<Item>)
    ensures
        item_views(r@) == add_metric_script(name@, location@, expression@, connection_id@),
{
    let r: Vec<Item> = vec![
        TestScenarios::add_metric(name, location, expression, Some(connection_id)),
    ];
    assert(item_views(r@) =~= add_metric_script(name@, location@, expression@, connection_id@));
    r
}

/// A metric is removed.
pub open spec fn remove_metric_script(name: Seq<char>) -> Seq<ItemView> {
    seq![
        remove_metric(name),
    ]
}

/// A metric is removed.
pub fn scenario_remove_metric(name: &str) -> (r: Vec<Item>)
    ensures
        item_views(r@) == remove_metric_script(name@),
{
    let r: Vec<Item> = vec![
        TestScenarios::remove_metric(name),
    ];
    assert(item_views(r@) =~= remove_metric_script(name@));
    r
}

/// A metric is enabled or disabled.
pub open spec fn toggle_metric_script(name: Seq<char>, enabled: bool) -> Seq<ItemView> {
    seq![
        toggle_metric(name, enabled),
    ]
}

/// A metric is enabled or disabled.
pub fn scenario_toggle_metric(name: &str, enabled: bool) -> (r: Vec<Item>)
    ensures
        item_views(r@) == toggle_metric_script(name@, enabled),
{
    let r: Vec<Item> = vec![
        TestScenarios::toggle_metric(name, enabled),
    ];
    assert(item_views(r@) =~= toggle_metric_script(name@, enabled));
    r
}

/// The life of a metric without events: add, list, disable, remove.
pub open spec fn metric_crud_script(debugpy_port: u16, script_path: Seq<char>) -> Seq<ItemView> {
    seq![
        ItemView::Section("CONNECTION"@),
        create_connection("127.0.0.1"@, debugpy_port, "python"@),
        ItemView::Pause(2000),
        ItemView::Section("METRICS"@),
        add_metric(
            "crud_test_metric"@,
            "@"@ + script_path + "#22"@,
            "price"@,
            seq!["price"@],
            None,
        ),
        ItemView::Pause(500),
        list_metrics(),
        toggle_metric("crud_test_metric"@, false),
        remove_metric("crud_test_metric"@),
    ]
}

/// The life of a metric without events: add, list, disable, remove.
pub fn scenario_metric_crud(debugpy_port: u16, script_path: &str) -> (r: Vec<Item>)
    ensures
        item_views(r@) == metric_crud_script(debugpy_port, script_path@),
{
    let r: Vec<Item> = vec![
        Item::section("CONNECTION"),
        TestScenarios::create_connection("127.0.0.1", debugpy_port, "python"),
        Item::pause(2000),
        Item::section("METRICS"),
        TestScenarios::add_metric(
            "crud_test_metric",
            cat3("@", script_path, "#22").as_str(),
            "price",
            None,
        ),
        Item::pause(500),
        TestScenarios::list_metrics(),
        TestScenarios::toggle_metric("crud_test_metric", false),
        TestScenarios::remove_metric("crud_test_metric"),
    ];
    assert(item_views(r@) =~= metric_crud_script(debugpy_port, script_path@));
    r
}

/// Events of a metric are asked for, and the metric is removed again.
pub open spec fn query_events_script(debugpy_port: u16, script_path: Seq<char>) -> Seq<ItemView> {
    seq![
        create_connection("127.0.0.1"@, debugpy_port, "python"@),
        ItemView::Pause(2000),
        add_metric(
            "query_events_test"@,
            "@"@ + script_path + "#22"@,
            "price"@,
            seq!["price"@],
            None,
        ),
        ItemView::Pause(3000),
        step_call(
            "Query Events"@,
            plain("Query metric events"@),
            "query_events"@,
            Some(plain("name=query_events_test, limit=10"@)),
            ActionView::QueryEvents("query_events_test"@, 10),
            false,
            Rule::EventsCounted { success: "Events queried"@ },
            Fault::Propagate,
        ),
        silent(
            ActionView::RemoveMetric("query_events_test"@),
            false,
            Rule::Nothing,
            Fault::Ignore,
        ),
        silent(ActionView::CloseConnection(""@), true, Rule::Nothing, Fault::Ignore),
    ]
}

/// Events of a metric are asked for, and the metric is removed again.
pub fn scenario_query_events(debugpy_port: u16, script_path: &str) -> (r: Vec<Item>)
    ensures
        item_views(r@) == query_events_script(debugpy_port, script_path@),
{
    let r: Vec<Item> = vec![
        TestScenarios::create_connection("127.0.0.1", debugpy_port, "python"),
        Item::pause(2000),
        TestScenarios::add_metric(
            "query_events_test",
            cat3("@", script_path, "#22").as_str(),
            "price",
            None,
        ),
        Item::pause(3000),
        Item::step_call(
            "Query Events",
            Text::plain("Query metric events"),
            "query_events",
            Some(Text::plain("name=query_events_test, limit=10")),
            Action::QueryEvents { name: "query_events_test".to_owned(), limit: 10 },
            false,
            Rule::EventsCounted { success: "Events queried".to_owned() },
            Fault::Propagate,
        ),
        Item::silent(
            Action::RemoveMetric { name: "query_events_test".to_owned() },
            false,
            Rule::Nothing,
            Fault::Ignore,
        ),
        Item::silent(
            Action::CloseConnection { id: "".to_owned() },
            true,
            Rule::Nothing,
            Fault::Ignore,
        ),
    ];
    assert(item_views(r@) =~= query_events_script(debugpy_port, script_path@));
    r
}

/// Disabled metrics are put in a group, which is enabled and disabled as a whole.
pub open spec fn group_operations_script(debugpy_port: u16, script_path: Seq<char>) -> Seq<ItemView> {
    seq![
        ItemView::Section("GROUP OPERATIONS TEST"@),
        create_connection("127.0.0.1"@, debugpy_port, "python"@),
        ItemView::Pause(2000),
        ItemView::Section("ADD DISABLED METRICS TO GROUP"@),
        step_call(
            "Add Disabled Metric"@,
            plain("Add 'group_test_metric_1' to group 'test_group_ops' (disabled)"@),
            "add_metric"@,
            Some(plain("name=group_test_metric_1, group=test_group_ops, enabled=false"@)),
            ActionView::AddMetric(
                AddMetricRequestView {
                    group: Some("test_group_ops"@),
                    enabled: Some(false),
                    ..bare_request(
                        "group_test_metric_1"@,
                        "@"@ + script_path + "#22"@,
                        seq!["price"@],
                        ""@,
                    )
                },
            ),
            true,
            Rule::DisabledAdded { name: "group_test_metric_1"@ },
            Fault::FailAndClose,
        ),
        step_call(
            "Add Disabled Metric"@,
            plain("Add 'group_test_metric_2' to group 'test_group_ops' (disabled)"@),
            "add_metric"@,
            Some(plain("name=group_test_metric_2, group=test_group_ops, enabled=false"@)),
            ActionView::AddMetric(
                AddMetricRequestView {
                    group: Some("test_group_ops"@),
                    enabled: Some(false),
                    ..bare_request(
                        "group_test_metric_2"@,
                        "@"@ + script_path + "#32"@,
                        seq!["symbol"@],
                        ""@,
                    )
                },
            ),
            true,
            Rule::DisabledAdded { name: "group_test_metric_2"@ },
            Fault::FailAndClose,
        ),
        step_call(
            "Verify Disabled"@,
            plain("Check that 2 metrics are in group (disabled)"@),
            "list_groups"@,
            None,
            ActionView::ListGroups,
            false,
            Rule::GroupChecked { group: "test_group_ops"@, expected: 2 },
            Fault::GroupChecked { expected: 2 },
        ),
        ItemView::Section("ENABLE GROUP"@),
        step_call(
            "Enable Group"@,
            plain("Enable 'test_group_ops' - expecting 2 metrics to be enabled"@),
            "enable_group"@,
            Some(plain("test_group_ops"@)),
            ActionView::EnableGroup("test_group_ops"@),
            false,
            Rule::GroupEnabled { expected: 2 },
            Fault::FailAndClose,
        ),
        quiet_call(
            "Verify Enabled"@,
            plain("Check that metrics are now enabled in group"@),
            ActionView::ListGroups,
            false,
            Rule::GroupVerified { group: "test_group_ops"@ },
            Fault::FailContinue,
        ),
        ItemView::Section("DISABLE GROUP"@),
        step_call(
            "Disable Group"@,
            plain("Disable 'test_group_ops' - expecting 2 metrics to be disabled"@),
            "disable_group"@,
            Some(plain("test_group_ops"@)),
            ActionView::DisableGroup("test_group_ops"@),
            false,
            Rule::GroupDisabled,
            Fault::FailContinue,
        ),
        ItemView::Section("CLEANUP"@),
        silent(
            ActionView::RemoveMetric("group_test_metric_1"@),
            false,
            Rule::Nothing,
            Fault::Ignore,
        ),
        silent(
            ActionView::RemoveMetric("group_test_metric_2"@),
            false,
            Rule::Nothing,
            Fault::Ignore,
        ),
        silent(ActionView::CloseConnection(""@), true, Rule::Nothing, Fault::Ignore),
    ]
}

/// Disabled metrics are put in a group, which is enabled and disabled as a whole.
pub fn scenario_group_operations(debugpy_port: u16, script_path: &str) -> (r: Vec<Item>)
    ensures
        item_views(r@) == group_operations_script(debugpy_port, script_path@),
{
    let r: Vec<Item> = vec![
        Item::section("GROUP OPERATIONS TEST"),
        TestScenarios::create_connection("127.0.0.1", debugpy_port, "python"),
        Item::pause(2000),
        Item::section("ADD DISABLED METRICS TO GROUP"),
        Item::step_call(
            "Add Disabled Metric",
            Text::plain("Add 'group_test_metric_1' to group 'test_group_ops' (disabled)"),
            "add_metric",
            Some(Text::plain("name=group_test_metric_1, group=test_group_ops, enabled=false")),
            Action::AddMetric {
                request: AddMetricRequest::new(
                    "group_test_metric_1",
                    cat3("@", script_path, "#22").as_str(),
                    "price",
                    "",
                ).with_group("test_group_ops").disabled(),
            },
            true,
            Rule::DisabledAdded { name: "group_test_metric_1".to_owned() },
            Fault::FailAndClose,
        ),
        Item::step_call(
            "Add Disabled Metric",
            Text::plain("Add 'group_test_metric_2' to group 'test_group_ops' (disabled)"),
            "add_metric",
            Some(Text::plain("name=group_test_metric_2, group=test_group_ops, enabled=false")),
            Action::AddMetric {
                request: AddMetricRequest::new(
                    "group_test_metric_2",
                    cat3("@", script_path, "#32").as_str(),
                    "symbol",
                    "",
                ).with_group("test_group_ops").disabled(),
            },
            true,
            Rule::DisabledAdded { name: "group_test_metric_2".to_owned() },
            Fault::FailAndClose,
        ),
        Item::step_call(
            "Verify Disabled",
            Text::plain("Check that 2 metrics are in group (disabled)"),
            "list_groups",
            None,
            Action::ListGroups,
            false,
            Rule::GroupChecked { group: "test_group_ops".to_owned(), expected: 2 },
            Fault::GroupChecked { expected: 2 },
        ),
        Item::section("ENABLE GROUP"),
        Item::step_call(
            "Enable Group",
            Text::plain("Enable 'test_group_ops' - expecting 2 metrics to be enabled"),
            "enable_group",
            Some(Text::plain("test_group_ops")),
            Action::EnableGroup { group: "test_group_ops".to_owned() },
            false,
            Rule::GroupEnabled { expected: 2 },
            Fault::FailAndClose,
        ),
        Item::quiet_call(
            "Verify Enabled",
            Text::plain("Check that metrics are now enabled in group"),
            Action::ListGroups,
            false,
            Rule::GroupVerified { group: "test_group_ops".to_owned() },
            Fault::FailContinue,
        ),
        Item::section("DISABLE GROUP"),
        Item::step_call(
            "Disable Group",
            Text::plain("Disable 'test_group_ops' - expecting 2 metrics to be disabled"),
            "disable_group",
            Some(Text::plain("test_group_ops")),
            Action::DisableGroup { group: "test_group_ops".to_owned() },
            false,
            Rule::GroupDisabled,
            Fault::FailContinue,
        ),
        Item::section("CLEANUP"),
        Item::silent(
            Action::RemoveMetric { name: "group_test_metric_1".to_owned() },
            false,
            Rule::Nothing,
            Fault::Ignore,
        ),
        Item::silent(
            Action::RemoveMetric { name: "group_test_metric_2".to_owned() },
            false,
            Rule::Nothing,
            Fault::Ignore,
        ),
        Item::silent(
            Action::CloseConnection { id: "".to_owned() },
            true,
            Rule::Nothing,
            Fault::Ignore,
        ),
    ];
    assert(item_views(r@) =~= group_operations_script(debugpy_port, script_path@));
    r
}

/// A metric for three expressions is added, listed with all of them, and its events hold a value for each.
pub open spec fn multi_expr_metric_script(debugpy_port: u16, script_path: Seq<char>) -> Seq<ItemView> {
    seq![
        ItemView::Section("MULTI-EXPRESSION METRIC TEST"@),
        create_connection("127.0.0.1"@, debugpy_port, "python"@),
        ItemView::Pause(2000),
        ItemView::Section("ADD MULTI-EXPRESSION METRIC"@),
        add_metric(
            "multi_expr_test"@,
            "@"@ + script_path + "#19"@,
            joined(trade_expressions(), ", "@),
            trade_expressions(),
            None,
        ),
        ItemView::Pause(500),
        ItemView::Section("VERIFY EXPRESSIONS STORED"@),
        step_call(
            "List Metrics"@,
            plain("Verify metric has 3 expressions"@),
            "list_metrics"@,
            None,
            ActionView::ListMetrics,
            false,
            Rule::MultiListed { metric: "multi_expr_test"@ },
            Fault::Propagate,
        ),
        ItemView::Section("CAPTURE EVENTS"@),
        ItemView::Wait(WaitView { metric: "multi_expr_test"@, min_events: 1, timeout_secs: 30 }),
        ItemView::InfoCount("Captured "@, " events from multi-expression metric"@),
        step_call(
            "Verify Events"@,
            plain("Check that events contain multi-expression values"@),
            "query_events"@,
            Some(plain("name=multi_expr_test, limit=10"@)),
            ActionView::QueryEvents("multi_expr_test"@, 10),
            false,
            Rule::MultiVerified { expressions: trade_expressions() },
            Fault::Propagate,
        ),
        ItemView::Section("CLEANUP"@),
        silent(
            ActionView::RemoveMetric("multi_expr_test"@),
            false,
            Rule::Nothing,
            Fault::Ignore,
        ),
        silent(ActionView::CloseConnection(""@), true, Rule::Nothing, Fault::Ignore),
    ]
}

/// A metric for three expressions is added, listed with all of them, and its events hold a value for each.
pub fn scenario_multi_expr_metric(debugpy_port: u16, script_path: &str) -> (r: Vec<Item>)
    ensures
        item_views(r@) == multi_expr_metric_script(debugpy_port, script_path@),
{
    let r: Vec<Item> = vec![
        Item::section("MULTI-EXPRESSION METRIC TEST"),
        TestScenarios::create_connection("127.0.0.1", debugpy_port, "python"),
        Item::pause(2000),
        Item::section("ADD MULTI-EXPRESSION METRIC"),
        TestScenarios::add_multi_expr_metric(
            "multi_expr_test",
            cat3("@", script_path, "#19").as_str(),
            three_expressions(),
            None,
        ),
        Item::pause(500),
        Item::section("VERIFY EXPRESSIONS STORED"),
        Item::step_call(
            "List Metrics",
            Text::plain("Verify metric has 3 expressions"),
            "list_metrics",
            None,
            Action::ListMetrics,
            false,
            Rule::MultiListed { metric: "multi_expr_test".to_owned() },
            Fault::Propagate,
        ),
        Item::section("CAPTURE EVENTS"),
        TestScenarios::wait_for_events("multi_expr_test", 1, 30),
        Item::InfoCount {
            before: "Captured ".to_owned(),
            after: " events from multi-expression metric".to_owned(),
        },
        Item::step_call(
            "Verify Events",
            Text::plain("Check that events contain multi-expression values"),
            "query_events",
            Some(Text::plain("name=multi_expr_test, limit=10")),
            Action::QueryEvents { name: "multi_expr_test".to_owned(), limit: 10 },
            false,
            Rule::MultiVerified { expressions: three_expressions() },
            Fault::Propagate,
        ),
        Item::section("CLEANUP"),
        Item::silent(
            Action::RemoveMetric { name: "multi_expr_test".to_owned() },
            false,
            Rule::Nothing,
            Fault::Ignore,
        ),
        Item::silent(
            Action::CloseConnection { id: "".to_owned() },
            true,
            Rule::Nothing,
            Fault::Ignore,
        ),
    ];
    assert(item_views(r@) =~= multi_expr_metric_script(debugpy_port, script_path@));
    r
}

/// Every endpoint is called once; the failures are collected.
pub open spec fn comprehensive_coverage_script(debugpy_port: u16, script_path: Seq<char>) -> Seq<ItemView> {
    seq![
        ItemView::Section("HEALTH & STATUS"@),
        probe("Testing health..."@, "health"@, false, ActionView::Health, false, Rule::Nothing),
        probe(
            "Testing get_status..."@,
            "get_status"@,
            false,
            ActionView::GetStatus,
            false,
            Rule::Nothing,
        ),
        probe("Testing wake..."@, "wake"@, false, ActionView::Wake, false, Rule::Nothing),
        probe("Testing sleep..."@, "sleep"@, false, ActionView::Sleep, false, Rule::Nothing),
        ItemView::Section("CONNECTIONS"@),
        probe(
            "Testing list_connections..."@,
            "list_connections"@,
            false,
            ActionView::ListConnections,
            false,
            Rule::Nothing,
        ),
        probe(
            "Testing create_connection..."@,
            "create_connection"@,
            false,
            ActionView::CreateConnection("127.0.0.1"@, debugpy_port, "python"@, None),
            false,
            Rule::ConnectedProbe,
        ),
        ItemView::Pause(2000),
        probe(
            "Testing get_connection..."@,
            "get_connection"@,
            true,
            ActionView::GetConnection(""@),
            true,
            Rule::Nothing,
        ),
        ItemView::Section("METRICS"@),
        probe(
            "Testing list_metrics..."@,
            "list_metrics"@,
            false,
            ActionView::ListMetrics,
            false,
            Rule::Nothing,
        ),
        probe(
            "Testing add_metric..."@,
            "add_metric"@,
            false,
            ActionView::AddMetric(
                bare_request(
                    "coverage_test_metric"@,
                    "@"@ + script_path + "#22"@,
                    seq!["price"@],
                    ""@,
                ),
            ),
            true,
            Rule::ProbeMetricAdded,
        ),
        ItemView::Section("GROUPS"@),
        probe(
            "Testing list_groups..."@,
            "list_groups"@,
            false,
            ActionView::ListGroups,
            false,
            Rule::Nothing,
        ),
        probe(
            "Testing enable_group..."@,
            "enable_group"@,
            false,
            ActionView::EnableGroup("test_group"@),
            false,
            Rule::Nothing,
        ),
        probe(
            "Testing disable_group..."@,
            "disable_group"@,
            false,
            ActionView::DisableGroup("test_group"@),
            false,
            Rule::Nothing,
        ),
        ItemView::Section("VALIDATION (Python)"@),
        probe(
            "Testing validate_expression (Python safe)..."@,
            "validate_expression (python safe)"@,
            false,
            ActionView::ValidateExpression("user.id"@, "python"@),
            false,
            Rule::Nothing,
        ),
        probe(
            "Testing validate_expression (Python unsafe)..."@,
            "validate_expression (python unsafe)"@,
            false,
            ActionView::ValidateExpression("eval('bad')"@, "python"@),
            false,
            Rule::Nothing,
        ),
        ItemView::Section("VALIDATION (Go)"@),
        probe(
            "Testing validate_expression (Go safe)..."@,
            "validate_expression (go safe)"@,
            false,
            ActionView::ValidateExpression("len(items)"@, "go"@),
            false,
            Rule::Nothing,
        ),
        probe(
            "Testing validate_expression (Go unsafe)..."@,
            "validate_expression (go unsafe)"@,
            false,
            ActionView::ValidateExpression("exec.Command(\"ls\")"@, "go"@),
            false,
            Rule::Nothing,
        ),
        probe(
            "Testing inspect_file..."@,
            "inspect_file"@,
            false,
            ActionView::InspectFile("fixtures/python/detrix_example_app.py"@, Some(10), None),
            false,
            Rule::Nothing,
        ),
        ItemView::Section("CONFIGURATION"@),
        probe(
            "Testing get_config..."@,
            "get_config"@,
            false,
            ActionView::GetConfig,
            false,
            Rule::Nothing,
        ),
        probe(
            "Testing validate_config..."@,
            "validate_config"@,
            false,
            ActionView::ValidateConfig("[server]\nhttp_port = 8080\n"@),
            false,
            Rule::Nothing,
        ),
        ItemView::Section("CLEANUP"@),
        probe(
            "Testing close_connection..."@,
            "close_connection"@,
            true,
            ActionView::CloseConnection(""@),
            true,
            Rule::Nothing,
        ),
        ItemView::Section("SUMMARY"@),
        ItemView::Verdict,
    ]
}

/// Every endpoint is called once; the failures are collected.
pub fn scenario_comprehensive_coverage(debugpy_port: u16, script_path: &str) -> (r: Vec<Item>)
    ensures
        item_views(r@) == comprehensive_coverage_script(debugpy_port, script_path@),
{
    let r: Vec<Item> = vec![
        Item::section("HEALTH & STATUS"),
        Item::probe("Testing health...", "health", false, Action::Health, false, Rule::Nothing),
        Item::probe(
            "Testing get_status...",
            "get_status",
            false,
            Action::GetStatus,
            false,
            Rule::Nothing,
        ),
        Item::probe("Testing wake...", "wake", false, Action::Wake, false, Rule::Nothing),
        Item::probe("Testing sleep...", "sleep", false, Action::Sleep, false, Rule::Nothing),
        Item::section("CONNECTIONS"),
        Item::probe(
            "Testing list_connections...",
            "list_connections",
            false,
            Action::ListConnections,
            false,
            Rule::Nothing,
        ),
        Item::probe(
            "Testing create_connection...",
            "create_connection",
            false,
            Action::CreateConnection {
                host: "127.0.0.1".to_owned(),
                port: debugpy_port,
                language: "python".to_owned(),
                program: None,
            },
            false,
            Rule::ConnectedProbe,
        ),
        Item::pause(2000),
        Item::probe(
            "Testing get_connection...",
            "get_connection",
            true,
            Action::GetConnection { id: "".to_owned() },
            true,
            Rule::Nothing,
        ),
        Item::section("METRICS"),
        Item::probe(
            "Testing list_metrics...",
            "list_metrics",
            false,
            Action::ListMetrics,
            false,
            Rule::Nothing,
        ),
        Item::probe(
            "Testing add_metric...",
            "add_metric",
            false,
            Action::AddMetric {
                request: AddMetricRequest::new(
                    "coverage_test_metric",
                    cat3("@", script_path, "#22").as_str(),
                    "price",
                    "",
                ),
            },
            true,
            Rule::ProbeMetricAdded,
        ),
        Item::section("GROUPS"),
        Item::probe(
            "Testing list_groups...",
            "list_groups",
            false,
            Action::ListGroups,
            false,
            Rule::Nothing,
        ),
        Item::probe(
            "Testing enable_group...",
            "enable_group",
            false,
            Action::EnableGroup { group: "test_group".to_owned() },
            false,
            Rule::Nothing,
        ),
        Item::probe(
            "Testing disable_group...",
            "disable_group",
            false,
            Action::DisableGroup { group: "test_group".to_owned() },
            false,
            Rule::Nothing,
        ),
        Item::section("VALIDATION (Python)"),
        Item::probe(
            "Testing validate_expression (Python safe)...",
            "validate_expression (python safe)",
            false,
            Action::ValidateExpression {
                expression: "user.id".to_owned(),
                language: "python".to_owned(),
            },
            false,
            Rule::Nothing,
        ),
        Item::probe(
            "Testing validate_expression (Python unsafe)...",
            "validate_expression (python unsafe)",
            false,
            Action::ValidateExpression {
                expression: "eval('bad')".to_owned(),
                language: "python".to_owned(),
            },
            false,
            Rule::Nothing,
        ),
        Item::section("VALIDATION (Go)"),
        Item::probe(
            "Testing validate_expression (Go safe)...",
            "validate_expression (go safe)",
            false,
            Action::ValidateExpression {
                expression: "len(items)".to_owned(),
                language: "go".to_owned(),
            },
            false,
            Rule::Nothing,
        ),
        Item::probe(
            "Testing validate_expression (Go unsafe)...",
            "validate_expression (go unsafe)",
            false,
            Action::ValidateExpression {
                expression: "exec.Command(\"ls\")".to_owned(),
                language: "go".to_owned(),
            },
            false,
            Rule::Nothing,
        ),
        Item::probe(
            "Testing inspect_file...",
            "inspect_file",
            false,
            Action::InspectFile {
                path: "fixtures/python/detrix_example_app.py".to_owned(),
                line: Some(10),
                variable: None,
            },
            false,
            Rule::Nothing,
        ),
        Item::section("CONFIGURATION"),
        Item::probe(
            "Testing get_config...",
            "get_config",
            false,
            Action::GetConfig,
            false,
            Rule::Nothing,
        ),
        Item::probe(
            "Testing validate_config...",
            "validate_config",
            false,
            Action::ValidateConfig { toml: "[server]\nhttp_port = 8080\n".to_owned() },
            false,
            Rule::Nothing,
        ),
        Item::section("CLEANUP"),
        Item::probe(
            "Testing close_connection...",
            "close_connection",
            true,
            Action::CloseConnection { id: "".to_owned() },
            true,
            Rule::Nothing,
        ),
        Item::section("SUMMARY"),
        Item::Verdict,
    ];
    assert(item_views(r@) =~= comprehensive_coverage_script(debugpy_port, script_path@));
    r
}

/// Invalid inputs must be answered, and a connection that does not exist with an error.
pub open spec fn error_handling_script() -> Seq<ItemView> {
    seq![
        ItemView::Section("ERROR HANDLING"@),
        step_call(
            "Get Nonexistent Connection"@,
            plain("Expect error for missing connection"@),
            "get_connection"@,
            Some(plain("id=nonexistent_conn_12345"@)),
            ActionView::GetConnection("nonexistent_conn_12345"@),
            false,
            Rule::ErrorExpected,
            Fault::Accept {
                status: "ERROR"@,
                success: "Correctly returned error for missing connection"@,
            },
        ),
        step_call(
            "Get Nonexistent Metric"@,
            plain("Expect error for missing metric"@),
            "get_metric"@,
            Some(plain("name=nonexistent_metric_xyz"@)),
            ActionView::GetMetric("nonexistent_metric_xyz"@),
            false,
            Rule::Fixed {
                status: "OK"@,
                body: "Returned empty/default"@,
                success: "Handled nonexistent metric gracefully"@,
            },
            Fault::Accept {
                status: "ERROR"@,
                success: "Correctly returned error for missing metric"@,
            },
        ),
        step_call(
            "Validate Empty Expression"@,
            plain("Test empty expression handling"@),
            "validate_expression"@,
            Some(plain("expression=, language=python"@)),
            ActionView::ValidateExpression(""@, "python"@),
            false,
            Rule::EmptyValidated,
            Fault::Accept { status: "ERROR"@, success: "Correctly rejected empty expression"@ },
        ),
        step_call(
            "Close Nonexistent Connection"@,
            plain("Expect error for closing missing connection"@),
            "close_connection"@,
            Some(plain("id=fake_connection_id"@)),
            ActionView::CloseConnection("fake_connection_id"@),
            false,
            Rule::Fixed {
                status: "OK"@,
                body: "Closed (idempotent)"@,
                success: "Handled idempotently"@,
            },
            Fault::Accept {
                status: "ERROR"@,
                success: "Correctly returned error for missing connection"@,
            },
        ),
        step_call(
            "Validate Invalid Config"@,
            plain("Test invalid TOML handling"@),
            "validate_config"@,
            Some(plain("config_toml=invalid{{{{"@)),
            ActionView::ValidateConfig("invalid{{{{"@),
            false,
            Rule::ConfigJudged,
            Fault::Accept {
                status: "ERROR"@,
                success: "Correctly returned error for invalid TOML"@,
            },
        ),
        ItemView::Info("All error handling tests passed"@),
    ]
}

/// Invalid inputs must be answered, and a connection that does not exist with an error.
pub fn scenario_error_handling() -> (r: Vec<Item>)
    ensures
        item_views(r@) == error_handling_script(),
{
    let r: Vec<Item> = vec![
        Item::section("ERROR HANDLING"),
        Item::step_call(
            "Get Nonexistent Connection",
            Text::plain("Expect error for missing connection"),
            "get_connection",
            Some(Text::plain("id=nonexistent_conn_12345")),
            Action::GetConnection { id: "nonexistent_conn_12345".to_owned() },
            false,
            Rule::ErrorExpected,
            Fault::Accept {
                status: "ERROR".to_owned(),
                success: "Correctly returned error for missing connection".to_owned(),
            },
        ),
        Item::step_call(
            "Get Nonexistent Metric",
            Text::plain("Expect error for missing metric"),
            "get_metric",
            Some(Text::plain("name=nonexistent_metric_xyz")),
            Action::GetMetric { name: "nonexistent_metric_xyz".to_owned() },
            false,
            Rule::Fixed {
                status: "OK".to_owned(),
                body: "Returned empty/default".to_owned(),
                success: "Handled nonexistent metric gracefully".to_owned(),
            },
            Fault::Accept {
                status: "ERROR".to_owned(),
                success: "Correctly returned error for missing metric".to_owned(),
            },
        ),
        Item::step_call(
            "Validate Empty Expression",
            Text::plain("Test empty expression handling"),
            "validate_expression",
            Some(Text::plain("expression=, language=python")),
            Action::ValidateExpression {
                expression: "".to_owned(),
                language: "python".to_owned(),
            },
            false,
            Rule::EmptyValidated,
            Fault::Accept {
                status: "ERROR".to_owned(),
                success: "Correctly rejected empty expression".to_owned(),
            },
        ),
        Item::step_call(
            "Close Nonexistent Connection",
            Text::plain("Expect error for closing missing connection"),
            "close_connection",
            Some(Text::plain("id=fake_connection_id")),
            Action::CloseConnection { id: "fake_connection_id".to_owned() },
            false,
            Rule::Fixed {
                status: "OK".to_owned(),
                body: "Closed (idempotent)".to_owned(),
                success: "Handled idempotently".to_owned(),
            },
            Fault::Accept {
                status: "ERROR".to_owned(),
                success: "Correctly returned error for missing connection".to_owned(),
            },
        ),
        Item::step_call(
            "Validate Invalid Config",
            Text::plain("Test invalid TOML handling"),
            "validate_config",
            Some(Text::plain("config_toml=invalid{{{{")),
            Action::ValidateConfig { toml: "invalid{{{{".to_owned() },
            false,
            Rule::ConfigJudged,
            Fault::Accept {
                status: "ERROR".to_owned(),
                success: "Correctly returned error for invalid TOML".to_owned(),
            },
        ),
        Item::info("All error handling tests passed"),
    ];
    assert(item_views(r@) =~= error_handling_script());
    r
}

/// Bursts of requests at the same time; at most two of ten health checks may fail.
pub open spec fn concurrent_requests_script() -> Seq<ItemView> {
    seq![
        ItemView::Section("CONCURRENT REQUESTS"@),
        quiet_call(
            "Concurrent Health Checks"@,
            plain("Run 10 parallel health checks"@),
            ActionView::Burst("/health"@, 10, 5),
            false,
            Rule::BurstHealthy,
            Fault::Ignore,
        ),
        quiet_call(
            "Concurrent List Operations"@,
            plain("Run parallel list_metrics calls"@),
            ActionView::Burst("/api/v1/metrics"@, 5, 10),
            false,
            Rule::BurstShown {
                shown: "/5 list operations succeeded"@,
                completed: " concurrent list operations completed"@,
            },
            Fault::Ignore,
        ),
        quiet_call(
            "Concurrent Status Checks"@,
            plain("Run parallel status checks"@),
            ActionView::Burst("/api/v1/status"@, 5, 10),
            false,
            Rule::BurstShown {
                shown: "/5 status checks succeeded"@,
                completed: " concurrent status checks completed"@,
            },
            Fault::Ignore,
        ),
        ItemView::Info("All concurrent request tests passed"@),
    ]
}

/// Bursts of requests at the same time; at most two of ten health checks may fail.
pub fn scenario_concurrent_requests() -> (r: Vec<Item>)
    ensures
        item_views(r@) == concurrent_requests_script(),
{
    let r: Vec<Item> = vec![
        Item::section("CONCURRENT REQUESTS"),
        Item::quiet_call(
            "Concurrent Health Checks",
            Text::plain("Run 10 parallel health checks"),
            Action::Burst { path: "/health".to_owned(), requests: 10, timeout_secs: 5 },
            false,
            Rule::BurstHealthy,
            Fault::Ignore,
        ),
        Item::quiet_call(
            "Concurrent List Operations",
            Text::plain("Run parallel list_metrics calls"),
            Action::Burst { path: "/api/v1/metrics".to_owned(), requests: 5, timeout_secs: 10 },
            false,
            Rule::BurstShown {
                shown: "/5 list operations succeeded".to_owned(),
                completed: " concurrent list operations completed".to_owned(),
            },
            Fault::Ignore,
        ),
        Item::quiet_call(
            "Concurrent Status Checks",
            Text::plain("Run parallel status checks"),
            Action::Burst { path: "/api/v1/status".to_owned(), requests: 5, timeout_secs: 10 },
            false,
            Rule::BurstShown {
                shown: "/5 status checks succeeded".to_owned(),
                completed: " concurrent status checks completed".to_owned(),
            },
            Fault::Ignore,
        ),
        Item::info("All concurrent request tests passed"),
    ];
    assert(item_views(r@) =~= concurrent_requests_script());
    r
}

/// The observe workflow on the backend that offers the tool.
pub open spec fn observe_workflow_on_mcp_script(debugpy_port: u16, script_path: Seq<char>) -> Seq<ItemView> {
    seq![
        ItemView::Section("OBSERVE WORKFLOW (MCP-only)"@),
        step_call(
            "Create Connection"@,
            plain("Connect to debugger at 127.0.0.1:"@ + decimal(debugpy_port as nat)),
            "create_connection"@,
            Some(plain("port="@ + decimal(debugpy_port as nat) + ", language=python"@)),
            ActionView::CreateConnection("127.0.0.1"@, debugpy_port, "python"@, None),
            false,
            Rule::ConnectedShort,
            Fault::FailStep,
        ),
        ItemView::Pause(2000),
        step_call(
            "Observe (Explicit Line)"@,
            plain("Use observe tool with explicit line number"@),
            "observe"@,
            Some(plain("file="@ + script_path + ", expression=price, line=22"@)),
            ActionView::Observe(
                ObserveRequestView {
                    line: Some(22),
                    connection_id: Some(""@),
                    name: Some("explicit_line_metric"@),
                    ..bare_observe(script_path, "price"@)
                },
            ),
            true,
            Rule::ObservedLine,
            Fault::FailContinue,
        ),
        step_call(
            "Observe (Auto-Find Line)"@,
            plain("Use observe tool to auto-find best line for variable"@),
            "observe"@,
            Some(plain("file="@ + script_path + ", expression=symbol, find_variable=symbol"@)),
            ActionView::Observe(
                ObserveRequestView {
                    find_variable: Some("symbol"@),
                    connection_id: Some(""@),
                    ..bare_observe(script_path, "symbol"@)
                },
            ),
            true,
            Rule::ObservedFound,
            Fault::AutoFindFailed,
        ),
        step_call(
            "Observe (With Introspection)"@,
            plain("Use observe tool with stack trace and memory snapshot"@),
            "observe"@,
            Some(
                plain(
                    "file="@ + script_path + ", expression=quantity, line=25, capture_stack_trace=true, capture_memory_snapshot=true"@,
                ),
            ),
            ActionView::Observe(
                ObserveRequestView {
                    line: Some(25),
                    connection_id: Some(""@),
                    group: Some("observe_test"@),
                    capture_stack_trace: Some(true),
                    capture_memory_snapshot: Some(true),
                    ..bare_observe(script_path, "quantity"@)
                },
            ),
            true,
            Rule::ObservedIntrospection,
            Fault::FailContinue,
        ),
        ItemView::Section("VERIFY EVENTS"@),
        ItemView::Step("Wait for Events"@, "Wait for observe metrics to capture data"@),
        ItemView::Pause(5000),
        silent(ActionView::ListMetrics, false, Rule::ObservedListed, Fault::Propagate),
        ItemView::Total,
        ItemView::Section("CLEANUP"@),
        silent(
            ActionView::RemoveMetric("explicit_line_metric"@),
            false,
            Rule::Nothing,
            Fault::Ignore,
        ),
        silent(ActionView::ListMetrics, false, Rule::LeftoversListed, Fault::Ignore),
        quiet_call(
            "Close Connection"@,
            around("Close '"@, "'"@),
            ActionView::CloseConnection(""@),
            true,
            Rule::Done { success: "Connection closed"@ },
            Fault::FailContinue,
        ),
        ItemView::Info("Observe workflow completed successfully"@),
    ]
}

/// The observe workflow on the backend that offers the tool.
fn observe_workflow_on_mcp(debugpy_port: u16, script_path: &str) -> (r: Vec<Item>)
    ensures
        item_views(r@) == observe_workflow_on_mcp_script(debugpy_port, script_path@),
{
    let r: Vec<Item> = vec![
        Item::section("OBSERVE WORKFLOW (MCP-only)"),
        Item::step_call(
            "Create Connection",
            Text::plain(
                cat2(
                    "Connect to debugger at 127.0.0.1:",
                    num(debugpy_port as u64).as_str(),
                ).as_str(),
            ),
            "create_connection",
            Some(
                Text::plain(
                    cat3(
                        "port=",
                        num(debugpy_port as u64).as_str(),
                        ", language=python",
                    ).as_str(),
                ),
            ),
            Action::CreateConnection {
                host: "127.0.0.1".to_owned(),
                port: debugpy_port,
                language: "python".to_owned(),
                program: None,
            },
            false,
            Rule::ConnectedShort,
            Fault::FailStep,
        ),
        Item::pause(2000),
        Item::step_call(
            "Observe (Explicit Line)",
            Text::plain("Use observe tool with explicit line number"),
            "observe",
            Some(
                Text::plain(cat3("file=", script_path, ", expression=price, line=22").as_str()),
            ),
            Action::Observe {
                request: ObserveRequest::new(
                    script_path,
                    "price",
                ).with_line(22).with_connection_id("").with_name("explicit_line_metric"),
            },
            true,
            Rule::ObservedLine,
            Fault::FailContinue,
        ),
        Item::step_call(
            "Observe (Auto-Find Line)",
            Text::plain("Use observe tool to auto-find best line for variable"),
            "observe",
            Some(
                Text::plain(
                    cat3(
                        "file=",
                        script_path,
                        ", expression=symbol, find_variable=symbol",
                    ).as_str(),
                ),
            ),
            Action::Observe {
                request: ObserveRequest::new(
                    script_path,
                    "symbol",
                ).with_find_variable("symbol").with_connection_id(""),
            },
            true,
            Rule::ObservedFound,
            Fault::AutoFindFailed,
        ),
        Item::step_call(
            "Observe (With Introspection)",
            Text::plain("Use observe tool with stack trace and memory snapshot"),
            "observe",
            Some(
                Text::plain(
                    cat3(
                        "file=",
                        script_path,
                        ", expression=quantity, line=25, capture_stack_trace=true, capture_memory_snapshot=true",
                    ).as_str(),
                ),
            ),
            Action::Observe {
                request: ObserveRequest::new(
                    script_path,
                    "quantity",
                ).with_line(25).with_connection_id("").with_group("observe_test").with_introspection(),
            },
            true,
            Rule::ObservedIntrospection,
            Fault::FailContinue,
        ),
        Item::section("VERIFY EVENTS"),
        Item::Step {
            name: "Wait for Events".to_owned(),
            description: "Wait for observe metrics to capture data".to_owned(),
        },
        Item::pause(5000),
        Item::silent(Action::ListMetrics, false, Rule::ObservedListed, Fault::Propagate),
        Item::Total,
        Item::section("CLEANUP"),
        Item::silent(
            Action::RemoveMetric { name: "explicit_line_metric".to_owned() },
            false,
            Rule::Nothing,
            Fault::Ignore,
        ),
        Item::silent(Action::ListMetrics, false, Rule::LeftoversListed, Fault::Ignore),
        Item::quiet_call(
            "Close Connection",
            Text::around("Close '", "'"),
            Action::CloseConnection { id: "".to_owned() },
            true,
            Rule::Done { success: "Connection closed".to_owned() },
            Fault::FailContinue,
        ),
        Item::info("Observe workflow completed successfully"),
    ];
    assert(item_views(r@) =~= observe_workflow_on_mcp_script(debugpy_port, script_path@));
    r
}

/// The observe tool without a connection, on the backend that offers it.
pub open spec fn observe_auto_connection_on_mcp_script(debugpy_port: u16, script_path: Seq<char>) -> Seq<ItemView> {
    seq![
        ItemView::Section("OBSERVE AUTO-CONNECTION"@),
        quiet_call(
            "Create Single Connection"@,
            plain("Create connection so observe can auto-select it"@),
            ActionView::CreateConnection("127.0.0.1"@, debugpy_port, "python"@, None),
            false,
            Rule::ConnectedBare,
            Fault::FailStep,
        ),
        ItemView::Pause(2000),
        step_call(
            "Observe (Auto-Select Connection)"@,
            plain("Observe without connection_id - should auto-select the only connection"@),
            "observe"@,
            Some(plain("file="@ + script_path + ", expression=price, line=22"@)),
            ActionView::Observe(
                ObserveRequestView {
                    line: Some(22),
                    name: Some("auto_conn_test"@),
                    ..bare_observe(script_path, "price"@)
                },
            ),
            false,
            Rule::ObservedSelected,
            Fault::FailContinue,
        ),
        silent(ActionView::RemoveMetric("auto_conn_test"@), false, Rule::Nothing, Fault::Ignore),
        silent(ActionView::CloseConnection(""@), true, Rule::Nothing, Fault::Ignore),
    ]
}

/// The observe tool without a connection, on the backend that offers it.
fn observe_auto_connection_on_mcp(debugpy_port: u16, script_path: &str) -> (r: Vec<Item>)
    ensures
        item_views(r@) == observe_auto_connection_on_mcp_script(debugpy_port, script_path@),
{
    let r: Vec<Item> = vec![
        Item::section("OBSERVE AUTO-CONNECTION"),
        Item::quiet_call(
            "Create Single Connection",
            Text::plain("Create connection so observe can auto-select it"),
            Action::CreateConnection {
                host: "127.0.0.1".to_owned(),
                port: debugpy_port,
                language: "python".to_owned(),
                program: None,
            },
            false,
            Rule::ConnectedBare,
            Fault::FailStep,
        ),
        Item::pause(2000),
        Item::step_call(
            "Observe (Auto-Select Connection)",
            Text::plain(
                "Observe without connection_id - should auto-select the only connection",
            ),
            "observe",
            Some(
                Text::plain(cat3("file=", script_path, ", expression=price, line=22").as_str()),
            ),
            Action::Observe {
                request: ObserveRequest::new(
                    script_path,
                    "price",
                ).with_line(22).with_name("auto_conn_test"),
            },
            false,
            Rule::ObservedSelected,
            Fault::FailContinue,
        ),
        Item::silent(
            Action::RemoveMetric { name: "auto_conn_test".to_owned() },
            false,
            Rule::Nothing,
            Fault::Ignore,
        ),
        Item::silent(
            Action::CloseConnection { id: "".to_owned() },
            true,
            Rule::Nothing,
            Fault::Ignore,
        ),
    ];
    assert(item_views(r@) =~= observe_auto_connection_on_mcp_script(debugpy_port, script_path@));
    r
}

/// The usage statistics are asked for.
pub open spec fn get_mcp_usage_script() -> Seq<ItemView> {
    seq![
        step_call(
            "Get MCP Usage"@,
            plain("Get MCP tool usage statistics"@),
            "get_mcp_usage"@,
            None,
            ActionView::GetMcpUsage,
            false,
            Rule::UsageShown,
            Fault::Propagate,
        ),
    ]
}

/// The usage statistics are asked for.
pub fn scenario_get_mcp_usage() -> (r: Vec<Item>)
    ensures
        item_views(r@) == get_mcp_usage_script(),
{
    let r: Vec<Item> = vec![
        Item::step_call(
            "Get MCP Usage",
            Text::plain("Get MCP tool usage statistics"),
            "get_mcp_usage",
            None,
            Action::GetMcpUsage,
            false,
            Rule::UsageShown,
            Fault::Propagate,
        ),
    ];
    assert(item_views(r@) =~= get_mcp_usage_script());
    r
}

/// The observe workflow: on a backend without the tool nothing is called.
pub open spec fn observe_workflow_script(
    backend: BackendType,
    debugpy_port: u16,
    script_path: Seq<char>,
) -> Seq<ItemView> {
    if backend_capabilities(backend).supports_mcp_tools {
        observe_workflow_on_mcp_script(debugpy_port, script_path)
    } else {
        seq![
            ItemView::Section("OBSERVE WORKFLOW (MCP-only)"@),
            ItemView::Info("Skipping observe workflow - only supported on MCP backend"@),
            ItemView::Info("Backend "@ + backend_name(backend) + " does not support MCP tools"@),
        ]
    }
}

/// The observe workflow: on a backend without the tool nothing is called.
pub fn scenario_observe_workflow(
    backend: BackendType,
    debugger_port: u16,
    script_path: &str,
) -> (r: Vec<Item>)
    ensures
        item_views(r@) == observe_workflow_script(backend, debugger_port, script_path@),
{
    if backend.capabilities().supports_mcp_tools {
        observe_workflow_on_mcp(debugger_port, script_path)
    } else {
        let r: Vec<Item> = vec![
            Item::section("OBSERVE WORKFLOW (MCP-only)"),
            Item::info("Skipping observe workflow - only supported on MCP backend"),
            Item::info(cat3("Backend ", backend.name(), " does not support MCP tools").as_str()),
        ];
        assert(item_views(r@) =~= observe_workflow_script(backend, debugger_port, script_path@));
        r
    }
}

/// The observe tool without a connection: on a backend without the tool nothing is called.
pub open spec fn observe_auto_connection_script(
    backend: BackendType,
    debugpy_port: u16,
    script_path: Seq<char>,
) -> Seq<ItemView> {
    if backend_capabilities(backend).supports_mcp_tools {
        observe_auto_connection_on_mcp_script(debugpy_port, script_path)
    } else {
        seq![
            ItemView::Section("OBSERVE AUTO-CONNECTION"@),
            ItemView::Info("Skipping - only supported on MCP backend"@),
        ]
    }
}

/// The observe tool without a connection: on a backend without the tool nothing is called.
pub fn scenario_observe_auto_connection(
    backend: BackendType,
    debugger_port: u16,
    script_path: &str,
) -> (r: Vec<Item>)
    ensures
        item_views(r@) == observe_auto_connection_script(backend, debugger_port, script_path@),
{
    if backend.capabilities().supports_mcp_tools {
        observe_auto_connection_on_mcp(debugger_port, script_path)
    } else {
        let r: Vec<Item> = vec![
            Item::section("OBSERVE AUTO-CONNECTION"),
            Item::info("Skipping - only supported on MCP backend"),
        ];
        assert(item_views(r@) =~= observe_auto_connection_script(
            backend,
            debugger_port,
            script_path@,
        ));
        r
    }
}

} // verus!
