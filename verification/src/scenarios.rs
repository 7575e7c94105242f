//! Reusable scenarios, as scripts that run against every API backend.

use vstd::prelude::*;

use crate::client::{bare_request, AddMetricRequest};
use crate::exchange::{Action, ActionView};
use crate::script::{
    around, followed_by, item_views, plain, safety_str, safety_text, step_call, Fault, Item,
    ItemView, Rule, Text, Wait, WaitView,
};
use crate::text::{
    bool_str, bool_text, cat2, cat4, cat5, cat6, cat7, decimal, join, joined, num, views,
};

pub mod laws;

verus! {

/// The collection of reusable scenarios.
pub struct TestScenarios;

/// One item as a script.
pub fn one(item: Item) -> (r: Vec<Item>)
    ensures
        item_views(r@) == seq![item@],
{
    let mut r: Vec<Item> = Vec::new();
    r.push(item);
    assert(item_views(r@) =~= seq![item@]);
    r
}

/// The API must be healthy.
pub open spec fn health_check() -> ItemView {
    step_call(
        "Health Check"@,
        plain("Verify API is healthy"@),
        "GET"@,
        Some(plain("/health"@)),
        ActionView::Health,
        false,
        Rule::Healthy,
        Fault::FailStep,
    )
}

/// The status is asked for.
pub open spec fn get_status() -> ItemView {
    step_call(
        "Get Status"@,
        plain("Retrieve system status"@),
        "get_status"@,
        None,
        ActionView::GetStatus,
        false,
        Rule::StatusShown,
        Fault::FailStep,
    )
}

/// The daemon is woken and put to sleep.
pub open spec fn wake_sleep_cycle() -> Seq<ItemView> {
    seq![
        step_call(
            "Wake"@,
            plain("Wake Detrix from sleep"@),
            "wake"@,
            None,
            ActionView::Wake,
            false,
            Rule::TextShown { success: "Woke successfully"@ },
            Fault::FailStep,
        ),
        step_call(
            "Sleep"@,
            plain("Put Detrix to sleep"@),
            "sleep"@,
            None,
            ActionView::Sleep,
            false,
            Rule::TextShown { success: "Sleeping"@ },
            Fault::FailStep,
        ),
    ]
}

/// A connection is created.
pub open spec fn create_connection(host: Seq<char>, port: u16, language: Seq<char>) -> ItemView {
    let p = decimal(port as nat);
    step_call(
        "Create Connection"@,
        plain("Connect to "@ + host + ":"@ + p + " ("@ + language + ")"@),
        "create_connection"@,
        Some(plain("host="@ + host + ", port="@ + p + ", language="@ + language)),
        ActionView::CreateConnection(host, port, language, None),
        false,
        Rule::Connected,
        Fault::FailStep,
    )
}

/// The connections are listed.
pub open spec fn list_connections() -> ItemView {
    step_call(
        "List Connections"@,
        plain("List all debugger connections"@),
        "list_connections"@,
        None,
        ActionView::ListConnections,
        false,
        Rule::ConnectionsListed,
        Fault::FailStep,
    )
}

/// A connection is closed: the given one, or that of the script.
pub open spec fn close_connection(connection_id: Option<Seq<char>>) -> ItemView {
    step_call(
        "Close Connection"@,
        match connection_id {
            Some(id) => plain("Close "@ + id),
            None => around("Close "@, ""@),
        },
        "close_connection"@,
        Some(
            match connection_id {
                Some(id) => plain(id),
                None => around(""@, ""@),
            },
        ),
        ActionView::CloseConnection(
            match connection_id {
                Some(id) => id,
                None => ""@,
            },
        ),
        connection_id is None,
        Rule::Done { success: "Connection closed"@ },
        Fault::FailStep,
    )
}

/// A metric is added to a connection: the given one, or that of the script.
pub open spec fn add_metric(
    name: Seq<char>,
    location: Seq<char>,
    expression: Seq<char>,
    expressions: Seq<Seq<char>>,
    connection_id: Option<Seq<char>>,
) -> ItemView {
    let details = "name="@ + name + ", location="@ + location + ", expression="@ + expression
        + ", connection_id="@;
    step_call(
        "Add Metric"@,
        plain("Add '"@ + name + "' at "@ + location + " with expr '"@ + expression + "'"@),
        "add_metric"@,
        Some(
            match connection_id {
                Some(id) => plain(details + id),
                None => around(details, ""@),
            },
        ),
        ActionView::AddMetric(
            bare_request(
                name,
                location,
                expressions,
                match connection_id {
                    Some(id) => id,
                    None => ""@,
                },
            ),
        ),
        connection_id is None,
        Rule::MetricAdded { name },
        Fault::FailStep,
    )
}

/// The metrics are listed.
pub open spec fn list_metrics() -> ItemView {
    step_call(
        "List Metrics"@,
        plain("List all configured metrics"@),
        "list_metrics"@,
        None,
        ActionView::ListMetrics,
        false,
        Rule::MetricsListed,
        Fault::FailStep,
    )
}

/// A metric is removed.
pub open spec fn remove_metric(name: Seq<char>) -> ItemView {
    step_call(
        "Remove Metric"@,
        plain("Remove '"@ + name + "'"@),
        "remove_metric"@,
        Some(plain(name)),
        ActionView::RemoveMetric(name),
        false,
        Rule::Done { success: "Metric removed"@ },
        Fault::FailStep,
    )
}

/// A metric is enabled or disabled.
pub open spec fn toggle_metric(name: Seq<char>, enabled: bool) -> ItemView {
    let action = if enabled {
        "Enable"@
    } else {
        "Disable"@
    };
    step_call(
        action + " Metric"@,
        plain(action + " '"@ + name + "'"@),
        "toggle_metric"@,
        Some(plain("name="@ + name + ", enabled="@ + bool_text(enabled))),
        ActionView::ToggleMetric(name, enabled),
        false,
        Rule::Done {
            success: if enabled {
                "Metric enabled"@
            } else {
                "Metric disabled"@
            },
        },
        Fault::FailStep,
    )
}

/// The events of a metric are asked for.
pub open spec fn query_events(name: Seq<char>, limit: u32) -> ItemView {
    let n = decimal(limit as nat);
    step_call(
        "Query Events"@,
        plain("Query events for '"@ + name + "' (limit="@ + n + ")"@),
        "query_events"@,
        Some(plain("name="@ + name + ", limit="@ + n)),
        ActionView::QueryEvents(name, limit),
        false,
        Rule::EventsListed,
        Fault::FailStep,
    )
}

/// An expression is validated, with the finding that is expected.
pub open spec fn validate_expression(
    expression: Seq<char>,
    language: Seq<char>,
    expect_safe: bool,
) -> ItemView {
    step_call(
        "Validate Expression"@,
        plain(
            "Validate '"@ + expression + "' ("@ + language + ") (expect: "@ + safety_text(
                expect_safe,
            ) + ")"@,
        ),
        "validate_expression"@,
        Some(plain("expression="@ + expression + ", language="@ + language)),
        ActionView::ValidateExpression(expression, language),
        false,
        Rule::Validated { expect_safe },
        Fault::FailStep,
    )
}

/// The whole life of a metric: connect, add, list, wait for an event, disable, remove.
pub open spec fn full_metric_lifecycle(
    host: Seq<char>,
    port: u16,
    name: Seq<char>,
    location: Seq<char>,
    expression: Seq<char>,
    wait_secs: u64,
) -> Seq<ItemView> {
    seq![
        ItemView::Section("SETUP"@),
        health_check(),
        create_connection(host, port, "python"@),
        ItemView::Info("Waiting for DAP handshake..."@),
        ItemView::Pause(2000),
        ItemView::Section("METRICS"@),
        add_metric(name, location, expression, seq![expression], None),
        ItemView::Pause(500),
        list_metrics(),
        ItemView::Section("EVENTS"@),
        ItemView::Wait(WaitView { metric: name, min_events: 1, timeout_secs: wait_secs }),
        ItemView::InfoCount("Captured "@, " events"@),
        ItemView::Section("CLEANUP"@),
        toggle_metric(name, false),
        remove_metric(name),
        list_connections(),
    ]
}

/// All endpoints that need no connection.
pub open spec fn all_endpoints() -> Seq<ItemView> {
    seq![ItemView::Section("HEALTH & STATUS"@), health_check(), get_status()] + wake_sleep_cycle()
        + seq![
        ItemView::Section("VALIDATION (Python)"@),
        validate_expression("user.id"@, "python"@, true),
        validate_expression("eval('bad')"@, "python"@, false),
        ItemView::Section("VALIDATION (Go)"@),
        validate_expression("len(items)"@, "go"@, true),
        validate_expression("exec.Command(\"ls\")"@, "go"@, false),
        ItemView::Section("METRICS (without connection)"@),
        list_metrics(),
        ItemView::InfoCount(
            "Listed "@,
            " metrics without active connection (expected 0 or more)"@,
        ),
    ]
}

impl TestScenarios {
    /// The API must be healthy.
    pub fn health_check() -> (r: Item)
        ensures
            r@ == health_check(),
    {
        Item::step_call(
            "Health Check",
            Text::plain("Verify API is healthy"),
            "GET",
            Some(Text::plain("/health")),
            Action::Health,
            false,
            Rule::Healthy,
            Fault::FailStep,
        )
    }

    /// The status is asked for.
    pub fn get_status() -> (r: Item)
        ensures
            r@ == get_status(),
    {
        Item::step_call(
            "Get Status",
            Text::plain("Retrieve system status"),
            "get_status",
            None,
            Action::GetStatus,
            false,
            Rule::StatusShown,
            Fault::FailStep,
        )
    }

    /// The daemon is woken and put to sleep.
    pub fn wake_sleep_cycle() -> (r: Vec<Item>)
        ensures
            item_views(r@) == wake_sleep_cycle(),
    {
        let r: Vec<Item> = vec![
            Item::step_call(
                "Wake",
                Text::plain("Wake Detrix from sleep"),
                "wake",
                None,
                Action::Wake,
                false,
                Rule::TextShown { success: "Woke successfully".to_owned() },
                Fault::FailStep,
            ),
            Item::step_call(
                "Sleep",
                Text::plain("Put Detrix to sleep"),
                "sleep",
                None,
                Action::Sleep,
                false,
                Rule::TextShown { success: "Sleeping".to_owned() },
                Fault::FailStep,
            ),
        ];
        assert(item_views(r@) =~= wake_sleep_cycle());
        r
    }

    /// A connection is created.
    pub fn create_connection(host: &str, port: u16, language: &str) -> (r: Item)
        ensures
            r@ == create_connection(host@, port, language@),
    {
        let p: String = num(port as u64);
        let description: String = cat7("Connect to ", host, ":", p.as_str(), " (", language, ")");
        let details: String = cat6("host=", host, ", port=", p.as_str(), ", language=", language);
        Item::step_call(
            "Create Connection",
            Text::plain(description.as_str()),
            "create_connection",
            Some(Text::plain(details.as_str())),
            Action::CreateConnection {
                host: host.to_owned(),
                port,
                language: language.to_owned(),
                program: None,
            },
            false,
            Rule::Connected,
            Fault::FailStep,
        )
    }

    /// The connections are listed.
    pub fn list_connections() -> (r: Item)
        ensures
            r@ == list_connections(),
    {
        Item::step_call(
            "List Connections",
            Text::plain("List all debugger connections"),
            "list_connections",
            None,
            Action::ListConnections,
            false,
            Rule::ConnectionsListed,
            Fault::FailStep,
        )
    }

    /// A connection is closed: the given one, or that of the script.
    pub fn close_connection(connection_id: Option<&str>) -> (r: Item)
        ensures
            r@ == close_connection(crate::text::opt_str_view(connection_id)),
    {
        match connection_id {
            Some(id) => Item::step_call(
                "Close Connection",
                Text::plain(cat2("Close ", id).as_str()),
                "close_connection",
                Some(Text::plain(id)),
                Action::CloseConnection { id: id.to_owned() },
                false,
                Rule::Done { success: "Connection closed".to_owned() },
                Fault::FailStep,
            ),
            None => Item::step_call(
                "Close Connection",
                Text::around("Close ", ""),
                "close_connection",
                Some(Text::around("", "")),
                Action::CloseConnection { id: "".to_owned() },
                true,
                Rule::Done { success: "Connection closed".to_owned() },
                Fault::FailStep,
            ),
        }
    }

    /// A metric is added to a connection: the given one, or that of the script.
    pub fn add_metric(
        name: &str,
        location: &str,
        expression: &str,
        connection_id: Option<&str>,
    ) -> (r: Item)
        ensures
            r@ == add_metric(
                name@,
                location@,
                expression@,
                seq![expression@],
                crate::text::opt_str_view(connection_id),
            ),
    {
        let mut expressions: Vec<String> = Vec::new();
        expressions.push(expression.to_owned());
        assert(views(expressions@) =~= seq![expression@]);
        Self::add_expressions(name, location, expression, expressions, connection_id)
    }

    /// A metric for several expressions is added to a connection: the given one, or that of the
    /// script.
    pub fn add_multi_expr_metric(
        name: &str,
        location: &str,
        expressions: Vec<String>,
        connection_id: Option<&str>,
    ) -> (r: Item)
        ensures
            r@ == add_metric(
                name@,
                location@,
                joined(views(expressions@), ", "@),
                views(expressions@),
                crate::text::opt_str_view(connection_id),
            ),
    {
        let shown: String = join(&expressions, ", ");
        Self::add_expressions(name, location, shown.as_str(), expressions, connection_id)
    }

    fn add_expressions(
        name: &str,
        location: &str,
        shown: &str,
        expressions: Vec<String>,
        connection_id: Option<&str>,
    ) -> (r: Item)
        ensures
            r@ == add_metric(
                name@,
                location@,
                shown@,
                views(expressions@),
                crate::text::opt_str_view(connection_id),
            ),
    {
        let description: String = cat7("Add '", name, "' at ", location, " with expr '", shown, "'");
        let details: String = cat7(
            "name=",
            name,
            ", location=",
            location,
            ", expression=",
            shown,
            ", connection_id=",
        );
        match connection_id {
            Some(id) => Item::step_call(
                "Add Metric",
                Text::plain(description.as_str()),
                "add_metric",
                Some(Text::plain(cat2(details.as_str(), id).as_str())),
                Action::AddMetric {
                    request: AddMetricRequest::new_multi(name, location, expressions, id),
                },
                false,
                Rule::MetricAdded { name: name.to_owned() },
                Fault::FailStep,
            ),
            None => Item::step_call(
                "Add Metric",
                Text::plain(description.as_str()),
                "add_metric",
                Some(Text::around(details.as_str(), "")),
                Action::AddMetric {
                    request: AddMetricRequest::new_multi(name, location, expressions, ""),
                },
                true,
                Rule::MetricAdded { name: name.to_owned() },
                Fault::FailStep,
            ),
        }
    }

    /// The metrics are listed.
    pub fn list_metrics() -> (r: Item)
        ensures
            r@ == list_metrics(),
    {
        Item::step_call(
            "List Metrics",
            Text::plain("List all configured metrics"),
            "list_metrics",
            None,
            Action::ListMetrics,
            false,
            Rule::MetricsListed,
            Fault::FailStep,
        )
    }

    /// A metric is removed.
    pub fn remove_metric(name: &str) -> (r: Item)
        ensures
            r@ == remove_metric(name@),
    {
        Item::step_call(
            "Remove Metric",
            Text::plain(crate::text::cat3("Remove '", name, "'").as_str()),
            "remove_metric",
            Some(Text::plain(name)),
            Action::RemoveMetric { name: name.to_owned() },
            false,
            Rule::Done { success: "Metric removed".to_owned() },
            Fault::FailStep,
        )
    }

    /// A metric is enabled or disabled.
    pub fn toggle_metric(name: &str, enabled: bool) -> (r: Item)
        ensures
            r@ == toggle_metric(name@, enabled),
    {
        let action: &str = if enabled {
            "Enable"
        } else {
            "Disable"
        };
        Item::step_call(
            cat2(action, " Metric").as_str(),
            Text::plain(cat4(action, " '", name, "'").as_str()),
            "toggle_metric",
            Some(Text::plain(cat4("name=", name, ", enabled=", bool_str(enabled)).as_str())),
            Action::ToggleMetric { name: name.to_owned(), enabled },
            false,
            Rule::Done {
                success: if enabled {
                    "Metric enabled".to_owned()
                } else {
                    "Metric disabled".to_owned()
                },
            },
            Fault::FailStep,
        )
    }

    /// The events of a metric are asked for.
    pub fn query_events(metric_name: &str, limit: u32) -> (r: Item)
        ensures
            r@ == query_events(metric_name@, limit),
    {
        let n: String = num(limit as u64);
        Item::step_call(
            "Query Events",
            Text::plain(
                cat5("Query events for '", metric_name, "' (limit=", n.as_str(), ")").as_str(),
            ),
            "query_events",
            Some(Text::plain(cat4("name=", metric_name, ", limit=", n.as_str()).as_str())),
            Action::QueryEvents { name: metric_name.to_owned(), limit },
            false,
            Rule::EventsListed,
            Fault::FailStep,
        )
    }

    /// The script polls until a metric has enough events or the time is up.
    pub fn wait_for_events(metric_name: &str, min_events: usize, timeout_secs: u64) -> (r: Item)
        ensures
            r@ == ItemView::Wait(WaitView { metric: metric_name@, min_events, timeout_secs }),
    {
        Item::Wait { wait: Wait { metric: metric_name.to_owned(), min_events, timeout_secs } }
    }

    /// An expression is validated, with the finding that is expected.
    pub fn validate_expression(expression: &str, language: &str, expect_safe: bool) -> (r: Item)
        ensures
            r@ == validate_expression(expression@, language@, expect_safe),
    {
        Item::step_call(
            "Validate Expression",
            Text::plain(
                cat7(
                    "Validate '",
                    expression,
                    "' (",
                    language,
                    ") (expect: ",
                    safety_str(expect_safe),
                    ")",
                ).as_str(),
            ),
            "validate_expression",
            Some(
                Text::plain(cat4("expression=", expression, ", language=", language).as_str()),
            ),
            Action::ValidateExpression {
                expression: expression.to_owned(),
                language: language.to_owned(),
            },
            false,
            Rule::Validated { expect_safe },
            Fault::FailStep,
        )
    }

    /// The whole life of a metric: connect, add, list, wait for an event, disable, remove.
    pub fn full_metric_lifecycle(
        debugpy_host: &str,
        debugpy_port: u16,
        metric_name: &str,
        metric_location: &str,
        metric_expression: &str,
        wait_for_events_secs: u64,
    ) -> (r: Vec<Item>)
        ensures
            item_views(r@) == full_metric_lifecycle(
                debugpy_host@,
                debugpy_port,
                metric_name@,
                metric_location@,
                metric_expression@,
                wait_for_events_secs,
            ),
    {
        let r: Vec<Item> = vec![
            Item::section("SETUP"),
            Self::health_check(),
            Self::create_connection(debugpy_host, debugpy_port, "python"),
            Item::info("Waiting for DAP handshake..."),
            Item::pause(2000),
            Item::section("METRICS"),
            Self::add_metric(metric_name, metric_location, metric_expression, None),
            Item::pause(500),
            Self::list_metrics(),
            Item::section("EVENTS"),
            Self::wait_for_events(metric_name, 1, wait_for_events_secs),
            Item::InfoCount { before: "Captured ".to_owned(), after: " events".to_owned() },
            Item::section("CLEANUP"),
            Self::toggle_metric(metric_name, false),
            Self::remove_metric(metric_name),
            Self::list_connections(),
        ];
        assert(item_views(r@) =~= full_metric_lifecycle(
            debugpy_host@,
            debugpy_port,
            metric_name@,
            metric_location@,
            metric_expression@,
            wait_for_events_secs,
        ));
        r
    }

    /// All endpoints that need no connection.
    pub fn all_endpoints() -> (r: Vec<Item>)
        ensures
            item_views(r@) == all_endpoints(),
    {
        let a: Vec<Item> = vec![
            Item::section("HEALTH & STATUS"),
            Self::health_check(),
            Self::get_status(),
        ];
        let b: Vec<Item> = vec![
            Item::section("VALIDATION (Python)"),
            Self::validate_expression("user.id", "python", true),
            Self::validate_expression("eval('bad')", "python", false),
            Item::section("VALIDATION (Go)"),
            Self::validate_expression("len(items)", "go", true),
            Self::validate_expression("exec.Command(\"ls\")", "go", false),
            Item::section("METRICS (without connection)"),
            Self::list_metrics(),
            Item::InfoCount {
                before: "Listed ".to_owned(),
                after: " metrics without active connection (expected 0 or more)".to_owned(),
            },
        ];
        let ghost va = item_views(a@);
        let ghost vb = item_views(b@);
        let r: Vec<Item> = followed_by(followed_by(a, Self::wake_sleep_cycle()), b);
        assert(va =~= seq![ItemView::Section("HEALTH & STATUS"@), health_check(), get_status()]);
        assert(item_views(r@) =~= all_endpoints());
        r
    }
}

} // verus!
