use std::collections::HashMap;

use detrix_testing::client::{
    AddMetricRequest, ApiError, ApiResponse, CapturedStackTrace, ConnectionInfo, EventInfo,
    GroupInfo, McpUsageInfo, McpWorkflowInfo, MemorySnapshot, MetricInfo, ObserveResponse,
    SnapshotVariable, StackFrame, StatusInfo, ValidationResult,
};
use detrix_testing::dap_scenarios::workflow::{allowed_new_events, single_wait_ms};
use detrix_testing::dap_scenarios::{
    go_classic_lines, go_lines, go_nested_lines, python_lines, rust_lines, DapLanguageExt,
    DapWorkflowConfig, DapWorkflowScenarios, SourceLanguage,
};
use detrix_testing::exchange::{Action, Event, Next};
use detrix_testing::json::read_json;
use detrix_testing::report::Report;
use detrix_testing::scenarios::{one, TestScenarios};
use detrix_testing::script::{Item, Outcome, Script, ScriptNext};
use detrix_testing::unified::{
    scenario_all_basic_endpoints, scenario_comprehensive_coverage, scenario_concurrent_requests,
    scenario_connection_lifecycle, scenario_error_handling, scenario_get_metric_nonexistent,
    scenario_group_operations, scenario_metric_crud, scenario_multi_expr_metric,
    scenario_observe_workflow, scenario_validate_unsafe_expression, streaming_unsupported,
    BackendType,
};

/// A daemon that keeps what it is told, and captures events for metrics that are enabled.
struct Daemon {
    connections: Vec<ConnectionInfo>,
    metrics: Vec<MetricInfo>,
    events: HashMap<String, usize>,
    /// Metrics that are refused.
    refused: Vec<String>,
    /// Metrics that go on capturing events when they are disabled.
    stubborn: Vec<String>,
    /// Metrics that never capture an event.
    silent: Vec<String>,
    restarts: usize,
    fail: Option<&'static str>,
}

fn ok<T>(data: T) -> Result<ApiResponse<T>, ApiError> {
    Ok(ApiResponse { data, raw_response: None })
}

fn err<T>(message: &str) -> Result<ApiResponse<T>, ApiError> {
    Err(ApiError { message: message.to_string(), code: None, raw_response: None })
}

impl Daemon {
    fn new() -> Daemon {
        Daemon {
            connections: Vec::new(),
            metrics: Vec::new(),
            events: HashMap::new(),
            refused: Vec::new(),
            stubborn: Vec::new(),
            silent: Vec::new(),
            restarts: 0,
            fail: None,
        }
    }

    fn metric(r: &AddMetricRequest) -> MetricInfo {
        MetricInfo {
            name: r.name.clone(),
            location: r.location.clone(),
            expression: r.expression.clone(),
            expressions: r.expressions.clone(),
            group: r.group.clone(),
            enabled: r.enabled != Some(false),
            mode: r.mode.clone(),
        }
    }

    fn captured(&mut self, name: &str) -> Vec<EventInfo> {
        let active = self.metrics.iter().any(|m| m.name == name && m.enabled)
            || self.stubborn.iter().any(|s| s == name);
        let silent = self.silent.iter().any(|s| s == name);
        let expressions: Vec<String> = self
            .metrics
            .iter()
            .filter(|m| m.name == name)
            .flat_map(|m| m.expressions.clone())
            .collect();
        let n = self.events.entry(name.to_string()).or_insert(0);
        if active && !silent {
            *n += 2;
        }
        (0..*n)
            .map(|i| EventInfo {
                metric_name: name.to_string(),
                value: format!("{i}"),
                values: expressions
                    .iter()
                    .map(|e| {
                        read_json(&format!("{{\"expression\":\"{e}\",\"valueJson\":\"1\"}}")).unwrap()
                    })
                    .collect(),
                timestamp_iso: "2024-01-01T00:00:00+00:00".to_string(),
                age_seconds: 0,
                is_error: false,
                stack_trace: Some(CapturedStackTrace {
                    frames: vec![StackFrame {
                        name: "main".to_string(),
                        file: Some("bot.py".to_string()),
                        line: Some(7),
                    }],
                }),
                memory_snapshot: Some(MemorySnapshot {
                    locals: vec![SnapshotVariable { name: "a".to_string(), value: "1".to_string() }],
                    globals: Vec::new(),
                }),
                extra: Vec::new(),
            })
            .collect()
    }

    fn set_group(&mut self, group: &str, enabled: bool) -> usize {
        let mut n = 0;
        for m in self.metrics.iter_mut().filter(|m| m.group.as_deref() == Some(group)) {
            m.enabled = enabled;
            n += 1;
        }
        n
    }

    fn answer(&mut self, action: &Action) -> Event {
        let failing = |what: &str| self.fail == Some(what);
        match action {
            Action::Health if failing("health") => Event::Health(Ok(false)),
            Action::Health => Event::Health(Ok(true)),
            Action::GetStatus => Event::Status(ok(StatusInfo {
                mode: "awake".to_string(),
                uptime_seconds: 1,
                active_connections: self.connections.len(),
                total_metrics: self.metrics.len(),
                enabled_metrics: self.metrics.iter().filter(|m| m.enabled).count(),
            })),
            Action::Wake => Event::Text(ok("awake".to_string())),
            Action::Sleep => Event::Text(ok("sleeping".to_string())),
            Action::CreateConnection { .. } if failing("create_connection") => {
                Event::Connection(err("refused"))
            }
            Action::CreateConnection { host, port, language, .. } => {
                let c = || ConnectionInfo {
                    connection_id: format!("conn-{port}"),
                    host: host.clone(),
                    port: *port,
                    language: language.clone(),
                    status: "connected".to_string(),
                    safe_mode: false,
                };
                self.connections.push(c());
                Event::Connection(ok(c()))
            }
            Action::CloseConnection { id } => {
                self.connections.retain(|c| c.connection_id != *id);
                Event::Done(ok(()))
            }
            Action::GetConnection { id } => {
                match self.connections.iter().find(|c| c.connection_id == *id) {
                    Some(c) => Event::Connection(ok(ConnectionInfo {
                        connection_id: c.connection_id.clone(),
                        host: c.host.clone(),
                        port: c.port,
                        language: c.language.clone(),
                        status: c.status.clone(),
                        safe_mode: c.safe_mode,
                    })),
                    None => Event::Connection(err("not found")),
                }
            }
            Action::ListConnections => Event::Connections(ok(Vec::new())),
            Action::AddMetric { request } => {
                if self.refused.iter().any(|n| *n == request.name) {
                    return Event::Text(err("variable not in scope"));
                }
                self.metrics.push(Daemon::metric(request));
                Event::Text(ok(format!("{}", self.metrics.len())))
            }
            Action::Observe { request } => Event::Observed(ok(ObserveResponse {
                success: true,
                metric_id: 1,
                metric_name: request.name.clone().unwrap_or_else(|| "observed".to_string()),
                file: request.file.clone(),
                line: request.line.unwrap_or(1),
                expression: request.expression.clone(),
                line_source: "explicit".to_string(),
                connection_id: "conn".to_string(),
                alternatives: Vec::new(),
                warnings: Vec::new(),
            })),
            Action::EnableFromDiff { .. } => Event::FromDiff(err("unsupported")),
            Action::RemoveMetric { name } => {
                let n = self.metrics.len();
                self.metrics.retain(|m| m.name != *name);
                if n == self.metrics.len() {
                    Event::Done(err("not found"))
                } else {
                    Event::Done(ok(()))
                }
            }
            Action::ToggleMetric { name, enabled } => {
                for m in self.metrics.iter_mut().filter(|m| m.name == *name) {
                    m.enabled = *enabled;
                }
                Event::Done(ok(()))
            }
            Action::GetMetric { name } => match self.metrics.iter().find(|m| m.name == *name) {
                Some(m) => Event::Metric(ok(copy(m))),
                None => Event::Metric(err("not found")),
            },
            Action::ListMetrics => Event::Metrics(ok(self.metrics.iter().map(copy).collect())),
            Action::QueryEvents { name, .. } => Event::Events(ok(self.captured(name))),
            Action::EnableGroup { group } => {
                let n = self.set_group(group, true);
                let n = if failing_partially(self.fail) { n - 1 } else { n };
                Event::Count(ok(n))
            }
            Action::DisableGroup { group } => Event::Count(ok(self.set_group(group, false))),
            Action::ListGroups => {
                let mut groups: Vec<GroupInfo> = Vec::new();
                for m in &self.metrics {
                    if let Some(g) = &m.group {
                        if !groups.iter().any(|x| x.name == *g) {
                            let of = |on: bool| {
                                self.metrics
                                    .iter()
                                    .filter(|x| x.group.as_ref() == Some(g) && (!on || x.enabled))
                                    .count() as u32
                            };
                            groups.push(GroupInfo {
                                name: g.clone(),
                                metric_count: of(false),
                                enabled_count: of(true),
                            });
                        }
                    }
                }
                Event::Groups(ok(groups))
            }
            Action::ValidateExpression { expression, .. } => {
                let unsafe_call = ["eval", "exec", "system", "Command", "__import__", "unsafe"]
                    .iter()
                    .any(|w| expression.contains(w))
                    || (expression.is_empty() && failing("empty_expression"));
                Event::Validation(ok(ValidationResult {
                    is_safe: !unsafe_call,
                    issues: if unsafe_call { vec!["forbidden".to_string()] } else { Vec::new() },
                }))
            }
            Action::InspectFile { .. } => Event::Text(ok("inspected".to_string())),
            Action::GetConfig => Event::Text(ok("[api]".to_string())),
            Action::UpdateConfig { .. } => Event::Done(ok(())),
            Action::ValidateConfig { .. } => Event::Valid(ok(true)),
            Action::ReloadConfig => Event::Done(ok(())),
            Action::QuerySystemEvents { .. } => Event::SystemEvents(ok(Vec::new())),
            Action::AcknowledgeSystemEvents { ids } => {
                Event::Acknowledged(ok(ids.len() as u64))
            }
            Action::GetMcpUsage => Event::Usage(ok(McpUsageInfo {
                total_calls: 2,
                total_success: 1,
                total_errors: 1,
                success_percent: "50.0".to_string(),
                avg_latency: "1.5".to_string(),
                top_errors: Vec::new(),
                workflow: McpWorkflowInfo {
                    correct_workflows: 1,
                    skipped_inspect: 0,
                    no_connection: 0,
                    adherence_percent: "100.0".to_string(),
                },
            })),
            Action::Pause { .. } => Event::Paused,
            Action::CheckTimer { .. } => Event::Timer { expired: self.fail == Some("time") },
            Action::RestartDebugger => {
                self.restarts += 1;
                Event::Restarted(Ok(()))
            }
            Action::Burst { requests, .. } => Event::Burst { succeeded: *requests },
        }
    }
}

fn failing_partially(fail: Option<&str>) -> bool {
    fail == Some("enable_group")
}

fn copy(m: &MetricInfo) -> MetricInfo {
    MetricInfo {
        name: m.name.clone(),
        location: m.location.clone(),
        expression: m.expression.clone(),
        expressions: m.expressions.clone(),
        group: m.group.clone(),
        enabled: m.enabled,
        mode: m.mode.clone(),
    }
}

fn run_workflow(
    daemon: &mut Daemon,
    config: DapWorkflowConfig,
) -> (Result<detrix_testing::dap_scenarios::workflow::WorkflowResult, String>, Vec<Report>) {
    let (mut run, mut step) = DapWorkflowScenarios::run_workflow(
        config,
        "Python",
        true,
        5678,
        "/w/bot.py".to_string(),
        None,
    );
    let mut reports = Vec::new();
    for _ in 0..10_000 {
        reports.extend(step.log.reports);
        match step.next {
            Next::Finish(r) => return (r, reports),
            Next::Ask(action) => {
                let event = daemon.answer(&action);
                step = run.resume(&event);
            }
        }
    }
    panic!("the workflow does not end");
}

fn python_daemon(config: &DapWorkflowConfig) -> Daemon {
    let mut daemon = Daemon::new();
    if let Some(m) = &config.invalid_metric {
        daemon.refused.push(m.name.clone());
    }
    daemon
}

#[test]
fn a_workflow_with_a_good_daemon_succeeds() {
    for config in [DapWorkflowConfig::python(), DapWorkflowConfig::go(), DapWorkflowConfig::rust()] {
        let n = config.metrics.len();
        let intro = config.introspection_metrics.len();
        let mut daemon = python_daemon(&config);
        let (result, _) = run_workflow(&mut daemon, config);
        let result = result.unwrap();
        assert_eq!(result.metrics_added, n);
        assert!(result.total_events >= n);
        assert_eq!(result.introspection_metrics_added, intro);
        assert!(daemon.metrics.is_empty());
        assert!(daemon.connections.is_empty());
    }
}

#[test]
fn a_successful_workflow_removes_what_it_added_and_ends_with_its_connection() {
    for config in [DapWorkflowConfig::python(), DapWorkflowConfig::go(), DapWorkflowConfig::rust()] {
        let metrics = config.metrics.len();
        let mut daemon = python_daemon(&config);
        let (mut run, mut step) = DapWorkflowScenarios::run_workflow(
            config,
            "Python",
            true,
            5678,
            "/w/bot.py".to_string(),
            None,
        );
        let mut actions: Vec<Action> = Vec::new();
        let mut enabled: Vec<usize> = Vec::new();
        let result = loop {
            match step.next {
                Next::Finish(r) => break r,
                Next::Ask(action) => {
                    let event = daemon.answer(&action);
                    assert!(event.kind() == action.answer_kind());
                    if let (Action::EnableGroup { .. }, Event::Count(Ok(r))) = (&action, &event) {
                        enabled.push(r.data);
                    }
                    step = run.resume(&event);
                    actions.push(action);
                }
            }
        };
        assert!(result.is_ok());
        let mut added = 0;
        for (i, action) in actions.iter().enumerate() {
            if let Action::AddMetric { request } = action {
                if daemon.refused.contains(&request.name) {
                    continue;
                }
                added += 1;
                assert!(actions[i..].iter().any(
                    |a| matches!(a, Action::RemoveMetric { name } if *name == request.name)
                ));
            }
        }
        assert!(added > 0);
        // Every metric was sent disabled, and enabled by its group.
        let group = actions.iter().position(|a| matches!(a, Action::EnableGroup { .. })).unwrap();
        let disabled = actions[..group]
            .iter()
            .filter(|a| matches!(a, Action::AddMetric { request } if request.enabled == Some(false)))
            .count();
        assert_eq!(enabled, vec![disabled]);
        assert_eq!(disabled, metrics);
        match actions.last() {
            Some(Action::CloseConnection { id }) => assert_eq!(id, "conn-5678"),
            other => panic!("{other:?}"),
        }
    }
}

#[test]
fn a_workflow_needs_a_healthy_daemon() {
    let config = DapWorkflowConfig::python();
    let mut daemon = python_daemon(&config);
    daemon.fail = Some("health");
    let (result, reports) = run_workflow(&mut daemon, config);
    assert!(result.is_err());
    assert!(reports.iter().any(|r| matches!(r, Report::Failed { .. })));
}

#[test]
fn a_workflow_needs_a_connection() {
    let config = DapWorkflowConfig::python();
    let mut daemon = python_daemon(&config);
    daemon.fail = Some("create_connection");
    assert!(run_workflow(&mut daemon, config).0.is_err());
}

#[test]
fn enabling_fewer_metrics_than_were_added_fails_a_workflow() {
    let config = DapWorkflowConfig::python();
    let mut daemon = python_daemon(&config);
    daemon.fail = Some("enable_group");
    assert!(run_workflow(&mut daemon, config).0.is_err());
}

#[test]
fn a_metric_that_captures_nothing_fails_a_workflow() {
    let config = DapWorkflowConfig::python();
    let mut daemon = python_daemon(&config);
    daemon.silent.push(config.metrics[0].name.clone());
    daemon.fail = Some("time");
    assert!(run_workflow(&mut daemon, config).0.is_err());
}

#[test]
fn waits_follow_the_iteration_of_the_fixture() {
    assert_eq!(single_wait_ms(1000), 2500);
    assert_eq!(single_wait_ms(3), 7);
    assert_eq!(single_wait_ms(u64::MAX), u64::MAX);
    assert_eq!(allowed_new_events(2500, 1000), 10);
    assert_eq!(allowed_new_events(2000, 1000), 9);
    assert_eq!(allowed_new_events(0, 1000), 7);
    assert_eq!(allowed_new_events(0, 0), 7);
}

#[test]
fn metrics_of_the_configurations_lie_on_lines_of_their_fixtures() {
    assert_eq!(DapWorkflowConfig::python().language, SourceLanguage::Python);
    assert_eq!(SourceLanguage::Python.as_api_str(), "python");
    assert_eq!(SourceLanguage::Go.as_api_str(), "go");
    assert_eq!(SourceLanguage::Rust.as_api_str(), "rust");
    for config in [DapWorkflowConfig::python(), DapWorkflowConfig::go(), DapWorkflowConfig::rust()] {
        assert!(!config.metrics.is_empty());
        for m in config.metrics.iter().chain(config.introspection_metrics.iter()) {
            assert!(m.line > 0);
        }
    }
}

#[test]
fn a_variable_is_observed_behind_its_declaration() {
    let markers = ["log", "logOrder", "print1", "flush", "sleep"];
    for map in [
        python_lines::codemap(),
        go_lines::codemap(),
        go_classic_lines::codemap(),
        go_nested_lines::codemap(),
        rust_lines::codemap(),
    ] {
        for (symbol, _, _) in map.symbols.iter() {
            if markers.contains(symbol) {
                assert_eq!(map.find_decl(symbol), map.find_logpoint(symbol));
            } else {
                assert!(map.find_decl(symbol) < map.find_logpoint(symbol), "{symbol}");
            }
        }
    }
    let nested = go_nested_lines::codemap();
    assert_eq!((nested.find_decl("status"), nested.find_logpoint("status")), (183, 184));
}

type Reconnected = Result<detrix_testing::dap_scenarios::reconnection::ReconnectionResult, String>;

fn reconnect(daemon: &mut Daemon, cycles: usize, restart: bool) -> Reconnected {
    reconnect_with_actions(daemon, cycles, restart).0
}

fn reconnect_with_actions(
    daemon: &mut Daemon,
    cycles: usize,
    restart: bool,
) -> (Reconnected, Vec<Action>) {
    let (mut run, mut step) = DapWorkflowScenarios::run_reconnection_workflow(
        DapWorkflowConfig::python(),
        "Python",
        5678,
        "/w/bot.py".to_string(),
        cycles,
        restart,
        None,
    );
    let mut actions: Vec<Action> = Vec::new();
    for _ in 0..10_000 {
        match step.next {
            Next::Finish(r) => return (r, actions),
            Next::Ask(action) => {
                let event = daemon.answer(&action);
                step = run.resume(&event);
                actions.push(action);
            }
        }
    }
    panic!("the workflow does not end");
}

#[test]
fn events_go_on_after_every_reconnection() {
    let mut daemon = Daemon::new();
    let result = reconnect(&mut daemon, 3, false).unwrap();
    assert_eq!(result.reconnection_cycles, 3);
    assert_eq!(result.events_per_cycle.len(), 4);
    assert!(result.events_per_cycle.iter().all(|n| *n > 0));
    assert_eq!(result.total_events, result.events_per_cycle.iter().sum::<usize>());
    assert_eq!(daemon.restarts, 0);
}

#[test]
fn the_debugger_is_restarted_in_every_cycle_where_that_is_asked_for() {
    let mut daemon = Daemon::new();
    reconnect(&mut daemon, 2, true).unwrap();
    assert_eq!(daemon.restarts, 2);
}

#[test]
fn a_reconnection_run_removes_its_metrics_and_closes_its_connections() {
    let mut daemon = Daemon::new();
    let (result, actions) = reconnect_with_actions(&mut daemon, 2, false);
    assert_eq!(result.unwrap().metrics_added, 2);
    assert!(daemon.metrics.is_empty());
    let made = |a: &Action| matches!(a, Action::CreateConnection { .. });
    let closed = |a: &Action| matches!(a, Action::CloseConnection { id } if id == "conn-5678");
    assert_eq!(actions.iter().filter(|a| made(a)).count(), 3);
    assert_eq!(actions.iter().filter(|a| closed(a)).count(), 3);
    for (i, action) in actions.iter().enumerate() {
        if made(action) {
            assert!(actions[i..].iter().any(closed));
        }
        if let Action::AddMetric { request } = action {
            assert!(actions[i..]
                .iter()
                .any(|a| matches!(a, Action::RemoveMetric { name } if *name == request.name)));
        }
    }
    assert!(actions.last().is_some_and(closed));
}

#[test]
fn a_reconnection_without_events_fails() {
    let mut daemon = Daemon::new();
    daemon.silent = DapWorkflowConfig::python().metrics.iter().map(|m| m.name.clone()).collect();
    daemon.fail = Some("time");
    assert!(reconnect(&mut daemon, 1, false).is_err());
}

fn run_script(daemon: &mut Daemon, items: Vec<Item>) -> (Result<Outcome, ApiError>, Vec<Report>) {
    let (mut script, mut step) = Script::start(items);
    let mut reports = Vec::new();
    for _ in 0..10_000 {
        reports.extend(step.log.reports);
        match step.next {
            ScriptNext::Finish(r) => return (r, reports),
            ScriptNext::Ask(action) => {
                let event = daemon.answer(&action);
                step = script.resume(&event);
            }
        }
    }
    panic!("the script does not end");
}

#[test]
fn scenarios_pass_with_a_good_daemon() {
    let port = 5678;
    let path = "/w/bot.py";
    for items in [
        scenario_all_basic_endpoints(),
        scenario_connection_lifecycle(port),
        scenario_metric_crud(port, path),
        scenario_group_operations(port, path),
        scenario_multi_expr_metric(port, path),
        scenario_comprehensive_coverage(port, path),
        scenario_error_handling(),
        scenario_concurrent_requests(),
        scenario_validate_unsafe_expression(),
        scenario_get_metric_nonexistent(),
        scenario_observe_workflow(BackendType::Rest, port, path),
        one(TestScenarios::health_check()),
        TestScenarios::wake_sleep_cycle(),
    ] {
        let (result, reports) = run_script(&mut Daemon::new(), items);
        assert!(result.is_ok(), "{:?} {:?}", result, reports);
        assert!(!reports.is_empty());
    }
}

#[test]
fn the_finding_on_an_empty_expression_is_shown_as_it_is() {
    let shown = |fail: Option<&'static str>| {
        let mut daemon = Daemon::new();
        daemon.fail = fail;
        let (result, reports) = run_script(&mut daemon, scenario_error_handling());
        assert!(result.is_ok());
        reports
            .into_iter()
            .filter_map(|r| match r {
                Report::Response { status, body: Some(b) } if b.contains("Empty expression") => {
                    Some((status, b))
                }
                _ => None,
            })
            .collect::<Vec<(String, String)>>()
    };
    let pair = |a: &str, b: &str| vec![(a.to_string(), b.to_string())];
    assert_eq!(shown(None), pair("SAFE", "Empty expression allowed"));
    assert_eq!(
        shown(Some("empty_expression")),
        pair("UNSAFE", "Empty expression marked unsafe")
    );
}

#[test]
fn a_scenario_reports_what_failed() {
    let mut daemon = Daemon::new();
    daemon.fail = Some("create_connection");
    let items = one(TestScenarios::create_connection("127.0.0.1", 5678, "python"));
    let (result, reports) = run_script(&mut daemon, items);
    assert_eq!(result.unwrap_err().message, "refused");
    assert!(matches!(reports.last(), Some(Report::Failed { .. })));
}

#[test]
fn a_connection_that_is_created_is_handed_on() {
    let mut daemon = Daemon::new();
    let items = one(TestScenarios::create_connection("127.0.0.1", 5678, "python"));
    match run_script(&mut daemon, items).0 {
        Ok(Outcome::Text(id)) => assert_eq!(id, "conn-5678"),
        other => panic!("{other:?}"),
    }
}

#[test]
fn backends_differ_in_what_they_offer() {
    let all = [
        BackendType::Grpc,
        BackendType::Rest,
        BackendType::Mcp,
        BackendType::WebSocket,
        BackendType::Cli,
    ];
    for (i, a) in all.iter().enumerate() {
        for b in &all[i + 1..] {
            assert_ne!(a.name(), b.name());
        }
    }
    assert_eq!(
        all.iter().filter(|b| streaming_unsupported(**b).is_none()).count(),
        all.iter().filter(|b| b.capabilities().supports_streaming).count()
    );
}
