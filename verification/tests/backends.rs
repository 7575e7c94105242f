use detrix_testing::cli::calls::{
    CliCall, CliInput, CliKind, CliOutput, CliPhase, CliReply, CliStep,
};
use detrix_testing::cli::{CliConnectionResponse, CliMetricResponse};
use detrix_testing::client::{
    AddMetricRequest, ApiError, McpUsageInfo, McpWorkflowInfo, ObserveRequest,
};
use detrix_testing::exchange::{Action, Event};
use detrix_testing::grpc::{EventRecord, EventResult, MetricMessage};
use detrix_testing::json::{json_text, Json};
use detrix_testing::mcp::answers::McpReading;
use detrix_testing::mcp::McpClient;
use detrix_testing::rest::calls::{
    read_events_since, RestAnswer, RestCall, RestInput, RestKind, RestPhase, RestReply, RestStep,
};
use detrix_testing::rest::{ConnectionMessage, HttpMethod, RestClient};

fn error_in(event: &Event) -> &ApiError {
    event.get_error().expect("the call succeeded")
}

// Over HTTP

fn sent(step: RestStep) -> String {
    match step {
        RestStep::Send(request) => {
            let method = match request.method {
                HttpMethod::Get => "GET",
                HttpMethod::Post => "POST",
                HttpMethod::Put => "PUT",
                HttpMethod::Delete => "DELETE",
            };
            format!("{} {}", method, request.url)
        }
        RestStep::Finish(event) => panic!("finished with {:?}", event),
    }
}

fn finished(step: RestStep) -> Event {
    match step {
        RestStep::Finish(event) => event,
        RestStep::Send(request) => panic!("sent {}", request.url),
    }
}

fn begin(action: Action) -> (RestCall, RestStep) {
    RestCall::start(RestClient::new(80), action)
}

fn answer(success: bool, body: &str, parsed: Result<RestReply, String>) -> RestInput {
    RestInput::Answered {
        answer: RestAnswer {
            success,
            status: if success { "200 OK" } else { "404 Not Found" }.to_string(),
            body: Ok(body.to_string()),
            reported: None,
            parsed,
        },
    }
}

fn over_http(action: Action, input: RestInput) -> Event {
    let (mut call, step) = begin(action);
    sent(step);
    assert!(call.accepts(&input, 0));
    finished(call.resume(input, 0))
}

fn metric(id: u64, name: &str) -> MetricMessage {
    MetricMessage {
        metric_id: id,
        name: name.to_string(),
        location: Some(("a.py".to_string(), 3)),
        expression: "x".to_string(),
        group: None,
        enabled: true,
        mode: None,
    }
}

fn metrics() -> Result<RestReply, String> {
    Ok(RestReply::Metrics { metrics: vec![metric(7, "a"), metric(8, "b")] })
}

fn connection() -> ConnectionMessage {
    ConnectionMessage {
        connection_id: "c".to_string(),
        host: "h".to_string(),
        port: 65541,
        language: "python".to_string(),
        status: 3,
        safe_mode: true,
    }
}

#[test]
fn a_metric_is_removed_after_two_lists() {
    let (mut call, step) = begin(Action::RemoveMetric { name: "b".to_string() });
    assert_eq!(sent(step), "GET http://127.0.0.1:80/api/v1/metrics");
    assert_eq!(call.phase, RestPhase::Checking);
    assert_eq!(call.expects(), RestKind::Metrics);

    let step = call.resume(answer(true, "[]", metrics()), 0);
    assert_eq!(sent(step), "GET http://127.0.0.1:80/api/v1/metrics");
    assert_eq!(call.phase, RestPhase::Finding);

    let step = call.resume(answer(true, "[]", metrics()), 0);
    assert_eq!(sent(step), "DELETE http://127.0.0.1:80/api/v1/metrics/8");
    assert_eq!(call.phase, RestPhase::Sending);

    let event = finished(call.resume(answer(true, "", Ok(RestReply::Plain)), 0));
    assert!(matches!(event, Event::Done(Ok(_))));
    assert_eq!(call.phase, RestPhase::Over);
    assert!(!call.accepts(&answer(true, "", Ok(RestReply::Plain)), 0));
}

#[test]
fn a_metric_is_toggled_after_one_list() {
    for (enabled, verb) in [(true, "enable"), (false, "disable")] {
        let (mut call, step) = begin(Action::ToggleMetric { name: "a".to_string(), enabled });
        assert_eq!(sent(step), "GET http://127.0.0.1:80/api/v1/metrics");
        let step = call.resume(answer(true, "[]", metrics()), 0);
        assert_eq!(
            sent(step),
            format!("POST http://127.0.0.1:80/api/v1/metrics/7/{}", verb)
        );
        let event = finished(call.resume(answer(false, "no", Ok(RestReply::Plain)), 0));
        assert_eq!(error_in(&event).message, "HTTP 404 Not Found");
        assert_eq!(error_in(&event).raw_response.as_deref(), Some("no"));
    }
}

#[test]
fn a_metric_that_is_not_listed_is_not_changed() {
    for action in [
        Action::RemoveMetric { name: "z".to_string() },
        Action::ToggleMetric { name: "z".to_string(), enabled: true },
        Action::GetMetric { name: "z".to_string() },
    ] {
        let event = over_http(action, answer(true, "[]", metrics()));
        assert_eq!(error_in(&event).message, "Metric 'z' not found");
        assert!(error_in(&event).raw_response.is_none());
    }
}

#[test]
fn an_unreadable_list_is_told_by_who_asked() {
    let cases = [
        (Action::RemoveMetric { name: "a".to_string() }, "Failed to parse response: e", true),
        (
            Action::ToggleMetric { name: "a".to_string(), enabled: true },
            "Failed to parse metrics: e",
            false,
        ),
        (Action::GetMetric { name: "a".to_string() }, "Failed to parse response: e", true),
    ];
    for (action, message, raw) in cases {
        let event = over_http(action, answer(true, "[", Err("e".to_string())));
        assert_eq!(error_in(&event).message, message);
        assert_eq!(error_in(&event).raw_response.is_some(), raw);
    }
    let (mut call, _) = begin(Action::RemoveMetric { name: "a".to_string() });
    call.resume(answer(true, "[]", metrics()), 0);
    let event = finished(call.resume(answer(true, "[", Err("e".to_string())), 0));
    assert_eq!(error_in(&event).message, "Failed to parse metrics: e");
}

#[test]
fn a_list_that_could_not_be_sent_is_told_as_a_list() {
    let event = over_http(
        Action::RemoveMetric { name: "a".to_string() },
        RestInput::NotSent { error: "e".to_string() },
    );
    assert_eq!(error_in(&event).message, "List metrics failed: e");

    let (mut call, _) = begin(Action::ToggleMetric { name: "a".to_string(), enabled: true });
    call.resume(answer(true, "[]", metrics()), 0);
    let event = finished(call.resume(RestInput::NotSent { error: "e".to_string() }, 0));
    assert_eq!(error_in(&event).message, "Toggle metric failed: e");
}

#[test]
fn a_metric_is_got_from_the_list() {
    let event =
        over_http(Action::GetMetric { name: "b".to_string() }, answer(true, "[]", metrics()));
    match event {
        Event::Metric(Ok(r)) => {
            assert_eq!(r.data.name, "b");
            assert_eq!(r.data.location, "a.py#3");
            assert!(r.raw_response.is_none());
        }
        other => panic!("{:?}", other),
    }
    match over_http(Action::ListMetrics, answer(true, "raw", metrics())) {
        Event::Metrics(Ok(r)) => {
            assert_eq!(r.data.len(), 2);
            assert_eq!(r.data[0].name, "a");
            assert_eq!(r.data[1].name, "b");
            assert_eq!(r.raw_response.as_deref(), Some("raw"));
        }
        other => panic!("{:?}", other),
    }
}

#[test]
fn health_is_what_the_status_says() {
    let says = |text: &str| Ok(RestReply::Health { status: text.to_string() });
    let healthy = |input: RestInput| match over_http(Action::Health, input) {
        Event::Health(r) => r,
        other => panic!("{:?}", other),
    };
    assert!(healthy(answer(true, "{}", says("ok"))).unwrap());
    assert!(!healthy(answer(true, "{}", says("bad"))).unwrap());
    assert!(!healthy(answer(false, "", Err("e".to_string()))).unwrap());
    assert_eq!(
        healthy(answer(true, "", Err("e".to_string()))).unwrap_err().message,
        "Failed to parse health response: e"
    );
    assert_eq!(
        healthy(RestInput::NotSent { error: "e".to_string() }).unwrap_err().message,
        "Health check failed: e"
    );
}

#[test]
fn a_metric_is_added_where_its_location_says() {
    let request = AddMetricRequest::new("m", "@a.py#12", "x", "c");
    let (mut call, step) = begin(Action::AddMetric { request });
    match step {
        RestStep::Send(q) => {
            assert!(matches!(q.method, HttpMethod::Post));
            assert_eq!(q.url, "http://127.0.0.1:80/api/v1/metrics");
            let body = json_text(&q.body.unwrap());
            assert!(body.contains("\"file\":\"a.py\""));
            assert!(body.contains("\"line\":12"));
        }
        RestStep::Finish(event) => panic!("{:?}", event),
    }
    let parsed = Ok(RestReply::MetricId { metric_id: 31 });
    match finished(call.resume(answer(true, "{}", parsed), 0)) {
        Event::Text(Ok(r)) => assert_eq!(r.data, "31"),
        other => panic!("{:?}", other),
    }

    let request = AddMetricRequest::new("m", "nowhere", "x", "c");
    let (call, step) = begin(Action::AddMetric { request });
    assert_eq!(call.phase, RestPhase::Over);
    assert_eq!(
        error_in(&finished(step)).message,
        "Invalid location format 'nowhere'. Expected 'file#line'"
    );
}

#[test]
fn a_reported_error_is_taken_over() {
    let input = RestInput::Answered {
        answer: RestAnswer {
            success: false,
            status: "400 Bad Request".to_string(),
            body: Ok("{\"error\":\"no\"}".to_string()),
            reported: Some("no".to_string()),
            parsed: Err("e".to_string()),
        },
    };
    let request = AddMetricRequest::new("m", "a.py#1", "x", "c");
    let event = over_http(Action::AddMetric { request }, input);
    assert_eq!(error_in(&event).message, "no");

    let create = Action::CreateConnection {
        host: "h".to_string(),
        port: 1,
        language: "python".to_string(),
        program: None,
    };
    let event = over_http(create, answer(false, "gone", Err("e".to_string())));
    assert_eq!(error_in(&event).message, "HTTP 404 Not Found: gone");
}

#[test]
fn connections_over_http_have_states() {
    let create = || Action::CreateConnection {
        host: "h".to_string(),
        port: 1,
        language: "python".to_string(),
        program: None,
    };
    let created = |connection| {
        Ok(RestReply::Created { connection_id: "id".to_string(), connection })
    };
    match over_http(create(), answer(true, "raw", created(Some(connection())))) {
        Event::Connection(Ok(r)) => {
            assert_eq!(r.data.connection_id, "id");
            assert_eq!(r.data.port, 5);
            assert_eq!(r.data.status, "connected");
        }
        other => panic!("{:?}", other),
    }
    let event = over_http(create(), answer(true, "raw", created(None)));
    assert_eq!(error_in(&event).message, "Response missing connection details");

    let parsed = Ok(RestReply::Connections { connections: vec![connection(), connection()] });
    match over_http(Action::ListConnections, answer(true, "raw", parsed)) {
        Event::Connections(Ok(r)) => {
            assert_eq!(r.data.len(), 2);
            assert_eq!(r.data[1].connection_id, "c");
        }
        other => panic!("{:?}", other),
    }
}

#[test]
fn an_answer_that_breaks_off_is_an_error() {
    let broken = || RestInput::Answered {
        answer: RestAnswer {
            success: true,
            status: "200 OK".to_string(),
            body: Err("cut".to_string()),
            reported: None,
            parsed: Err("e".to_string()),
        },
    };
    let event = over_http(Action::GetStatus, broken());
    assert_eq!(error_in(&event).message, "Failed to read response: cut");
    let event = over_http(Action::GetMcpUsage, broken());
    assert_eq!(error_in(&event).message, "Failed to parse response: e");
    let event = over_http(Action::RemoveMetric { name: "a".to_string() }, broken());
    assert_eq!(error_in(&event).message, "Failed to read response: cut");
    assert!(matches!(
        over_http(Action::ReloadConfig, broken()),
        Event::Done(Ok(_))
    ));
}

#[test]
fn what_rest_does_not_offer_is_refused() {
    let (_, step) = begin(Action::QuerySystemEvents {
        limit: 1,
        unacknowledged_only: false,
        types: None,
    });
    assert_eq!(
        error_in(&finished(step)).message,
        "System events are not available via REST API. Use MCP instead."
    );
    let (_, step) = begin(Action::Observe { request: ObserveRequest::new("f", "x") });
    assert_eq!(
        error_in(&finished(step)).message,
        "observe tool is only supported on MCP backend, not REST"
    );
}

fn since(success: bool, body: Result<String, String>, parsed: Result<RestReply, String>) -> RestAnswer {
    RestAnswer { success, status: "500 Oops".to_string(), body, reported: None, parsed }
}

#[test]
fn events_since_a_time_are_read() {
    let events = vec![EventRecord {
        metric_name: "m".to_string(),
        timestamp: 1_000_000,
        result: Some(EventResult::ValueJson { value: "5".to_string() }),
        stack_trace: None,
        memory_snapshot: None,
    }];
    let found = read_events_since(
        since(true, Ok("raw".to_string()), Ok(RestReply::Events { events })),
        4_000_000,
    )
    .unwrap();
    assert_eq!(found.data[0].value, "5");
    assert_eq!(found.data[0].age_seconds, 3);
    assert_eq!(found.raw_response.as_deref(), Some("raw"));

    let error = |answer| read_events_since(answer, 0).unwrap_err().message;
    assert_eq!(
        error(since(false, Ok("b".to_string()), Err("e".to_string()))),
        "HTTP 500 Oops - b"
    );
    assert_eq!(
        error(since(false, Err("cut".to_string()), Err("e".to_string()))),
        "Failed to read response: cut"
    );
    assert_eq!(
        error(since(true, Ok("b".to_string()), Err("e".to_string()))),
        "Failed to parse response: e"
    );
}

#[test]
fn an_age_that_cannot_be_told_is_not_accepted() {
    let (call, _) = begin(Action::QueryEvents { name: "m".to_string(), limit: 1 });
    let events = |timestamp| {
        answer(
            true,
            "[]",
            Ok(RestReply::Events {
                events: vec![EventRecord {
                    metric_name: "m".to_string(),
                    timestamp,
                    result: None,
                    stack_trace: None,
                    memory_snapshot: None,
                }],
            }),
        )
    };
    assert!(call.accepts(&events(5), 10));
    assert!(!call.accepts(&events(i64::MIN), 10));
    assert!(!call.accepts(&answer(true, "", metrics()), 10));
}

// With the command line

fn printed(success: bool, stdout: &str, parsed: Result<CliReply, String>) -> CliInput {
    CliInput::Ran {
        outcome: Ok(CliOutput {
            success,
            code: Some(if success { 0 } else { 2 }),
            stdout: stdout.to_string(),
            stderr: String::new(),
        }),
        parsed,
    }
}

fn run_args(step: CliStep) -> String {
    match step {
        CliStep::Run { args } => args.join(" "),
        other => panic!("{:?}", other),
    }
}

fn ended(step: CliStep) -> Event {
    match step {
        CliStep::Finish(event) => event,
        other => panic!("{:?}", other),
    }
}

fn with_command(action: Action, input: CliInput) -> Event {
    let (mut call, step) = CliCall::start(action);
    run_args(step);
    assert!(call.accepts(&input));
    ended(call.resume(input))
}

#[test]
fn a_metric_is_disabled_once_it_is_added() {
    let mut request = AddMetricRequest::new("m", "a.py#1", "x", "c");
    request.enabled = Some(false);
    let (mut call, step) = CliCall::start(Action::AddMetric { request });
    assert!(run_args(step).starts_with("--format json metric add m"));
    let step = call.resume(printed(true, "", Ok(CliReply::Plain)));
    assert_eq!(call.phase, CliPhase::Disabling);
    assert_eq!(run_args(step), "--format json metric disable m");
    match ended(call.resume(printed(true, "", Ok(CliReply::Plain)))) {
        Event::Text(Ok(r)) => assert_eq!(r.data, "m"),
        other => panic!("{:?}", other),
    }

    let request = AddMetricRequest::new("m", "a.py#1", "x", "c");
    let event = with_command(Action::AddMetric { request }, printed(true, "", Ok(CliReply::Plain)));
    assert!(matches!(event, Event::Text(Ok(_))));
}

#[test]
fn a_configuration_goes_through_a_file() {
    let validate = || Action::ValidateConfig { toml: "[a]".to_string() };
    let (mut call, step) = CliCall::start(validate());
    match step {
        CliStep::Write { name, content } => {
            assert_eq!(name, "detrix_test_config.toml");
            assert_eq!(content, "[a]");
        }
        other => panic!("{:?}", other),
    }
    let step = call.resume(CliInput::Written { outcome: Ok("/tmp/f".to_string()) });
    assert_eq!(run_args(step), "--format json config validate --file /tmp/f");
    match call.resume(printed(true, "OK", Ok(CliReply::Plain))) {
        CliStep::Remove { path } => assert_eq!(path, "/tmp/f"),
        other => panic!("{:?}", other),
    }
    assert_eq!(call.phase, CliPhase::Removing { valid: true });
    match ended(call.resume(CliInput::Removed)) {
        Event::Valid(Ok(r)) => assert!(r.data),
        other => panic!("{:?}", other),
    }

    let (mut call, _) = CliCall::start(validate());
    let event = ended(call.resume(CliInput::Written { outcome: Err("full".to_string()) }));
    assert_eq!(error_in(&event).message, "Failed to write temp config: full");

    let (mut call, _) = CliCall::start(validate());
    call.resume(CliInput::Written { outcome: Ok("/tmp/f".to_string()) });
    let event = ended(call.resume(printed(false, "bad", Ok(CliReply::Plain))));
    assert_eq!(error_in(&event).message, "bad");
}

#[test]
fn health_is_whether_the_command_succeeds() {
    let healthy = |input| match with_command(Action::Health, input) {
        Event::Health(Ok(healthy)) => healthy,
        other => panic!("{:?}", other),
    };
    assert!(healthy(printed(true, "", Ok(CliReply::Plain))));
    assert!(!healthy(printed(false, "", Ok(CliReply::Plain))));
    assert!(!healthy(CliInput::Ran {
        outcome: Err("gone".to_string()),
        parsed: Err("gone".to_string()),
    }));
    let event = with_command(
        Action::Wake,
        CliInput::Ran { outcome: Err("gone".to_string()), parsed: Err("gone".to_string()) },
    );
    assert_eq!(error_in(&event).message, "Failed to execute detrix command: gone");
}

#[test]
fn an_empty_output_is_an_empty_list() {
    for output in ["", " [] \n"] {
        match with_command(Action::ListMetrics, printed(true, output, Err("e".to_string()))) {
            Event::Metrics(Ok(r)) => assert!(r.data.is_empty()),
            other => panic!("{:?}", other),
        }
    }
    let event = with_command(Action::ListMetrics, printed(true, "{", Err("e".to_string())));
    assert_eq!(
        error_in(&event).message,
        "Failed to parse JSON response: e (input: {)"
    );
    let event = with_command(Action::GetStatus, printed(true, "", Err("e".to_string())));
    assert_eq!(error_in(&event).message, "Failed to parse JSON response: e (input: )");
}

#[test]
fn printed_answers_are_taken_over() {
    let connection = CliConnectionResponse {
        connection_id: "c".to_string(),
        host: "h".to_string(),
        port: 65541,
        language: "go".to_string(),
        status: "up".to_string(),
        safe_mode: true,
    };
    let (call, _) = CliCall::start(Action::ListConnections);
    assert_eq!(call.expects(), CliKind::Connections);
    match with_command(
        Action::ListConnections,
        printed(true, "[1]", Ok(CliReply::Connections { connections: vec![connection] })),
    ) {
        Event::Connections(Ok(r)) => assert_eq!(r.data[0].port, 5),
        other => panic!("{:?}", other),
    }
    let metric = CliMetricResponse {
        name: "m".to_string(),
        location: None,
        location_file: Some("a.py".to_string()),
        location_line: Some(4),
        expression: "x".to_string(),
        group: None,
        enabled: true,
        mode: None,
    };
    match with_command(
        Action::GetMetric { name: "m".to_string() },
        printed(true, "{}", Ok(CliReply::Metric { metric })),
    ) {
        Event::Metric(Ok(r)) => assert_eq!(r.data.name, "m"),
        other => panic!("{:?}", other),
    }
    match with_command(
        Action::EnableGroup { group: "g".to_string() },
        printed(true, "Enabled 4 metrics", Ok(CliReply::Plain)),
    ) {
        Event::Count(Ok(r)) => assert_eq!(r.data, 4),
        other => panic!("{:?}", other),
    }
    match with_command(Action::Wake, printed(true, " awake \n", Ok(CliReply::Plain))) {
        Event::Text(Ok(r)) => assert_eq!(r.data, "awake"),
        other => panic!("{:?}", other),
    }
    let (_, step) = CliCall::start(Action::AcknowledgeSystemEvents { ids: vec![1] });
    assert_eq!(
        error_in(&ended(step)).message,
        "acknowledge_system_events not yet implemented in CLI"
    );
}

// Over MCP

fn tool_answer(text: &str) -> Json {
    let text = json_text(&Json::string(text));
    let raw = format!("{{\"result\":{{\"content\":[{{\"type\":\"text\",\"text\":{text}}}]}}}}");
    McpClient::interpret(&raw).unwrap()
}

fn tool_event(action: Action, text: &str, reading: McpReading) -> Result<Event, ApiError> {
    let json = tool_answer(text);
    assert!(McpClient::understands(&action, &json));
    assert!(McpClient::fits(&action, &reading));
    McpClient::read_answer(&action, &json, reading, "connected")
}

fn usage(total_calls: u64) -> McpUsageInfo {
    McpUsageInfo {
        total_calls,
        total_success: 0,
        total_errors: 0,
        success_percent: "0.0".to_string(),
        avg_latency: "0.0".to_string(),
        top_errors: Vec::new(),
        workflow: McpWorkflowInfo {
            correct_workflows: 0,
            skipped_inspect: 0,
            no_connection: 0,
            adherence_percent: "0.0".to_string(),
        },
    }
}

#[test]
fn tool_answers_are_understood() {
    match tool_event(Action::GetStatus, "Daemon is active", McpReading::Unread).unwrap() {
        Event::Status(Ok(r)) => {
            assert_eq!(r.data.mode, "active");
            assert_eq!(r.raw_response, Some(json_text(&tool_answer("Daemon is active"))));
        }
        other => panic!("{:?}", other),
    }
    match tool_event(
        Action::GetConnection { id: "c".to_string() },
        "",
        McpReading::Unread,
    )
    .unwrap()
    {
        Event::Connection(Ok(r)) => {
            assert_eq!(r.data.connection_id, "c");
            assert_eq!(r.data.port, 5678);
            assert_eq!(r.data.status, "connected");
        }
        other => panic!("{:?}", other),
    }
    match tool_event(
        Action::AcknowledgeSystemEvents { ids: vec![1, 2, 3] },
        "Acknowledged 3 events",
        McpReading::Unread,
    )
    .unwrap()
    {
        Event::Acknowledged(Ok(r)) => assert_eq!(r.data, 3),
        other => panic!("{:?}", other),
    }
    match tool_event(
        Action::RemoveMetric { name: "m".to_string() },
        "gone",
        McpReading::Unread,
    )
    .unwrap()
    {
        Event::Done(Ok(r)) => assert!(r.raw_response.is_none()),
        other => panic!("{:?}", other),
    }
    match tool_event(Action::Wake, "Awake", McpReading::Unread).unwrap() {
        Event::Text(Ok(r)) => assert_eq!(r.data, "Awake"),
        other => panic!("{:?}", other),
    }
}

#[test]
fn usage_is_the_first_that_is_found() {
    let found = vec![None, Some(usage(4)), Some(usage(9))];
    match tool_event(Action::GetMcpUsage, "x", McpReading::Usage { found }).unwrap() {
        Event::Usage(Ok(r)) => assert_eq!(r.data.total_calls, 4),
        other => panic!("{:?}", other),
    }
    let error =
        tool_event(Action::GetMcpUsage, "x", McpReading::Usage { found: vec![None] }).unwrap_err();
    assert_eq!(error.message, "Failed to parse MCP usage response");
    assert_eq!(error.raw_response, Some(json_text(&tool_answer("x"))));
    assert!(!McpClient::fits(&Action::GetMcpUsage, &McpReading::Unread));
}
