use detrix_testing::client::{
    AddMetricRequest, ApiError, EventInfo, MetricInfo, ObserveRequest, SystemEventInfo,
};
use detrix_testing::exchange::{failure as fail, mcp_only, Action, Event};
use detrix_testing::grpc::calls::{
    can_start, ConnectFailure, GrpcCall, GrpcInput, GrpcReply, GrpcRequest, GrpcStep, UsageMessage,
};
use detrix_testing::grpc::{
    self, Collection, EventRecord, EventResult, Forward, GrpcClient, MetricMessage, StreamItem,
};
use detrix_testing::json::json_text;
use detrix_testing::rest::{self, ConnectionMessage, HttpMethod, RestClient};

fn record(result: Option<EventResult>, timestamp: i64) -> EventRecord {
    EventRecord {
        metric_name: "m".to_string(),
        timestamp,
        result,
        stack_trace: None,
        memory_snapshot: None,
    }
}

fn value() -> Option<EventResult> {
    Some(EventResult::ValueJson { value: "1".to_string() })
}

fn failure() -> Option<EventResult> {
    Some(EventResult::Error { message: "boom".to_string() })
}

#[test]
fn requests_have_their_addresses() {
    let c = RestClient::new(8090);
    let r = c.request(&Action::Health).unwrap();
    assert_eq!(r.method, HttpMethod::Get);
    assert_eq!(r.url, "http://127.0.0.1:8090/health");
    assert!(r.body.is_none());
    let r = c
        .request(&Action::CreateConnection {
            host: "h".to_string(),
            port: 1,
            language: "go".to_string(),
            program: None,
        })
        .unwrap();
    assert_eq!(r.method, HttpMethod::Post);
    assert_eq!(r.body.unwrap().get_u64("port"), Some(1));
    let other = RestClient::with_base_url("http://d".to_string());
    assert!(other.delete_metric_url(7).starts_with("http://d/"));
    assert!(other.delete_metric_url(7).ends_with("/7"));
}

#[test]
fn failures_are_told_by_what_was_asked() {
    let add = Action::AddMetric { request: AddMetricRequest::new("m", "l", "x", "c") };
    assert_eq!(rest::send_error(&add, "e").message, "Add metric failed: e");
    assert_eq!(rest::send_error(&Action::GetMcpUsage, "e").message, "HTTP error: e");
    assert_eq!(rest::read_error("e").message, "Failed to read response: e");
    let e = rest::parse_error(&Action::Wake, "e", "raw");
    assert_eq!(e.message, "Failed to parse wake response: e");
    assert_eq!(e.raw_response.as_deref(), Some("raw"));
    assert!(rest::parse_error(&Action::Health, "e", "raw").raw_response.is_none());
    let e = rest::status_error(&add, "400 Bad Request", "raw", &None).unwrap();
    assert_eq!(e.message, "HTTP 400 Bad Request: raw");
    let e = rest::status_error(&add, "400", "raw", &Some("no".to_string())).unwrap();
    assert_eq!(e.message, "no");
    let e = rest::status_error(&Action::ReloadConfig, "500", "raw", &None).unwrap();
    assert_eq!(e.message, "HTTP 500");
    assert!(rest::status_error(&Action::ListMetrics, "500", "raw", &None).is_none());
    assert_eq!(rest::since_error("500", "raw").message, "HTTP 500 - raw");
}

#[test]
fn states_of_connections_have_names() {
    let names: Vec<String> = (0..5).map(rest::status_i32_to_string).collect();
    assert_eq!(names, vec!["unspecified", "disconnected", "connecting", "connected", "failed"]);
    assert_eq!(rest::status_i32_to_string(-7), "unknown(-7)");
    let message = ConnectionMessage {
        connection_id: "inner".to_string(),
        host: "h".to_string(),
        port: 65536 + 9,
        language: "go".to_string(),
        status: 3,
        safe_mode: false,
    };
    let info = rest::created_connection("outer".to_string(), Some(message), "raw").unwrap();
    assert_eq!((info.connection_id.as_str(), info.port), ("outer", 9));
    assert_eq!(
        rest::created_connection("outer".to_string(), None, "raw").unwrap_err().message,
        "Response missing connection details"
    );
    assert!(rest::is_healthy(true, "ok"));
    assert!(!rest::is_healthy(true, "OK"));
    assert!(!rest::is_healthy(false, "ok"));
    assert_eq!(rest::status_message("awake", "now"), "awake: now");
}

fn listed(id: u64, name: &str) -> MetricMessage {
    MetricMessage {
        metric_id: id,
        name: name.to_string(),
        location: Some(("a.py".to_string(), 3)),
        expression: "x".to_string(),
        group: None,
        enabled: true,
        mode: None,
    }
}

#[test]
fn metrics_are_found_by_name() {
    let list = vec![listed(1, "a"), listed(2, "b"), listed(3, "b")];
    assert_eq!(rest::metric_id(&list, "b").unwrap(), 2);
    assert_eq!(rest::metric_id(&list, "c").unwrap_err().message, "Metric 'c' not found");
    let known: Vec<MetricInfo> = list.into_iter().map(rest::proto_metric_to_client_metric).collect();
    assert_eq!(known[0].location, "a.py#3");
    assert_eq!(rest::get_metric(known, "b").unwrap().name, "b");
    assert_eq!(grpc::metric_info("@", listed(1, "a")).location, "@a.py#3");
}

#[test]
fn events_are_taken_over() {
    let e = rest::event_info(record(value(), 1_000_000), 4_500_000);
    assert_eq!((e.value.as_str(), e.is_error, e.age_seconds), ("1", false, 3));
    assert_eq!(e.timestamp_iso, "1970-01-01T00:00:01+00:00");
    let e = rest::event_info(record(failure(), i64::MAX), i64::MAX);
    assert_eq!((e.value.as_str(), e.is_error), ("", true));
    assert_eq!(e.timestamp_iso, i64::MAX.to_string());
    let e = grpc::event_info(record(failure(), i64::MAX), i64::MAX);
    assert_eq!((e.value.as_str(), e.is_error), ("boom", true));
    assert_eq!(e.timestamp_iso, "");
}

#[test]
fn streams_are_forwarded() {
    match grpc::stream_events(StreamItem::Event { record: record(value(), 0) }, 0) {
        Forward::Send { event, warning } => {
            assert_eq!(event.value, "1");
            assert_eq!(warning, None);
        }
        other => panic!("{other:?}"),
    }
    match grpc::stream_events(StreamItem::Event { record: record(value(), i64::MAX) }, i64::MAX) {
        Forward::Send { event, warning } => {
            assert_eq!(event.timestamp_iso, "");
            let expected = format!(
                "[WARN] Failed to parse timestamp {} for metric {}",
                i64::MAX, event.metric_name
            );
            assert_eq!(warning, Some(expected));
        }
        other => panic!("{other:?}"),
    }
    assert!(matches!(grpc::stream_events(StreamItem::Timeout, 0), Forward::Wait));
    assert!(matches!(grpc::stream_events(StreamItem::End, 0), Forward::Stop));
    assert!(matches!(grpc::stream_events(StreamItem::Error, 0), Forward::Stop));
    let event = || -> EventInfo { grpc::event_info(record(value(), 0), 0) };
    let mut c = Collection::new(Some(2));
    assert!(!c.take(event()));
    assert!(c.take(event()));
    assert_eq!(c.receive_events(false).len(), 2);
    let mut c = Collection::new(None);
    assert!(!c.take(event()));
    assert!(c.receive_events(true).is_empty());
}

#[test]
fn a_remote_client_has_its_addresses() {
    let c = GrpcClient::with_http_port(50051, 8090);
    assert_eq!(c.address("127.0.0.1"), "http://127.0.0.1:50051");
    assert_eq!(c.health_url("127.0.0.1"), "http://127.0.0.1:8090/health");
    assert_eq!(GrpcClient::new(1, 2).http_port, 2);
    let ok = GrpcClient::inspect_outcome(true, "c".to_string(), None);
    assert_eq!(ok.unwrap(), "c");
    let no = GrpcClient::inspect_outcome(false, "c".to_string(), Some("e".to_string()));
    assert!(no.is_err());
}

#[test]
fn an_added_metric_has_a_place() {
    let m = grpc::add_metric_message(&AddMetricRequest::new("m", "@a.py#3", "x", "c")).unwrap();
    assert_eq!((m.file.as_str(), m.line), ("a.py", 3));
    assert!(m.enabled);
    let e: ApiError =
        grpc::add_metric_message(&AddMetricRequest::new("m", "@a.py#x", "x", "c")).unwrap_err();
    assert_eq!(e.message, "Invalid line number: x");
    let m = rest::create_metric_request(&AddMetricRequest::new("m", "@a#3", "x", "c").disabled())
        .unwrap();
    assert_eq!(m.to_json().get_bool("enabled"), Some(false));
    assert!(json_text(&m.to_json()).contains("\"line\":3"));
}

#[test]
fn an_added_metric_has_the_language_it_was_given() {
    let mut request = AddMetricRequest::new("m", "@a.go#3", "x", "c");
    request.language = Some("go".to_string());
    let m = rest::create_metric_request(&request).unwrap();
    assert_eq!(m.language, "go");
    assert_eq!(m.to_json().get_str("language"), Some("go"));
    request.language = None;
    assert_eq!(rest::create_metric_request(&request).unwrap().language, "python");
}

#[test]
fn events_of_the_system_have_classes() {
    let event = |kind: &str| SystemEventInfo {
        id: Some(1),
        event_type: kind.to_string(),
        timestamp_iso: String::new(),
        age_seconds: 0,
        connection_id: None,
        metric_id: None,
        metric_name: None,
        details: None,
        acknowledged: false,
        timestamp_us: 0,
    };
    assert!(event("connection_created").is_connection_event());
    assert!(event("connection_closed").is_disconnection_event());
    assert!(event("metric_added").is_metric_event());
    assert!(event("debugger_crash").is_crash_event());
    assert!(!event("other").is_metric_event());
}

/// Runs an action over gRPC; `connect` and `send` answer its steps.
fn over_grpc(
    action: Action,
    mut connect: impl FnMut() -> Result<(), ConnectFailure>,
    mut send: impl FnMut(&GrpcRequest) -> Result<GrpcReply, String>,
) -> Event {
    assert!(can_start(&action));
    let (mut call, mut step) = GrpcCall::start(action, "box".to_string());
    loop {
        let input = match step {
            GrpcStep::Finish(event) => return event,
            GrpcStep::Connect => GrpcInput::Connected { outcome: connect() },
            GrpcStep::Send(request) => GrpcInput::Answered { answer: send(&request) },
        };
        assert!(call.accepts(&input, 0));
        step = call.resume(input, 0);
    }
}

fn metric_reply(metric_id: u64) -> Result<GrpcReply, String> {
    Ok(GrpcReply::Metric {
        metric_id,
        name: "m".to_string(),
        location: Some(("a.py".to_string(), 3)),
    })
}

#[test]
fn a_metric_is_toggled_by_its_number() {
    let mut sent = Vec::new();
    let mut connects = 0;
    let event = over_grpc(
        Action::ToggleMetric { name: "m".to_string(), enabled: true },
        || {
            connects += 1;
            Ok(())
        },
        |request| {
            sent.push(format!("{request:?}"));
            match request {
                GrpcRequest::GetMetric { .. } => metric_reply(42),
                _ => Ok(GrpcReply::Done),
            }
        },
    );
    assert!(matches!(event, Event::Done(Ok(_))));
    assert_eq!(connects, 2);
    assert_eq!(sent[1], "ToggleMetric { metric_id: 42, enabled: true }");
}

#[test]
fn events_are_asked_for_by_number() {
    let query = || Action::QueryEvents { name: "m".to_string(), limit: 5 };
    let event = over_grpc(query(), || Ok(()), |request| match request {
        GrpcRequest::GetMetric { .. } => metric_reply(7),
        GrpcRequest::QueryMetrics { metric_id, limit } => {
            assert_eq!((*metric_id, *limit), (7, 5));
            Ok(GrpcReply::Events { events: vec![record(value(), 0), record(failure(), -2_000_000)] })
        }
        other => panic!("{other:?}"),
    });
    match event {
        Event::Events(Ok(r)) => {
            assert_eq!(r.data.len(), 2);
            assert_eq!(r.data[0].value, "1");
            assert_eq!((r.data[1].value.as_str(), r.data[1].age_seconds), ("boom", 2));
        }
        other => panic!("{other:?}"),
    }
    // A number that is too large to be read back counts as none.
    for id in [0, u64::MAX] {
        let event = over_grpc(query(), || Ok(()), |_| metric_reply(id));
        assert!(matches!(event, Event::Events(Ok(r)) if r.data.is_empty()));
    }
}

fn error_of(event: Event) -> String {
    event.get_error().expect("an error").message.clone()
}

#[test]
fn failures_of_remote_calls_are_told() {
    let never = |_: &GrpcRequest| -> Result<GrpcReply, String> { panic!("nothing is sent") };
    let refuse = || Err(ConnectFailure::Refused { error: "down".to_string() });
    assert_eq!(
        error_of(over_grpc(Action::Wake, refuse, never)),
        "Failed to connect to gRPC server: down"
    );
    let invalid = || Err(ConnectFailure::InvalidAddress { error: "bad".to_string() });
    assert_eq!(error_of(over_grpc(Action::Sleep, invalid, never)), "Invalid URI: bad");
    assert_eq!(
        error_of(over_grpc(Action::ListGroups, || Ok(()), |_| Err("x".to_string()))),
        "gRPC error: x"
    );
    let add = Action::AddMetric { request: AddMetricRequest::new("m", "nowhere", "x", "c") };
    assert_eq!(
        error_of(over_grpc(add, || Ok(()), never)),
        "Invalid location format: nowhere"
    );
    let observe = Action::Observe { request: ObserveRequest::new("a.py", "x") };
    assert_eq!(
        error_of(over_grpc(observe, || Ok(()), never)),
        "observe tool is only supported on MCP backend, not gRPC"
    );
    assert_eq!(
        error_of(over_grpc(Action::AcknowledgeSystemEvents { ids: vec![] }, || Ok(()), never)),
        "System events are not available via gRPC API. Use MCP instead."
    );
    let usage = |u: Option<UsageMessage>| {
        let mut reply = Some(GrpcReply::Usage { usage: u });
        error_of(over_grpc(Action::GetMcpUsage, || Ok(()), |_| Ok(reply.take().unwrap())))
    };
    assert_eq!(usage(None), "No usage data");
    assert_eq!(
        usage(Some(UsageMessage {
            total_calls: 1,
            total_success: 1,
            total_errors: 0,
            success_percent: "100.0".to_string(),
            avg_latency: "1.0".to_string(),
            top_errors: Vec::new(),
            workflow: None,
        })),
        "No workflow data"
    );
    let inspect = || Action::InspectFile { path: "a".to_string(), line: None, variable: None };
    let answer = |error: Option<&str>| GrpcReply::Inspected {
        success: false,
        content: String::new(),
        error: error.map(|e| e.to_string()),
    };
    assert_eq!(
        error_of(over_grpc(inspect(), || Ok(()), |_| Ok(answer(None)))),
        "Unknown error"
    );
    assert_eq!(error_of(over_grpc(inspect(), || Ok(()), |_| Ok(answer(Some("e"))))), "e");
    assert_eq!(grpc::calls::stream_error("e").message, "gRPC stream error: e");
}

#[test]
fn connections_over_grpc_keep_their_numbers() {
    let create = Action::CreateConnection {
        host: "h".to_string(),
        port: 5678,
        language: "go".to_string(),
        program: None,
    };
    let event = over_grpc(create, || Ok(()), |request| {
        match request {
            GrpcRequest::CreateConnection { name, hostname, workspace_root, .. } => {
                assert_eq!(name, "e2e-test-go-5678");
                assert_eq!(hostname, "box");
                assert_eq!(workspace_root, "/e2e-test");
            }
            other => panic!("{other:?}"),
        }
        Ok(GrpcReply::Created {
            connection_id: "c".to_string(),
            status: "created".to_string(),
            connection: None,
        })
    });
    match event {
        Event::Connection(Ok(r)) => {
            assert_eq!((r.data.connection_id.as_str(), r.data.status.as_str()), ("c", "created"));
            assert_eq!(r.data.port, 0);
        }
        other => panic!("{other:?}"),
    }
    let get = Action::GetConnection { id: "c".to_string() };
    match over_grpc(get, || Ok(()), |_| Ok(GrpcReply::Connection { connection: None })) {
        Event::Connection(Ok(r)) => assert_eq!(r.data.status, "0"),
        other => panic!("{other:?}"),
    }
}

#[test]
fn a_failure_answers_its_action() {
    let e = || ApiError::new("e".to_string());
    assert!(matches!(fail(&Action::ListMetrics, e()), Some(Event::Metrics(Err(_)))));
    assert!(fail(&Action::Pause { millis: 1 }, e()).is_none());
    assert!(mcp_only(&Action::Wake, "REST").is_none());
}
