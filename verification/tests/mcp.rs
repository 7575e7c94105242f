use detrix_testing::client::{
    AddMetricRequest, EnableFromDiffRequest, EventInfo, ObserveRequest,
};
use detrix_testing::exchange::Action;
use detrix_testing::json::{decode_toon, json_text, read_json, Json};
use detrix_testing::mcp::answers::McpReading;
use detrix_testing::mcp::tables::find_json_blocks;
use detrix_testing::mcp::McpClient;

fn answer(text: &str) -> Json {
    let text = json_text(&Json::string(text));
    let raw = format!("{{\"result\":{{\"content\":[{{\"type\":\"text\",\"text\":{text}}}]}}}}");
    McpClient::interpret(&raw).unwrap()
}

#[test]
fn a_client_talks_to_its_port() {
    let client = McpClient::new(8090);
    assert_eq!(client.mcp_url(), "http://127.0.0.1:8090/mcp");
    assert_eq!(client.health_url(), "http://127.0.0.1:8090/health");
}

#[test]
fn a_request_names_the_tool() {
    let request = McpClient::request("wake", McpClient::no_arguments());
    assert_eq!(request.get_str("method"), Some("tools/call"));
    let params = request.get("params").unwrap();
    assert_eq!(params.get_str("name"), Some("wake"));
    assert!(params.get("arguments").is_some());
}

#[test]
fn an_answer_that_is_no_json_is_an_error() {
    let error = McpClient::interpret("nonsense").unwrap_err();
    assert_eq!(error.raw_response.as_deref(), Some("nonsense"));
}

#[test]
fn an_error_in_the_answer_is_an_error() {
    let raw = r#"{"error":{"code":-32000,"message":"no such tool"}}"#;
    let error = McpClient::interpret(raw).unwrap_err();
    assert!(error.message.contains("no such tool"), "{}", error.message);
}

#[test]
fn the_text_of_an_answer_is_found() {
    assert_eq!(McpClient::extract_text(&answer("hello")).as_deref(), Some("hello"));
    assert_eq!(McpClient::text_or_empty(&Json::Null), "");
}

#[test]
fn numbers_in_texts_are_found() {
    assert_eq!(McpClient::parse_metric_count("Enabled 3 metrics in group x"), 3);
    assert_eq!(McpClient::parse_metric_count("nothing"), 0);
    assert_eq!(McpClient::parse_acknowledged("Acknowledged 12 events"), 12);
    assert_eq!(McpClient::metric_id("Added\nMetric ID: 42 done"), "42");
    assert_eq!(McpClient::metric_id("Added 42"), "0");
}

#[test]
fn connection_ids_are_found_in_every_form() {
    let find = |t: &str| McpClient::connection_id(t, "127.0.0.1", 5678);
    assert_eq!(find("Created (connection_id: abc-1) now"), "abc-1");
    assert_eq!(find("connection_id: abc-2"), "abc-2");
    assert_eq!(find("{\"connection_id\": \"abc-3\"}"), "abc-3");
    assert_eq!(find("Created"), "127_0_0_1_5678");
    let made = McpClient::created_connection(&answer("connection_id: x"), "h", 1, "go", "connected");
    assert_eq!(made.connection_id, "x");
    assert_eq!(made.status, "connected");
    assert_eq!(McpClient::known_connection("y", "connected").connection_id, "y");
}

#[test]
fn connections_are_read_from_a_table() {
    let list = McpClient::parse_connections(&answer(
        "Found 2 connections\n[2]{id,host,port,language,status}:\n  c1,\"127.0.0.1\",5678,python,connected\n  c2,\"10.0.0.1\",x,go,disconnected",
    ));
    assert_eq!(list.len(), 2);
    assert_eq!(list[0].connection_id, "c1");
    assert_eq!(list[0].host, "127.0.0.1");
    assert_eq!(list[0].port, 5678);
    assert_eq!(list[1].port, 0);
    assert_eq!(list[1].status, "disconnected");
}

#[test]
fn statuses_and_validations_are_read() {
    assert_eq!(McpClient::status_of("Daemon is active").mode, "active");
    assert_eq!(McpClient::status_of("Daemon sleeps").mode, "sleeping");
    assert!(McpClient::validation_of("Expression is SAFE").is_safe);
    assert!(!McpClient::validation_of("Expression is UNSAFE").is_safe);
    assert!(McpClient::config_is_valid("Configuration is valid"));
    assert!(!McpClient::config_is_valid("broken"));
}

#[test]
fn arguments_hold_what_was_asked() {
    let request = AddMetricRequest::new("m", "@a.py#3", "x", "c").with_group("g").disabled();
    let args = McpClient::add_metric_arguments(&request);
    assert_eq!(args.get_str("name"), Some("m"));
    assert_eq!(args.get_str("group"), Some("g"));
    assert_eq!(args.get_bool("enabled"), Some(false));
    let args = McpClient::observe_arguments(&ObserveRequest::new("a.py", "x").with_line(7).with_ttl(60));
    assert_eq!(args.get_u64("line"), Some(7));
    assert_eq!(args.get_i64("ttl_seconds"), Some(60));
    let args = McpClient::diff_arguments(&EnableFromDiffRequest::new("+print(x)").with_group("g"));
    assert_eq!(args.get_str("diff"), Some("+print(x)"));
    let args = McpClient::toggle_arguments("m", false);
    assert_eq!(args.get_bool("enabled"), Some(false));
    let args = McpClient::acknowledge_arguments(&vec![1, -2]);
    assert_eq!(json_text(&args), "{\"event_ids\":[1,-2]}");
}

#[test]
fn an_observation_is_read_from_json_and_from_text() {
    let line = r#"{"success":true,"metric":{"id":7,"name":"m","location":"@a.py#3","expression":"x"},"context":{"line_source":"found","connection_id":"c","alternatives":[{"line":4,"content":"y"},{"line":5}]},"warnings":["w",1]}"#;
    for text in [format!("Observing\n{line}"), format!("Observing\n{}", line.replace(',', ",\n"))] {
        let r = McpClient::parse_observe_response(&text);
        assert!(r.success);
        assert_eq!(r.metric_id, 7);
        assert_eq!((r.file.as_str(), r.line), ("a.py", 3));
        assert_eq!(r.alternatives, vec![(4, "y".to_string())]);
        assert_eq!(r.warnings, vec!["w".to_string()]);
    }
    let r = McpClient::parse_observe_response(r#"{"metric":1}"#);
    assert_eq!((r.file.as_str(), r.line, r.metric_id), ("unknown", 0, 0));
    let r = McpClient::parse_observe_text("nothing that is known");
    assert_eq!(r.metric_id, 0);
}

#[test]
fn a_diff_answer_without_json_is_an_error() {
    assert!(McpClient::parse_enable_from_diff_response("nothing").is_err());
    let r = McpClient::parse_enable_from_diff_response(
        "{\"success\":true,\"added\":[{\"name\":\"m\",\"file\":\"a.py\",\"line\":3,\"id\":9}],\"failed\":[],\"needs_review\":[],\"connection_id\":\"c\"}",
    )
    .unwrap();
    assert!(r.success);
    assert_eq!(r.added.len(), 1);
    assert_eq!(r.added[0].line, 3);
}

#[test]
fn metrics_are_read_in_the_first_way_that_succeeds() {
    let text = "Found 1 metrics\n[{\"name\":\"m\",\"location\":\"@a.py#3\",\"expressions\":[\"x\"],\"enabled\":true}]";
    let json = answer(text);
    let list = McpClient::parse_metrics_response(&json, None, None);
    assert_eq!(list.len(), 1);
    assert_eq!(list[0].name, "m");
    assert_eq!(list[0].expression, "x");
    assert!(McpClient::parse_metrics_response(&answer("Found 0 metrics\n[]"), None, None).is_empty());
}

#[test]
fn groups_are_read() {
    let json = answer("[{\"name\":\"g\",\"metric_count\":4,\"enabled_count\":1}]");
    let groups = McpClient::parse_groups(&json);
    assert_eq!(groups.len(), 1);
    assert_eq!(groups[0].metric_count, 4);
    assert_eq!(groups[0].enabled_count, 1);
}

#[test]
fn objects_are_found_line_by_line() {
    let blocks = find_json_blocks("Found 2\n{\"a\":1}\n\n{\n \"b\": {\n  \"c\": 2\n }\n}\nend");
    assert_eq!(blocks.len(), 2);
    assert_eq!(read_json(&blocks[0]).unwrap().get_u64("a"), Some(1));
    assert_eq!(read_json(&blocks[1]).unwrap().get("b").unwrap().get_u64("c"), Some(2));
}

#[test]
fn toon_is_decoded() {
    let json = decode_toon("name: m\nline: 3").unwrap();
    assert_eq!(json.get_str("name"), Some("m"));
    assert_eq!(json.get_u64("line"), Some(3));
}

fn event(name: &str) -> EventInfo {
    EventInfo {
        metric_name: name.to_string(),
        value: String::new(),
        values: Vec::new(),
        timestamp_iso: String::new(),
        age_seconds: 0,
        is_error: false,
        stack_trace: None,
        memory_snapshot: None,
        extra: Vec::new(),
    }
}

#[test]
fn events_are_read_in_the_first_way_that_succeeds() {
    let json = answer("Found 1 events\n{\"metric_name\":\"m\"}");
    assert_eq!(McpClient::event_blocks(&json), vec!["{\"metric_name\":\"m\"}\n"]);
    let read = |toon, data, text, blocks| {
        McpClient::parse_events(&json, toon, data, text, blocks)
            .iter()
            .map(|e| e.metric_name.clone())
            .collect::<Vec<_>>()
    };
    assert_eq!(read(Some(vec![event("t")]), Some(vec![event("d")]), None, vec![]), vec!["t"]);
    assert_eq!(read(None, Some(vec![event("d")]), None, vec![]), vec!["d"]);
    assert_eq!(read(None, None, Some(vec![event("x")]), vec![]), vec!["x"]);
    assert_eq!(
        read(None, None, None, vec![Some(event("a")), None, Some(event("b"))]),
        vec!["a", "b"]
    );
}

#[test]
fn system_events_are_dedented() {
    let text = "✅ fine\nFound 1 events\n[1]:\n  - id: 1\n    kind: x\n";
    assert!(McpClient::system_events_can_dedent(text));
    assert_eq!(
        McpClient::system_events_content(text).as_deref(),
        Some("- id: 1\n  kind: x")
    );
    assert!(McpClient::system_events_content("Found 0 events\n[]").is_none());
    // A wide space in front of one line, and two narrow ones in front of the other.
    assert!(!McpClient::system_events_can_dedent("[2]:\n\u{3000}a\n  b"));
}

#[test]
fn ports_that_are_no_numbers_are_reported() {
    let json = answer(
        "[3]{id,host,port,language,status}:\n  c1,\"127.0.0.1\",5678,python,connected\n  c2,\"10.0.0.1\", x ,go,down\n  c3,h,70000,go,down\n  c4,h,y,go",
    );
    assert_eq!(
        McpClient::notices(&Action::ListConnections, &json, &McpReading::Unread),
        vec![
            "[WARN] Failed to parse port 'x' in connection response, defaulting to 0".to_string(),
            "[WARN] Failed to parse port '70000' in connection response, defaulting to 0"
                .to_string(),
        ]
    );
    assert!(McpClient::notices(&Action::Wake, &json, &McpReading::Unread).is_empty());
}

#[test]
fn events_that_cannot_be_read_are_reported() {
    let action = Action::QueryEvents { name: "m".to_string(), limit: 10 };
    let unread = |blocks: Vec<Option<EventInfo>>| McpReading::Events {
        toon: None,
        data: None,
        text: None,
        blocks,
    };
    let expected = vec!["[DEBUG parse_events] No events parsed from any format".to_string()];
    let json = answer("Found 1 event\nnonsense");
    assert_eq!(McpClient::notices(&action, &json, &unread(vec![None])), expected);
    assert_eq!(McpClient::notices(&action, &json, &unread(Vec::new())), expected);
    // An empty list is no failure, nor is one that could be read.
    assert!(McpClient::notices(&action, &answer("[]"), &unread(Vec::new())).is_empty());
    let read = McpReading::Events {
        toon: Some(Vec::new()),
        data: None,
        text: None,
        blocks: Vec::new(),
    };
    assert!(McpClient::notices(&action, &json, &read).is_empty());
}
