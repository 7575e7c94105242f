use detrix_testing::json::{json_text, read_json};
use detrix_testing::mcp_bridge::{
    bridge_command, extract_text, list_metric_names, read_response, tool_result, McpBridgeProcess,
};
use detrix_testing::test_file_server::{
    answer_read, remap_path, workspace_root, FileServingError,
};
use detrix_testing::websocket::{
    connection_error, forwarding_ends, EventMessage, Flow, Frame, Receiving, WebSocketClient,
    WebSocketError,
};

fn event(id: i64) -> EventMessage {
    EventMessage {
        metric_id: id,
        metric_name: "m".to_string(),
        timestamp: 1,
        value_json: "1".to_string(),
        stack_trace: None,
        memory_snapshot: None,
    }
}

#[test]
fn receiving_ends_when_there_is_enough() {
    let mut r = Receiving::new(Some(2));
    assert!(r.wants_more(false));
    assert!(!r.wants_more(true));
    assert!(matches!(r.take(Frame::Text { event: Some(event(1)) }), Flow::Continue));
    assert!(matches!(r.take(Frame::Text { event: None }), Flow::Continue));
    assert!(matches!(r.take(Frame::Other), Flow::Continue));
    assert!(matches!(r.take(Frame::Timeout), Flow::Continue));
    assert!(r.wants_more(false));
    assert!(matches!(r.take(Frame::Text { event: Some(event(2)) }), Flow::Continue));
    assert!(!r.wants_more(false));
    assert_eq!(r.events.iter().map(|e| e.metric_id).collect::<Vec<_>>(), vec![1, 2]);
}

#[test]
fn receiving_ends_with_the_stream() {
    let mut r = Receiving::new(None);
    assert_eq!(r.max_events, usize::MAX);
    assert!(matches!(r.take(Frame::Close), Flow::Stop));
    assert!(matches!(r.take(Frame::End), Flow::Stop));
    match r.take(Frame::Error { message: "reset".to_string() }) {
        Flow::Fail { error } => assert_eq!(error.to_text(), "Read error: reset"),
        other => panic!("{other:?}"),
    }
}

#[test]
fn forwarding_ends_with_its_receiver() {
    assert!(forwarding_ends(&Frame::Text { event: Some(event(1)) }, true));
    assert!(!forwarding_ends(&Frame::Text { event: Some(event(1)) }, false));
    assert!(!forwarding_ends(&Frame::Text { event: None }, true));
    assert!(forwarding_ends(&Frame::Close, false));
    assert!(!forwarding_ends(&Frame::Other, true));
}

#[test]
fn connections_have_addresses_and_errors() {
    assert_eq!(WebSocketClient::new(8090).url, "ws://127.0.0.1:8090/ws");
    assert_eq!(WebSocketClient::with_url("ws://x".to_string()).url, "ws://x");
    assert_eq!(connection_error(None).to_text(), "Connection timeout");
    assert_eq!(connection_error(Some("no")).to_text(), "Connection failed: no");
    assert_eq!(WebSocketError::new("m".to_string()).to_text(), "m");
}

#[test]
fn a_bridge_is_started_with_its_token() {
    let c = bridge_command("http://d", "SECRET", Some("host"));
    assert_eq!(c.args, vec!["mcp", "--daemon-url", "http://d"]);
    assert_eq!(c.env.len(), 2);
    assert_eq!(c.env[1], ("DETRIX_FILE_SERVER_HOST".to_string(), "host".to_string()));
    assert_eq!(bridge_command("http://d", "SECRET", None).env.len(), 1);
}

#[test]
fn requests_of_a_bridge_are_numbered() {
    let mut b = McpBridgeProcess::new();
    assert_eq!(b.initialize().get_u64("id"), Some(1));
    assert!(McpBridgeProcess::initialized().get("id").is_none());
    let call = b.call_tool("wake", read_json("{\"a\":1}").unwrap());
    assert_eq!(call.get_u64("id"), Some(2));
    assert_eq!(
        read_json(&json_text(&call)).unwrap().get("params").unwrap().get_str("name"),
        Some("wake")
    );
    assert_eq!(b.next_id, 3);
}

#[test]
fn only_responses_are_taken() {
    assert!(read_response(" {\"id\":1} \n").is_some());
    assert!(read_response("{\"id\":null}").is_none());
    assert!(read_response("{\"method\":\"x\"}").is_none());
    assert!(read_response("log line").is_none());
}

#[test]
fn results_of_tools_are_judged() {
    let judge = |text: &str| tool_result(&read_json(text).unwrap());
    assert_eq!(
        judge(r#"{"error":{"code":1}}"#).unwrap_err(),
        "JSON-RPC error: {\"code\":1}"
    );
    assert_eq!(
        judge(r#"{"result":{"isError":true,"content":[{"text":"a"},{},{"text":"b"}]}}"#).unwrap_err(),
        "Tool error: a\nb"
    );
    assert_eq!(judge("{}").unwrap_err(), "no result");
    let ok = judge(r#"{"result":{"content":[{"text":"a"}]}}"#).unwrap();
    assert_eq!(extract_text(&ok), "a");
}

#[test]
fn names_of_metrics_are_found() {
    let names =
        list_metric_names("Found 2 metrics\n[{\"name\":\"a\"},{\"x\":1},{\"name\":\"b\"}]").unwrap();
    assert_eq!(names, vec!["a", "b"]);
    assert!(list_metric_names("none").is_err());
}

#[test]
fn container_paths_become_host_paths() {
    let maps = vec![
        ("/app".to_string(), "/host/app".to_string()),
        ("/lib".to_string(), "/host/lib".to_string()),
    ];
    assert_eq!(remap_path("/lib/x.py", &maps), "/host/lib/x.py");
    assert_eq!(remap_path("/app//x.py", &maps), "/host/app/x.py");
    assert_eq!(remap_path("/other/x.py", &maps), "/other/x.py");
    assert_eq!(workspace_root(&None, Some("/w".to_string())), Some("/w".to_string()));
    assert_eq!(workspace_root(&None, None), None);
}

#[test]
fn reads_are_answered() {
    assert_eq!(answer_read(Ok("x".to_string())), (200, "x".to_string()));
    assert_eq!(answer_read(Err(FileServingError::NotFound)).0, 404);
    assert_eq!(answer_read(Err(FileServingError::EmptyPath)), (400, "Missing path".to_string()));
    assert_eq!(answer_read(Err(FileServingError::RelativePath)).1, "Path must be absolute");
    assert_eq!(answer_read(Err(FileServingError::TooLarge)).0, 413);
    let e = FileServingError::ReadError { message: "io".to_string() };
    assert_eq!(answer_read(Err(e)), (500, "io".to_string()));
}

#[test]
fn a_message_is_a_line() {
    let message = read_json("{\"id\": 1}").unwrap();
    assert_eq!(McpBridgeProcess::write_message(&message), "{\"id\":1}\n");
}
