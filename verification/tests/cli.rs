use detrix_testing::cli::{
    CliClient, CliConnectionResponse, CliEventResponse, CliMetricResponse, CliValidationResponse,
};
use detrix_testing::client::AddMetricRequest;
use detrix_testing::exchange::Action;

fn words(action: Action) -> Vec<String> {
    CliClient::arguments(&action, "/tmp/c.toml").unwrap()
}

#[test]
fn commands_are_put_together() {
    assert_eq!(words(Action::Health), vec!["--format", "json", "status"]);
    let request = AddMetricRequest::new("m", "@a.py#3", "x", "c").with_group("g").with_introspection();
    assert_eq!(
        words(Action::AddMetric { request }),
        vec![
            "--format", "json", "metric", "add", "m", "--location", "@a.py#3", "--expression", "x",
            "--connection", "c", "--group", "g", "--capture-stack-trace",
            "--capture-memory-snapshot"
        ]
    );
    assert_eq!(
        words(Action::CreateConnection {
            host: "h".to_string(),
            port: 5678,
            language: "rust".to_string(),
            program: Some("/p".to_string()),
        })[2..],
        ["connection", "create", "--host", "h", "--port", "5678", "--language", "rust", "--program", "/p"]
    );
    assert_eq!(
        words(Action::ToggleMetric { name: "m".to_string(), enabled: false })[2..],
        ["metric", "disable", "m"]
    );
    assert_eq!(
        words(Action::InspectFile { path: "a".to_string(), line: Some(3), variable: None })[2..],
        ["inspect", "a", "--line", "3"]
    );
    assert_eq!(
        words(Action::UpdateConfig { toml: String::new(), persist: true })[2..],
        ["config", "update", "--file", "/tmp/c.toml", "--persist"]
    );
    assert_eq!(
        words(Action::QuerySystemEvents {
            limit: 5,
            unacknowledged_only: true,
            types: Some(vec!["a".to_string(), "b".to_string()]),
        })[2..],
        ["system-event", "query", "--limit", "5", "--unacked", "--event-type", "a,b"]
    );
    assert!(CliClient::arguments(&Action::AcknowledgeSystemEvents { ids: vec![1] }, "").is_none());
}

#[test]
fn the_port_goes_into_the_environment() {
    let client = CliClient::with_grpc_port("/b".to_string(), 80, 90);
    assert_eq!(
        client.environment(),
        ("DETRIX_GRPC_PORT_OVERRIDE", "90".to_string())
    );
    assert_eq!(CliClient::with_binary("/b".to_string(), 80, 50061).grpc_port, 50061);
}

#[test]
fn a_failed_command_says_why() {
    let run = |code, out: &str, err: &str| {
        CliClient::command_result(false, code, out.to_string(), err.to_string())
            .unwrap_err()
            .message
    };
    assert_eq!(run(Some(1), "out", "err"), "err");
    assert_eq!(run(Some(1), "out", ""), "out");
    assert_eq!(run(Some(-1), "", ""), "Command failed with exit code: Some(-1)");
    assert_eq!(run(None, "", ""), "Command failed with exit code: None");
    let ok = CliClient::command_result(true, Some(0), "out".to_string(), "noise".to_string());
    assert_eq!(ok.unwrap(), "out");
}

#[test]
fn outputs_are_read() {
    assert!(CliClient::is_empty_list(" [] \n"));
    assert!(CliClient::is_empty_list("\n"));
    assert!(!CliClient::is_empty_list("[1]"));
    assert_eq!(CliClient::parse_count_from_message("Enabled 3 metrics"), 3);
    assert_eq!(CliClient::parse_count_from_message("none"), 0);
    let disabled = AddMetricRequest::new("m", "l", "x", "c").disabled();
    assert!(CliClient::disable_after_add(&disabled));
    assert!(!CliClient::disable_after_add(&AddMetricRequest::new("m", "l", "x", "c")));
}

#[test]
fn answers_are_taken_over() {
    let info = CliConnectionResponse {
        connection_id: "c".to_string(),
        host: "h".to_string(),
        port: 65536 + 80,
        language: "go".to_string(),
        status: "connected".to_string(),
        safe_mode: true,
    }
    .into_info();
    assert_eq!(info.port, 80);
    assert!(info.safe_mode);
    let metric = |location: Option<&str>, file: Option<&str>, line| CliMetricResponse {
        name: "m".to_string(),
        location: location.map(|s| s.to_string()),
        location_file: file.map(|s| s.to_string()),
        location_line: line,
        expression: "x".to_string(),
        group: None,
        enabled: true,
        mode: None,
    };
    assert_eq!(metric(Some("@a#1"), Some("b"), Some(2)).get_location(), "@a#1");
    assert_eq!(metric(None, Some("b"), Some(2)).get_location(), "b#2");
    assert_eq!(metric(None, Some("b"), None).get_location(), "b");
    assert_eq!(metric(None, None, Some(2)).get_location(), "");
}

#[test]
fn times_are_shown() {
    let event = |iso: &str, timestamp| CliEventResponse {
        metric_name: "m".to_string(),
        value_json: None,
        timestamp,
        timestamp_iso: iso.to_string(),
        age_seconds: 2,
        is_error: false,
    };
    assert_eq!(event("now", 1).get_timestamp_iso(), "now");
    assert_eq!(event("", 1_500_000).get_timestamp_iso(), "1970-01-01T00:00:01.500+00:00");
    assert_eq!(event("", 0).get_timestamp_iso(), "");
    assert_eq!(event("", 1).into_info().value, "");
}

#[test]
fn objections_are_listed() {
    let answer = |valid, message: Option<&str>, issues: Vec<String>| {
        CliValidationResponse { valid, message: message.map(|s| s.to_string()), issues }
            .to_validation_result()
    };
    assert_eq!(answer(false, Some("bad"), vec![]).issues, vec!["bad"]);
    assert!(answer(true, Some("fine"), vec![]).issues.is_empty());
    assert!(answer(false, Some(""), vec![]).issues.is_empty());
    let listed = answer(false, Some("bad"), vec!["worse".to_string()]);
    assert_eq!(listed.issues, vec!["worse"]);
    assert!(!listed.is_safe);
}
