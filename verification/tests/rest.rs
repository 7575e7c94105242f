use detrix_testing::json::json_text;
use detrix_testing::rest::{parse_location, CreateMetricRequest, Location, StackTraceSliceDto};

#[test]
fn rest_test_parse_location() {
    let (file, line) = parse_location("test.py#123").unwrap();
    assert_eq!(file, "test.py");
    assert_eq!(line, 123);

    let (file, line) = parse_location("@test.py#456").unwrap();
    assert_eq!(file, "test.py");
    assert_eq!(line, 456);

    let (file, line) = parse_location("/path/to/file.py#789").unwrap();
    assert_eq!(file, "/path/to/file.py");
    assert_eq!(line, 789);

    let (file, line) = parse_location("C:/Users/test.py#10").unwrap();
    assert_eq!(file, "C:/Users/test.py");
    assert_eq!(line, 10);

    assert!(parse_location("invalid").is_err());
    assert!(parse_location("file.py#abc").is_err());
}

#[test]
fn test_create_metric_request_serializes_introspection_fields() {
    let dto = CreateMetricRequest {
        name: "test_metric".to_string(),
        connection_id: "conn1".to_string(),
        group: Some("group1".to_string()),
        location: Location { file: "test.py".to_string(), line: 42 },
        expression: "x + y".to_string(),
        language: "python".to_string(),
        enabled: true,
        mode: "stream".to_string(),
        safety_level: Some("strict".to_string()),
        replace: false,
        sample_rate: None,
        sample_interval_seconds: None,
        max_per_second: None,
        capture_stack_trace: true,
        stack_trace_ttl: Some(600),
        stack_trace_slice: Some(StackTraceSliceDto::Full { full: true }),
        capture_memory_snapshot: true,
        snapshot_scope: Some("local".to_string()),
        snapshot_ttl: Some(300),
    };

    let json = json_text(&dto.to_json());

    assert!(json.contains("\"connectionId\":"));
    assert!(json.contains("\"mode\":\"stream\""));
    assert!(json.contains("\"captureStackTrace\":true"));
    assert!(json.contains("\"stackTraceTtl\":600"));
    assert!(json.contains("\"stackTraceSlice\":"));
    assert!(json.contains("\"captureMemorySnapshot\":true"));
    assert!(json.contains("\"snapshotScope\":\"local\""));
    assert!(json.contains("\"snapshotTtl\":300"));
}

#[test]
fn test_create_metric_request_with_defaults() {
    let dto = CreateMetricRequest {
        name: "test_metric".to_string(),
        connection_id: "conn1".to_string(),
        group: None,
        location: Location { file: "test.py".to_string(), line: 42 },
        expression: "x".to_string(),
        language: "python".to_string(),
        enabled: true,
        mode: "stream".to_string(),
        safety_level: None,
        replace: false,
        sample_rate: None,
        sample_interval_seconds: None,
        max_per_second: None,
        capture_stack_trace: false,
        stack_trace_ttl: None,
        stack_trace_slice: None,
        capture_memory_snapshot: false,
        snapshot_scope: None,
        snapshot_ttl: None,
    };

    let json = json_text(&dto.to_json());

    assert!(json.contains("\"name\":\"test_metric\""));
    assert!(json.contains("\"connectionId\":\"conn1\""));
    assert!(json.contains("\"captureStackTrace\":false"));
    assert!(json.contains("\"captureMemorySnapshot\":false"));
}

#[test]
fn test_stack_trace_slice_dto_serialization() {
    let full_slice = StackTraceSliceDto::Full { full: true };
    let json = json_text(&full_slice.to_json());
    assert!(json.contains("\"full\":true"));

    let partial_slice = StackTraceSliceDto::HeadTail(5, 3);
    let json = json_text(&partial_slice.to_json());
    assert!(json.contains("[5,3]"));
}
