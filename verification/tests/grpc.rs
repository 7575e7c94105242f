use detrix_testing::client::AddMetricRequest;
use detrix_testing::grpc::{
    build_stack_trace_slice, parse_location, proto_mode_to_string, MetricMode, Mode,
};

#[test]
fn grpc_test_parse_location() {
    let (file, line) = parse_location("@fixtures/python/detrix_example_app.py#42").unwrap();
    assert_eq!(file, "fixtures/python/detrix_example_app.py");
    assert_eq!(line, 42);

    let (file, line) = parse_location("fixtures/python/detrix_example_app.py#42").unwrap();
    assert_eq!(file, "fixtures/python/detrix_example_app.py");
    assert_eq!(line, 42);

    let (file, line) = parse_location("C:/Users/test.py#10").unwrap();
    assert_eq!(file, "C:/Users/test.py");
    assert_eq!(line, 10);
}

#[test]
fn test_build_stack_trace_slice_with_full_option() {
    let request = AddMetricRequest::new("test", "test.py#10", "x", "conn1").with_full_stack_trace();

    let slice = build_stack_trace_slice(&request);
    assert!(slice.is_some());
    let slice = slice.unwrap();
    assert!(slice.full);
    assert!(slice.head.is_none());
    assert!(slice.tail.is_none());
}

#[test]
fn test_build_stack_trace_slice_with_head_tail() {
    let mut request = AddMetricRequest::new("test", "test.py#10", "x", "conn1");
    request.stack_trace_head = Some(5);
    request.stack_trace_tail = Some(3);

    let slice = build_stack_trace_slice(&request);
    assert!(slice.is_some());
    let slice = slice.unwrap();
    assert!(!slice.full);
    assert_eq!(slice.head, Some(5));
    assert_eq!(slice.tail, Some(3));
}

#[test]
fn test_build_stack_trace_slice_with_capture_stack_trace_only() {
    let request = AddMetricRequest::new("test", "test.py#10", "x", "conn1").with_stack_trace();

    let slice = build_stack_trace_slice(&request);
    assert!(slice.is_some());
    let slice = slice.unwrap();
    assert!(slice.full);
    assert!(slice.head.is_none());
    assert!(slice.tail.is_none());
}

#[test]
fn test_build_stack_trace_slice_no_introspection() {
    let request = AddMetricRequest::new("test", "test.py#10", "x", "conn1");

    let slice = build_stack_trace_slice(&request);
    assert!(slice.is_none());
}

#[test]
fn test_build_stack_trace_slice_explicit_full_false() {
    let mut request = AddMetricRequest::new("test", "test.py#10", "x", "conn1");
    request.stack_trace_full = Some(false);
    request.stack_trace_head = Some(10);

    let slice = build_stack_trace_slice(&request);
    assert!(slice.is_some());
    let slice = slice.unwrap();
    assert!(!slice.full);
    assert_eq!(slice.head, Some(10));
}

#[test]
fn test_proto_mode_to_string_stream() {
    let mode = MetricMode { mode: Some(Mode::Stream) };
    assert_eq!(proto_mode_to_string(&Some(mode)), Some("stream".to_string()));
}

#[test]
fn test_proto_mode_to_string_sample() {
    let mode = MetricMode { mode: Some(Mode::Sample { rate: 50 }) };
    assert_eq!(proto_mode_to_string(&Some(mode)), Some("sample".to_string()));
}

#[test]
fn test_proto_mode_to_string_first() {
    let mode = MetricMode { mode: Some(Mode::First) };
    assert_eq!(proto_mode_to_string(&Some(mode)), Some("first".to_string()));
}

#[test]
fn test_proto_mode_to_string_throttle() {
    let mode = MetricMode { mode: Some(Mode::Throttle { max_per_second: 10 }) };
    assert_eq!(proto_mode_to_string(&Some(mode)), Some("throttle".to_string()));
}

#[test]
fn test_proto_mode_to_string_sample_interval() {
    let mode = MetricMode { mode: Some(Mode::SampleInterval { seconds: 30 }) };
    assert_eq!(proto_mode_to_string(&Some(mode)), Some("sample_interval".to_string()));
}

#[test]
fn test_proto_mode_to_string_none() {
    assert_eq!(proto_mode_to_string(&None), None);
}

#[test]
fn test_proto_mode_to_string_empty_mode() {
    let mode = MetricMode { mode: None };
    assert_eq!(proto_mode_to_string(&Some(mode)), None);
}
