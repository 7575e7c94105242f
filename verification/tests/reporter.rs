use detrix_testing::report::{Report, Slot};
use detrix_testing::reporter::{OpenSteps, StepStatus, TestReporter, TestStep};

#[test]
fn output_is_buffered_until_the_footer() {
    let mut r = TestReporter::new("My Test", "REST", None);
    r.print_header();
    let n = r.step_start("Health", "Check the health");
    assert_eq!(n, 1);
    r.step_request("GET", Some("/health"));
    r.step_response("200", Some("ok\nfine"));
    r.step_success(n, Some("healthy"));
    assert!(r.take_printed().is_empty());
    assert!(r.unflushed().is_some());
    r.print_footer(true, 42);
    let printed = r.take_printed();
    assert_eq!(printed.len(), 1);
    let expected = [
        "",
        "==========================================================",
        "  My Test (REST)",
        "==========================================================",
        "",
        "",
        "[STEP 1] Health",
        "   Check the health",
        "   -> GET /health",
        "   <- 200",
        "      ok",
        "      fine",
        "   OK: healthy",
        "",
        "==========================================================",
        "  TEST PASSED",
        "----------------------------------------------------------",
        "  Steps: 1 passed, 0 failed, 0 skipped",
        "  Duration: 42ms",
        "==========================================================",
        "",
    ];
    assert_eq!(printed[0], expected.join("\n"));
    assert_eq!(r.unflushed(), None);
    assert!(!r.has_failures());
}

#[test]
fn output_is_streamed_where_that_is_asked_for() {
    for setting in ["1", "true", "TRUE", "True"] {
        let mut r = TestReporter::new("t", "a", Some(setting));
        r.info("hello");
        assert_eq!(r.take_printed(), vec!["   hello".to_string()]);
    }
    for setting in ["0", "yes", ""] {
        let mut r = TestReporter::new("t", "a", Some(setting));
        r.info("hello");
        assert!(r.take_printed().is_empty());
    }
}

#[test]
fn steps_are_numbered_and_keep_their_outcome() {
    let mut r = TestReporter::new("t", "a", None);
    let a = r.step_start("A", "a");
    let b = r.step_start("B", "b");
    let c = r.step_start("C", "c");
    r.step_failed(b, "broken");
    r.step_skipped(c, "no tool");
    r.step_success(99, None);
    let steps = r.get_steps();
    assert_eq!(steps.iter().map(|s| s.number).collect::<Vec<_>>(), vec![1, 2, 3]);
    assert_eq!(steps[a - 1].status, StepStatus::Running);
    assert_eq!(steps[b - 1].status, StepStatus::Failed);
    assert_eq!(steps[b - 1].details.as_deref(), Some("broken"));
    assert_eq!(steps[c - 1].status, StepStatus::Skipped);
    assert!(r.has_failures());
    r.print_footer(false, 0);
    let text = r.take_printed().concat();
    assert!(text.contains("  TEST FAILED"));
    assert!(text.contains("  Steps: 0 passed, 1 failed, 1 skipped"));
}

#[test]
fn a_reporter_that_is_not_verbose_says_nothing() {
    let mut r = TestReporter::new("t", "a", Some("1"));
    assert!(r.is_verbose());
    r.set_verbose(false);
    let n = r.step_start("A", "a");
    r.raw("x", "y");
    r.step_response("200", Some(&"ä".repeat(400)));
    r.step_success(n, None);
    r.print_footer(true, 1);
    assert!(r.take_printed().is_empty());
    assert_eq!(r.get_steps()[0].status, StepStatus::Success);
}

#[test]
fn long_bodies_are_cut() {
    let mut r = TestReporter::new("t", "a", Some("1"));
    let long = "x".repeat(501);
    assert!(TestReporter::can_show(Some(&long)));
    r.step_response("200", Some(&long));
    let lines = r.take_printed();
    assert_eq!(lines[1], format!("      {}...(truncated)", "x".repeat(500)));
    r.step_response("200", Some(&"x".repeat(500)));
    assert_eq!(r.take_printed()[1], format!("      {}", "x".repeat(500)));
    // 167 characters of three bytes: the 500th byte is inside a character.
    assert!(!TestReporter::can_show(Some(&"€".repeat(167))));
    assert!(TestReporter::can_show(Some(&"ä".repeat(300))));
    assert!(TestReporter::can_show(None));
}

#[test]
fn lines_have_their_forms() {
    let mut r = TestReporter::new("t", "a", Some("1"));
    r.section("Part");
    r.log_kv("k", "v");
    r.warn("w");
    r.error("e");
    r.step_progress("p");
    r.step_request("GET", None);
    r.raw("data", "1\n2");
    assert_eq!(
        r.take_printed(),
        [
            "", "   --- Part ---", "   k: v", "   WARNING: w", "   ERROR: e", "   p", "   -> GET",
            "", "   === data ===", "   1", "   2", "   ============",
        ]
        .iter()
        .map(|s| s.to_string())
        .collect::<Vec<_>>()
    );
}

#[test]
fn reports_are_performed_on_the_open_steps() {
    let mut r = TestReporter::new("t", "a", Some("1"));
    let mut open = OpenSteps { main: 0, nested: 0 };
    let reports = vec![
        Report::StepStart { slot: Slot::Main, name: "A".to_string(), description: "a".to_string() },
        Report::StepStart { slot: Slot::Nested, name: "B".to_string(), description: "b".to_string() },
        Report::Failed { slot: Slot::Nested, error: "no".to_string() },
        Report::Success { slot: Slot::Main, details: None },
        Report::Info { message: "i".to_string() },
    ];
    for report in &reports {
        assert!(r.can_perform(report));
        r.perform(&mut open, report);
    }
    let steps = r.get_steps();
    assert_eq!(open, OpenSteps { main: 1, nested: 2 });
    assert_eq!(steps[0].status, StepStatus::Success);
    assert_eq!(steps[1].status, StepStatus::Failed);
    let bad = Report::Response { status: "s".to_string(), body: Some("€".repeat(167)) };
    assert!(!r.can_perform(&bad));
}

#[test]
fn a_new_step_runs() {
    let s = TestStep::new(3, "n", "d");
    assert_eq!(s.number, 3);
    assert_eq!(s.status, StepStatus::Running);
    assert!(s.details.is_none());
    assert!(s.duration_ms.is_none());
}
