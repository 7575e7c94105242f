use detrix_testing::daemon_discovery::{
    cli_status, judge, judge_override, CliStatusResult, DaemonDiscoveryTests, DiscoveryStep,
    Judgement,
};
use detrix_testing::executor::daemon::{read_pid, read_ports};
use detrix_testing::process::{Deed, Move, Reply};

fn harness() -> DaemonDiscoveryTests {
    DaemonDiscoveryTests::new("/t", Some("/bin/detrix".to_string()), "/w", "127.0.0.1", 80, 90)
        .unwrap()
}

#[test]
fn a_harness_needs_a_binary() {
    assert_eq!(
        DaemonDiscoveryTests::new("/t", None, "/w", "127.0.0.1", 80, 90).unwrap_err(),
        "detrix binary not found. Run: cargo build -p detrix-cli"
    );
    let h = harness();
    assert_eq!(h.pid_file_path(), "/t/daemon.pid");
    assert_eq!(h.config_path(), "/t/detrix.toml");
    assert_eq!(h.grpc_address(), "127.0.0.1:90");
    assert!(h.config().contains("port_fallback = false"));
    assert_eq!(h.status_command().args, vec!["status", "--config", "/t/detrix.toml", "--format", "json"]);
    assert_eq!(
        h.override_command().env[0],
        ("DETRIX_GRPC_PORT_OVERRIDE".to_string(), "90".to_string())
    );
}

#[test]
fn a_status_is_found_or_not() {
    match cli_status(true, "{\"state\":\"awake\"}", "") {
        CliStatusResult::Found { state, .. } => assert_eq!(state, "awake"),
        other => panic!("{other:?}"),
    }
    for text in ["{}", "nonsense", "{\"state\":1}"] {
        match cli_status(true, text, "") {
            CliStatusResult::Found { state, output } => {
                assert_eq!(state, "unknown");
                assert_eq!(output, text);
            }
            other => panic!("{other:?}"),
        }
    }
    match cli_status(false, "", "no daemon") {
        CliStatusResult::NotFound { error } => assert_eq!(error, "no daemon"),
        other => panic!("{other:?}"),
    }
}

#[test]
fn statuses_are_judged() {
    let found = CliStatusResult::Found { state: "awake".to_string(), output: "port 90".to_string() };
    let lost = CliStatusResult::NotFound { error: "none".to_string() };
    assert_eq!(
        judge(Judgement::ByPidFile, &found),
        Ok(vec!["  ✓ Daemon found via PID file, state: awake".to_string()])
    );
    assert_eq!(judge(Judgement::DespiteCorruption, &found).unwrap().len(), 2);
    assert_eq!(
        judge(Judgement::ByPidFile, &lost),
        Err("Expected to find daemon via PID file: none".to_string())
    );
    assert!(judge(Judgement::WithoutPidFile, &lost).is_err());
    assert_eq!(
        judge(Judgement::NotRunning, &found),
        Err("Expected daemon to not be found with stale PID file".to_string())
    );
    assert!(judge(Judgement::NotRunning, &lost).is_ok());
    assert!(judge(Judgement::Either, &found).is_ok());
    assert!(judge(Judgement::Either, &lost).is_ok());
    assert!(judge_override(true, "").is_ok());
    assert_eq!(
        judge_override(false, "x"),
        Err("Explicit port override should find daemon: x".to_string())
    );
}

#[test]
fn the_daemon_is_taken_from_its_pid_file() {
    let mut h = harness();
    h.set_daemon_pid(Some("{\"pid\":7}"), 5);
    assert_eq!(h.take_daemon_pid(), Some(7));
    h.set_daemon_pid(None, 5);
    assert_eq!(h.pid_line("a", "b").as_deref(), Some("a5b"));
    let text = h.write_pid_file(None, 81, 91);
    assert_eq!(read_pid(&text), Some(5));
    assert_eq!(read_ports(&text), Some((81, 91)));
    assert_eq!(read_pid(&h.write_pid_file(Some(999999), 80, 90)), Some(999999));
    assert_eq!(h.take_daemon_pid(), Some(5));
    assert_eq!(h.take_daemon_pid(), None);
}

#[test]
fn every_test_that_starts_a_daemon_stops_it() {
    let h = harness();
    for steps in [
        h.test_valid_pid_file(),
        h.test_corrupted_pid_file_port_probe_fallback(),
        h.test_missing_pid_file_port_probe(),
        h.test_stale_pid_file_no_daemon(),
        h.test_explicit_port_override(),
        h.test_pid_file_wrong_ports(),
    ] {
        let starts = steps.iter().filter(|s| matches!(s, DiscoveryStep::Start)).count();
        let stops = steps.iter().filter(|s| matches!(s, DiscoveryStep::Stop)).count();
        assert_eq!(starts, stops);
        assert!(matches!(&steps[0], DiscoveryStep::Say(t) if t.starts_with("=== Test: ")));
    }
    assert_eq!(h.run_all().len(), 3 + 7 + 9 + 9 + 7 + 8 + 8 + 3);
}

fn start(mut answer: impl FnMut(&Deed) -> Reply) -> Result<(), String> {
    let (mut start, mut deed) = harness().start_daemon();
    loop {
        let reply = answer(&deed);
        match start.resume(reply) {
            Move::Do(d) => deed = d,
            Move::Finish(r) => return r,
        }
    }
}

#[test]
fn a_daemon_is_ready_when_it_accepts_connections() {
    let mut looks = 0;
    let r = start(|d| match d {
        Deed::CheckFile { .. } => {
            looks += 1;
            Reply::Truth(looks > 2)
        }
        Deed::Connect { port, .. } => Reply::Truth(*port == 90),
        Deed::TimeIsUp { .. } => Reply::Truth(false),
        Deed::WriteFile { .. } | Deed::CreateLog { .. } | Deed::CloneLog { .. } | Deed::Spawn { .. } => {
            Reply::Outcome(Ok(()))
        }
        _ => Reply::Done,
    });
    assert_eq!(r, Ok(()));
    assert_eq!(looks, 3);
}

#[test]
fn a_daemon_that_is_not_ready_shows_its_log() {
    let r = start(|d| match d {
        Deed::TimeIsUp { .. } => Reply::Truth(true),
        Deed::ReadFile { .. } => Reply::Text(Some("é".repeat(3000))),
        Deed::WriteFile { .. } | Deed::CreateLog { .. } | Deed::CloneLog { .. } | Deed::Spawn { .. } => {
            Reply::Outcome(Ok(()))
        }
        _ => Reply::Done,
    });
    assert_eq!(r, Err(format!("Daemon failed to start within 10s. Log:\n{}", "é".repeat(2000))));
    assert_eq!(start(|_| Reply::Outcome(Err("full".to_string()))), Err("full".to_string()));
    let r = start(|d| match d {
        Deed::Spawn { .. } => Reply::Outcome(Err("denied".to_string())),
        _ => Reply::Outcome(Ok(())),
    });
    assert_eq!(r, Err("Failed to spawn daemon: denied".to_string()));
}
