use detrix_testing::client::ConnectionInfo;
use detrix_testing::client_tests::config::ClientTestConfig;
use detrix_testing::client_tests::process_tester::{control_plane_port, ClientSpawn};
use detrix_testing::client_tests::python_tester::PythonSpawn;
use detrix_testing::client_tests::scenarios::{
    ClientAnswer, ClientAsk, ClientCase, ClientNext, ClientScenario, ClientStep,
    ClientTestScenarios, FullSuite, SuiteNext,
};
use detrix_testing::client_tests::{
    control_url, http_get, http_post, wake_body, ClientStatus, Endpoint, HealthResponse,
    HttpOutcome, SleepResponse, WakeResponse,
};
use detrix_testing::process::{Deed, Move, Reply};
use detrix_testing::report::Report;

/// A client as it has to be, with a daemon that knows it while it is awake.
struct Client {
    awake: bool,
    /// What the daemon says of a connection that was closed.
    closed_status: &'static str,
}

impl Client {
    fn status(&self) -> ClientStatus {
        ClientStatus {
            state: if self.awake { "awake" } else { "sleeping" }.to_string(),
            name: "test-client".to_string(),
            control_host: "127.0.0.1".to_string(),
            control_port: 9000,
            debug_port: 0,
            debug_port_active: false,
            daemon_url: "http://127.0.0.1:8090".to_string(),
            connection_id: if self.awake { Some("c1".to_string()) } else { None },
        }
    }

    fn wake(&mut self, url: &Option<String>) -> Result<WakeResponse, String> {
        if url.is_some() {
            return Err("unreachable".to_string());
        }
        let status = if self.awake { "already_awake" } else { "awake" };
        self.awake = true;
        Ok(WakeResponse {
            status: status.to_string(),
            debug_port: 5678,
            connection_id: "c1".to_string(),
        })
    }

    fn answer(&mut self, ask: &ClientAsk) -> ClientAnswer {
        match ask {
            ClientAsk::Status => ClientAnswer::Status(Ok(self.status())),
            ClientAsk::Wake { daemon_url } => ClientAnswer::Wake(self.wake(daemon_url)),
            ClientAsk::Sleep => {
                let status = if self.awake { "sleeping" } else { "already_sleeping" };
                self.awake = false;
                ClientAnswer::Sleep(Ok(SleepResponse { status: status.to_string() }))
            }
            ClientAsk::Health => ClientAnswer::Health(Ok(HealthResponse {
                status: "ok".to_string(),
                service: "detrix-client".to_string(),
            })),
            ClientAsk::ListConnections => {
                let status = if self.awake { "Connected" } else { self.closed_status };
                ClientAnswer::Connections(Ok(vec![ConnectionInfo {
                    connection_id: "c1".to_string(),
                    host: "127.0.0.1".to_string(),
                    port: 5678,
                    language: "python".to_string(),
                    status: status.to_string(),
                    safe_mode: false,
                }]))
            }
            ClientAsk::Pause { .. } => ClientAnswer::Done,
            ClientAsk::WakeAtOnce { count } => ClientAnswer::Wakes(
                (0..*count).map(|_| self.wake(&None).ok().map(|w| w.status)).collect(),
            ),
        }
    }
}

fn run(
    begun: (ClientScenario, ClientStep),
    mut answer: impl FnMut(&ClientAsk) -> ClientAnswer,
) -> (Result<(), String>, Vec<Report>) {
    let (mut scenario, mut step) = begun;
    let mut reports = Vec::new();
    loop {
        reports.extend(step.log.reports);
        match step.next {
            ClientNext::Finish(r) => return (r, reports),
            ClientNext::Ask(ask) => step = scenario.resume(answer(&ask)),
        }
    }
}

#[test]
fn a_good_client_passes_the_full_suite() {
    let mut client = Client { awake: false, closed_status: "Disconnected" };
    let cases = ClientTestScenarios::run_full_suite();
    assert_eq!(cases.len(), 10);
    for case in cases {
        let (r, reports) = run(ClientTestScenarios::start(case), |a| client.answer(a));
        assert_eq!(r, Ok(()), "{case:?}");
        assert!(matches!(reports.first(), Some(Report::StepStart { .. })));
        assert!(matches!(reports.last(), Some(Report::Success { .. })));
    }
}

#[test]
fn a_connection_that_stays_open_is_refused() {
    let mut client = Client { awake: true, closed_status: "Running" };
    let (r, reports) =
        run(ClientTestScenarios::sleep_transitions_to_sleeping(), |a| client.answer(a));
    let message = "Connection 'c1' should be disconnected but status is 'Running'";
    assert_eq!(r, Err(message.to_string()));
    assert!(matches!(reports.last(), Some(Report::Failed { error, .. }) if error == message));
}

#[test]
fn wrong_answers_are_refused() {
    let mut awake = Client { awake: true, closed_status: "closed" };
    assert_eq!(
        run(ClientTestScenarios::initial_state_sleeping(), |a| awake.answer(a)).0,
        Err("Expected 'sleeping', got 'awake'".to_string())
    );
    assert_eq!(
        run(ClientTestScenarios::wake_transitions_to_awake(), |a| awake.answer(a)).0,
        Err("Expected 'awake', got 'already_awake'".to_string())
    );
    assert_eq!(
        run(ClientTestScenarios::concurrent_wake_is_safe(), |a| awake.answer(a)).0,
        Err("Expected exactly 1 'awake', got 0".to_string())
    );
    let mut asleep = Client { awake: false, closed_status: "closed" };
    assert_eq!(
        run(ClientTestScenarios::wake_is_idempotent(), |a| asleep.answer(a)).0,
        Err("Expected 'already_awake', got 'awake'".to_string())
    );
    let r = run(ClientTestScenarios::health_endpoint_format(), |_| {
        ClientAnswer::Health(Ok(HealthResponse {
            status: "ok".to_string(),
            service: "other".to_string(),
        }))
    });
    assert_eq!(r.0, Err("Expected service 'detrix-client', got 'other'".to_string()));
    let r = run(ClientTestScenarios::status_endpoint_format(), |_| {
        let mut status = Client { awake: false, closed_status: "" }.status();
        status.state = "dreaming".to_string();
        ClientAnswer::Status(Ok(status))
    });
    assert_eq!(r.0, Err("Invalid state: 'dreaming'".to_string()));
    let r = run(ClientTestScenarios::wake_without_daemon_fails(), |_| {
        ClientAnswer::Wake(Ok(WakeResponse {
            status: "awake".to_string(),
            debug_port: 1,
            connection_id: "c".to_string(),
        }))
    });
    assert_eq!(r.0, Err("Wake should fail with unreachable daemon".to_string()));
}

#[test]
fn without_an_answer_nothing_is_reported() {
    let (r, reports) = run(ClientTestScenarios::sleep_is_idempotent(), |_| {
        ClientAnswer::Sleep(Err("gone".to_string()))
    });
    assert_eq!(r, Err("gone".to_string()));
    assert_eq!(reports.len(), 1);
    assert_eq!(ClientCase::SleepIsIdempotent, ClientCase::SleepIsIdempotent);
}

#[test]
fn the_control_plane_is_announced() {
    assert_eq!(control_plane_port("Control plane: http://127.0.0.1:9001"), Some(9001));
    assert_eq!(control_plane_port("Control plane: http://localhost:9002"), Some(9002));
    assert_eq!(control_plane_port("Control plane: http://127.0.0.1:99999"), None);
    assert_eq!(control_plane_port("Listening on 9001"), None);
    assert_eq!(control_url(9000, Endpoint::Wake.path()), "http://127.0.0.1:9000/detrix/wake");
    assert_eq!(wake_body("http://d"), "{\"daemon_url\":\"http://d\"}");
    assert_eq!(Endpoint::Health.parse_error("x"), "Failed to parse health: x");
}

#[test]
fn answers_of_the_control_plane_are_judged() {
    let answered = |success: bool, body: Result<String, String>| HttpOutcome::Answered {
        status: "500 Internal Server Error".to_string(),
        success,
        body,
    };
    assert_eq!(http_get(answered(true, Ok("b".to_string()))), Ok("b".to_string()));
    assert_eq!(
        http_get(answered(false, Ok("b".to_string()))),
        Err("HTTP error: 500 Internal Server Error".to_string())
    );
    assert_eq!(
        http_post(answered(false, Ok("b".to_string()))),
        Err("HTTP error 500 Internal Server Error: b".to_string())
    );
    assert_eq!(
        http_post(answered(false, Err("x".to_string()))),
        Err("HTTP error 500 Internal Server Error: ".to_string())
    );
    assert_eq!(
        http_get(HttpOutcome::NotSent("x".to_string())),
        Err("HTTP request failed: x".to_string())
    );
    assert_eq!(
        http_post(answered(true, Err("x".to_string()))),
        Err("Failed to read response: x".to_string())
    );
}

fn spawn(control_port: u16, mut answer: impl FnMut(&Deed) -> Reply) -> (Result<(), String>, ClientSpawn) {
    let (mut s, mut deed) =
        ClientSpawn::spawn(ClientTestConfig::python(), "/w", "http://d", control_port);
    loop {
        let reply = answer(&deed);
        match s.resume(reply) {
            Move::Do(d) => deed = d,
            Move::Finish(r) => return (r, s),
        }
    }
}

fn plain(deed: &Deed) -> Reply {
    match deed {
        Deed::CheckFile { .. } => Reply::Truth(true),
        Deed::AllocatePort => Reply::Port(8123),
        Deed::CreateLog { .. } | Deed::CloneLog { .. } | Deed::SpawnPiped { .. } => {
            Reply::Outcome(Ok(()))
        }
        Deed::TimeIsUp { .. } => Reply::Truth(false),
        Deed::TryWait => Reply::Text(None),
        Deed::ReadLine => Reply::Line(Ok(None)),
        _ => Reply::Done,
    }
}

#[test]
fn a_client_is_started_and_announces_its_port() {
    let mut lines = vec!["Control plane: http://127.0.0.1:9100", "starting"];
    let (r, s) = spawn(9000, |d| match d {
        Deed::ReadLine => Reply::Line(Ok(lines.pop().map(|l| l.to_string()))),
        Deed::SpawnPiped { command } => {
            assert_eq!(command.program, "uv");
            assert_eq!(
                command.args,
                vec!["run", "python", "/w/fixtures/python/trade_bot_forever.py"]
            );
            assert_eq!(command.dir.as_deref(), Some("/w/clients/python"));
            assert!(command.env.contains(&("PYTHONUNBUFFERED".to_string(), "1".to_string())));
            assert!(command.env.contains(&("DETRIX_CONTROL_PORT".to_string(), "9000".to_string())));
            Reply::Outcome(Ok(()))
        }
        _ => plain(d),
    });
    assert_eq!(r, Ok(()));
    let tester = s.into_tester();
    assert_eq!(tester.control_port(), 9100);
    assert_eq!(tester.log_path(), "/tmp/python_client_e2e_9000.log");
    assert_eq!(tester.daemon_url(), "http://d");
    assert_eq!(tester.process_name(), "python_client");
    assert_eq!(
        tester.print_logs(Some("x"), 3)[0],
        "\n=== PYTHON CLIENT LOG (last 3 lines) ==="
    );
}

#[test]
fn a_client_without_a_port_gets_one() {
    let (r, s) = spawn(0, plain);
    assert_eq!(r, Ok(()));
    assert_eq!(s.control_port, 8123);
}

#[test]
fn what_fails_in_the_start_of_a_client_is_told() {
    let mut checks = 0;
    let (r, _) = spawn(9000, |d| match d {
        Deed::CheckFile { .. } => {
            checks += 1;
            Reply::Truth(checks == 1)
        }
        _ => plain(d),
    });
    assert_eq!(r, Err("Working directory not found at: /w/clients/python".to_string()));
    let (r, _) = spawn(9000, |d| match d {
        Deed::CheckFile { .. } => Reply::Truth(false),
        _ => plain(d),
    });
    assert_eq!(
        r,
        Err("Test fixture not found at: /w/fixtures/python/trade_bot_forever.py".to_string())
    );
    let failing = |which: u8| {
        spawn(9000, move |d| match (d, which) {
            (Deed::CreateLog { .. }, 0) => Reply::Outcome(Err("e".to_string())),
            (Deed::CloneLog { .. }, 1) => Reply::Outcome(Err("e".to_string())),
            (Deed::SpawnPiped { .. }, 2) => Reply::Outcome(Err("e".to_string())),
            (Deed::ReadLine, 3) => Reply::Line(Err("e".to_string())),
            (Deed::ReadLine, _) => Reply::Line(Ok(Some("x".to_string()))),
            (Deed::TimeIsUp { .. }, 4) => Reply::Truth(true),
            (Deed::TryWait, 5) => Reply::Text(Some("exit status: 1".to_string())),
            _ => plain(d),
        })
        .0
        .unwrap_err()
    };
    assert_eq!(failing(0), "Failed to create log: e");
    assert_eq!(failing(1), "Failed to clone log: e");
    assert_eq!(failing(2), "Failed to spawn Python client: e");
    assert_eq!(failing(3), "Failed to read stdout: e");
    assert_eq!(
        failing(4),
        "Python client did not output control plane URL within timeout. Check log: /tmp/python_client_e2e_9000.log"
    );
    assert_eq!(
        failing(5),
        "Python client exited with exit status: 1 before outputting control plane URL. Check log: /tmp/python_client_e2e_9000.log"
    );
}

#[test]
fn a_python_client_is_started_as_a_script() {
    let (mut s, next) = PythonSpawn::spawn("/w/app.py", "http://d", 0);
    assert!(matches!(next, Move::Do(Deed::AllocatePort)));
    s.resume(Reply::Port(9000));
    s.resume(Reply::Outcome(Ok(())));
    match s.resume(Reply::Outcome(Ok(()))) {
        Move::Do(Deed::Spawn { command }) => {
            assert_eq!(command.args, vec!["/w/app.py", "http://d", "9000"]);
        }
        other => panic!("{other:?}"),
    }
    s.resume(Reply::Outcome(Ok(())));
    s.resume(Reply::Done);
    match s.resume(Reply::Truth(false)) {
        Move::Finish(Err(e)) => assert_eq!(
            e,
            "Python client control plane not responding on port 9000 after spawn. Check log: /tmp/python_client_e2e_9000.log"
        ),
        other => panic!("{other:?}"),
    }
    assert_eq!(s.into_tester().print_logs(None, 2)[1], "   (could not read python client log)");
}

#[test]
fn clients_of_other_languages_are_built_first() {
    let go = ClientTestConfig::go();
    assert_eq!(
        go.build_prebuild_args("/w/x"),
        Some((
            "go".to_string(),
            ["build", "-gcflags=all=-N -l", "-o", "detrix_example_app", "."]
                .iter()
                .map(|s| s.to_string())
                .collect()
        ))
    );
    assert_eq!(go.build_spawn_args("/w/x"), ("./detrix_example_app".to_string(), vec![]));
    let rust = ClientTestConfig::rust();
    assert_eq!(rust.env_vars.get("DETRIX_REGISTER_TIMEOUT"), Some("120"));
    let (program, args) = rust.build_prebuild_args("/w/Cargo.toml").unwrap();
    assert_eq!(program, "cargo");
    assert_eq!(args, vec!["build", "--manifest-path", "/w/Cargo.toml", "--features", "client"]);
    assert!(ClientTestConfig::python().build_prebuild_args("/w/x").is_none());
}

/// Runs the full suite on outcomes that are given: the scenarios that were run, how it ended, and
/// how often the header and the footer came.
fn full_suite(
    outcome: fn(usize) -> Result<(), String>,
) -> (Vec<ClientCase>, Result<(), String>, usize, usize) {
    let (mut suite, mut step) = FullSuite::start();
    let mut ran: Vec<ClientCase> = Vec::new();
    let mut headers: usize = 0;
    let mut footers: usize = 0;
    loop {
        if step.header {
            assert!(ran.is_empty());
            headers += 1;
        }
        if step.footer {
            assert!(matches!(step.next, SuiteNext::Finish(Ok(()))));
            footers += 1;
        }
        match step.next {
            SuiteNext::Finish(r) => return (ran, r, headers, footers),
            SuiteNext::Run(case) => {
                step = suite.resume(outcome(ran.len()));
                ran.push(case);
            }
        }
    }
}

#[test]
fn a_suite_that_is_passed_has_a_header_and_a_footer() {
    let (ran, outcome, headers, footers) = full_suite(|_| Ok(()));
    assert_eq!(ran, ClientTestScenarios::run_full_suite());
    assert_eq!(ran.len(), 10);
    assert_eq!(outcome, Ok(()));
    assert_eq!((headers, footers), (1, 1));
}

#[test]
fn a_suite_stops_at_its_first_failure() {
    let fails_from_third = |i: usize| if i >= 2 { Err(format!("case {i}")) } else { Ok(()) };
    let (ran, outcome, headers, footers) = full_suite(fails_from_third);
    assert_eq!(ran, ClientTestScenarios::run_full_suite()[..3].to_vec());
    assert_eq!(outcome, Err("case 2".to_string()));
    assert_eq!((headers, footers), (1, 0));
    let last = |i: usize| if i == 9 { Err("last".to_string()) } else { Ok(()) };
    let (ran, outcome, _, footers) = full_suite(last);
    assert_eq!((ran.len(), footers), (10, 0));
    assert_eq!(outcome, Err("last".to_string()));
}

#[test]
fn questions_are_answered_in_kind() {
    assert!(ClientAsk::Pause { millis: 1 }.answered_by(&ClientAnswer::Done));
    assert!(!ClientAsk::Sleep.answered_by(&ClientAnswer::Done));
    assert!(ClientAsk::WakeAtOnce { count: 0 }.answered_by(&ClientAnswer::Wakes(Vec::new())));
}
