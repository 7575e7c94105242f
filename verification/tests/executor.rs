use detrix_testing::executor::daemon::{
    config_content, kill_daemon_pid, kill_delve, read_pid, read_ports, stop_all, stop_daemon,
    to_toml_path, DaemonStart, KillNext, PidFile, Role, Running, StopStep,
};
use detrix_testing::executor::debuggers::{start_delve_dap, Launch};
use detrix_testing::executor::kills::{kill_process_tree, kill_tracked_children, KillStep};
use detrix_testing::executor::waiting::{wait_for_port, WaitInput, WaitStep};
use detrix_testing::executor::{
    children_command, e2e_pid_dir, find_available_port, find_detrix_binary, fixtures_command,
    get_codelldb_port, get_debugpy_port, get_delve_port, get_grpc_port, get_http_port,
    get_lldb_port, get_target_candidates, init_port_counters, is_orphaned,
    kill_listening_process_on_port, listening_command, no_port_message, orphan_cleanup,
    parent_command, port_is_open, port_probe_command, print_daemon_logs, register_e2e_process,
    take_port, track_child_pids, unregister_e2e_process, DebuggerLanguage, DebuggerLog,
    ExecutorPorts, PortCounters, PortOffer, TestExecutor,
};
use detrix_testing::paths::get_workspace_root;
use detrix_testing::process::{Deed, Move, Reply, RunOutput};

#[test]
fn the_workspace_is_two_levels_up() {
    assert_eq!(get_workspace_root("/w/crates/testing"), "/w");
    assert_eq!(get_workspace_root("/w"), "/w");
    assert_eq!(get_workspace_root("/"), "/");
    assert_eq!(get_workspace_root("a/b"), "");
}

#[test]
fn processes_are_recorded_and_found_again() {
    let record = register_e2e_process("delve", 4242);
    assert_eq!(record.path, "/tmp/detrix_e2e_pids/delve_4242.pid");
    assert_eq!(record.content, "4242\n");
    assert_eq!(unregister_e2e_process("delve", 4242), record.path);
    assert!(record.path.starts_with(e2e_pid_dir()));
    let cleanup = orphan_cleanup(&record.path, Some(&record.content));
    assert!(cleanup.remove);
    assert_eq!(cleanup.pid, Some(4242));
    assert_eq!(
        cleanup.notice,
        "[e2e cleanup] Killing orphaned process 4242 from Some(\"delve_4242.pid\")"
    );
}

#[test]
fn files_that_are_no_records_are_left_alone() {
    let other = orphan_cleanup("/tmp/x/readme.txt", Some("7"));
    assert!(!other.remove);
    assert_eq!(other.pid, None);
    let broken = orphan_cleanup("/tmp/x/a.pid", Some("seven"));
    assert!(broken.remove);
    assert_eq!(broken.pid, None);
    assert!(orphan_cleanup("/tmp/x/a.pid", None).remove);
}

#[test]
fn binaries_are_looked_for_in_order() {
    let dirs = get_target_candidates(Some("/t"), Some("/home/me"), "/w");
    assert_eq!(dirs, vec!["/t", "/home/me/detrix/target", "/w/target"]);
    assert_eq!(get_target_candidates(None, None, "/w"), vec!["/w/target"]);
    let places = find_detrix_binary(Some("/bin/detrix"), &dirs);
    assert_eq!(places.len(), 7);
    assert_eq!(places[0], "/bin/detrix");
    assert_eq!(places[1], "/t/release/detrix");
    assert_eq!(places[3], "/w/target/release/detrix");
    assert_eq!(places[4], "/t/debug/detrix");
}

#[test]
fn an_absolute_path_replaces_the_one_it_is_joined_to() {
    assert_eq!(unregister_e2e_process("daemon", 7), "/tmp/detrix_e2e_pids/daemon_7.pid");
    assert_eq!(unregister_e2e_process("/run/daemon", 7), "/run/daemon_7.pid");
    assert_eq!(get_target_candidates(None, None, "/w/"), vec!["/w/target"]);
}

#[test]
fn ports_of_a_run_are_shifted_together() {
    let mut c = init_port_counters(3, Some(5));
    assert_eq!((c.http, c.grpc, c.debugpy), (8150, 50150, 5150));
    assert_eq!((c.delve, c.lldb, c.codelldb), (7250, 7750, 8250));
    assert_eq!(init_port_counters(1, None).http, 8000 + 3450);
    assert_eq!(init_port_counters(u32::MAX, Some(u64::MAX)).http % 10, 0);
    assert_eq!(get_http_port(&mut c).ports[0], 8150);
    assert_eq!(get_http_port(&mut c).ports[0], 8160);
    assert_eq!(get_grpc_port(&mut c).ports[0], 50150);
    assert_eq!(get_debugpy_port(&mut c).ports[0], 5150);
    assert_eq!(get_delve_port(&mut c).ports[0], 7250);
    assert_eq!(get_lldb_port(&mut c).ports[0], 7750);
    assert_eq!(get_codelldb_port(&mut c).ports[0], 8250);
}

/// Gives out the first of the ports on offer that is free.
fn take(c: &mut PortCounters, offer: PortOffer, free: fn(u16) -> bool) -> Result<u16, String> {
    let bindable: Vec<bool> = offer.ports.iter().map(|p| free(*p)).collect();
    take_port(c, &offer, &bindable)
}

#[test]
fn a_port_is_given_out_once() {
    // 8150 to 8159 are busy, so that two calls in a row come to the same ports.
    let free = |p: u16| !(8150..8160).contains(&p);
    let mut c = init_port_counters(3, Some(5));
    let mut given: Vec<u16> = Vec::new();
    for i in 0..4 {
        let offer = get_http_port(&mut c);
        assert_eq!(offer.base, 8150 + 10 * i);
        assert!(given.iter().all(|p| !offer.ports.contains(p)));
        let port = take(&mut c, offer, free).unwrap();
        assert!(!given.contains(&port));
        given.push(port);
    }
    assert_eq!(given, vec![8160, 8161, 8170, 8180]);
    assert_eq!(c.given, given);
    // A port that was given out since the offer was made is passed over.
    let early = get_delve_port(&mut c);
    let late = PortOffer { base: early.base, ports: early.ports.clone() };
    assert_eq!(take(&mut c, early, |_| true), Ok(7250));
    assert_eq!(take(&mut c, late, |_| true), Ok(7251));
}

#[test]
fn where_no_port_is_free_the_message_names_the_base() {
    let mut c = init_port_counters(3, Some(5));
    let offer = get_http_port(&mut c);
    assert_eq!(
        take(&mut c, offer, |_| false).unwrap_err(),
        "Could not find available port in range 8150-8250. Ports may be exhausted or blocked by firewall. Try closing other applications or restarting."
    );
    assert!(c.given.is_empty());
}

#[test]
fn reserved_ports_are_not_tried() {
    let ports = find_available_port(6999, 10);
    assert_eq!(ports.len(), 99);
    assert_eq!(ports[0], 6999);
    assert_eq!(ports[1], 7001);
    assert_eq!(find_available_port(20000, 200).len(), 100);
    assert_eq!(find_available_port(20000, 200)[99], 20099);
    assert_eq!(find_available_port(65530, 10)[99], 65535);
    assert_eq!(
        no_port_message(65530),
        "Could not find available port in range 65530-65535. Ports may be exhausted or blocked by firewall. Try closing other applications or restarting."
    );
}

#[test]
fn only_test_processes_on_a_port_are_killed() {
    let output = "COMMAND PID USER\nPython 101 me\nnginx 102 root\ndlv 103 me\nlldb-dap x me\ndetrix 104 me\nshort\n";
    assert_eq!(kill_listening_process_on_port(output, None), vec![101, 103, 104]);
    assert_eq!(kill_listening_process_on_port(output, Some(103)), vec![101, 104]);
    assert!(kill_listening_process_on_port("python 1 me", None).is_empty());
    assert_eq!(listening_command(80).args, vec!["-sTCP:LISTEN", "-i", "TCP:80"]);
    assert_eq!(port_probe_command(80).args, vec!["-i", ":80", "-sTCP:LISTEN"]);
    assert!(port_is_open(true, "x"));
    assert!(!port_is_open(true, ""));
    assert!(!port_is_open(false, "x"));
}

#[test]
fn children_and_orphans_are_read_from_listings() {
    assert_eq!(track_child_pids("12\n 34 \nx\n"), vec![12, 34]);
    assert!(is_orphaned("    1\n"));
    assert!(!is_orphaned("2"));
    assert!(!is_orphaned(""));
}

fn executor() -> TestExecutor {
    TestExecutor::new(
        "/w",
        "/tmp/t",
        ExecutorPorts { http: 1, grpc: 2, debugpy: 3, delve: 4, lldb: 5, codelldb: 6 },
    )
}

#[test]
fn an_executor_knows_its_places() {
    let mut e = executor();
    assert_eq!(e.debugger_port(DebuggerLanguage::Python), 3);
    assert_eq!(e.debugger_port(DebuggerLanguage::Go), 4);
    assert_eq!(e.debugger_port(DebuggerLanguage::Rust), 5);
    assert_eq!(e.detrix_example_app_path(), "/w/fixtures/python/detrix_example_app.py");
    assert_eq!(e.go_detrix_example_app_path(), "/w/fixtures/go/detrix_example_app.go");
    assert_eq!(e.rust_detrix_example_app_path(), "/w/fixtures/rust/src/main.rs");
    e.track("1\n2");
    e.track("3");
    assert_eq!(e.take_tracked(), vec![1, 2, 3]);
    assert!(e.take_tracked().is_empty());
}

#[test]
fn logs_show_their_end() {
    let e = executor();
    assert_eq!(
        e.print_debugpy_logs(Some("a\nb\nc"), 2),
        vec![
            "\n=== DEBUGPY LOG (last 2 lines) ===",
            "b",
            "c",
            "=================================\n",
        ]
    );
    assert_eq!(e.print_codelldb_logs(None, 5)[1], "   (could not read codelldb log)");
    assert_eq!(e.print_lldb_logs(None, 5)[0], "\n=== LLDB-DAP LOG (last 5 lines) ===");
    assert_eq!(e.print_delve_logs(Some(""), 5).len(), 2);
    assert_eq!(DebuggerLog::Lldb.log_path(7), "/tmp/lldb_dap_e2e_7.log");
    let many: Vec<String> = (0..40).map(|i| format!("l{i}")).collect();
    let lines = print_daemon_logs("/w", Some(&many.join("\n")), 1);
    assert_eq!(lines.len(), 2 + 30 + 1 + 1 + 1 + 1);
    assert_eq!(lines[2], "l0");
    assert_eq!(lines[33], "l39");
    assert_eq!(lines[34], "--- Log copied to: /w/logs/daemon_test.log ---");
    assert_eq!(print_daemon_logs("/w", None, 1)[1], "   (could not read daemon log)");
}

#[test]
fn the_configuration_names_places_and_ports() {
    let text = config_content("/w", "/d/db", "/d/pid", true, "127.0.0.1", 80, 90);
    assert!(text.starts_with("\n[metadata]\nversion = \"1.0\"\n\n[project]\nbase_path = \"/w\"\n"));
    assert!(text.contains("\n[api]\nport_fallback = true\n"));
    assert!(text.contains("[api.rest]\nenabled = true\nhost = \"127.0.0.1\"\nport = 80\n"));
    assert!(text.ends_with("port = 90\n\n[safety]\nenable_ast_analysis = false\n"));
    assert_eq!(to_toml_path("C:\\a\\b", true), "C:/a/b");
    assert_eq!(to_toml_path("C:\\a\\b", false), "C:\\a\\b");
}

#[test]
fn a_pid_file_names_its_process_and_both_ports() {
    let text = "{\"pid\":12345,\"ports\":{\"http\":8080,\"grpc\":50051}}";
    assert_eq!(read_pid(text), Some(12345));
    assert_eq!(read_ports(text), Some((8080, 50051)));
    assert_eq!(read_ports("{\"pid\":1,\"ports\":{\"http\":8080}}"), None);
    assert_eq!(read_ports("{\"pid\":1}"), None);
    assert_eq!(read_pid("{}"), None);
    assert_eq!(read_pid("12345"), None);
    assert_eq!(read_pid("nonsense"), None);
    assert_eq!(read_ports("{\"ports\":{\"http\":65616,\"grpc\":1}}"), Some((80, 1)));
}

fn done(r: Move) -> Result<(), String> {
    match r {
        Move::Finish(r) => r,
        Move::Do(d) => panic!("{d:?}"),
    }
}

/// Runs a start of the daemon, with the replies of an ordinary machine.
fn start_daemon(pid_file: Option<&str>, up: fn(u16) -> bool) -> (Result<(), String>, DaemonStart, Vec<String>) {
    let (mut start, mut deed) = DaemonStart::start_daemon("/w", "/t", 80, 90, 100, false);
    let mut said = Vec::new();
    let mut polls = 0;
    loop {
        let reply = match &deed {
            Deed::WriteFile { path, content } => {
                assert_eq!(path, "/t/detrix.toml");
                assert!(content.contains("pid_file = \"/t/daemon.pid\""));
                Reply::Outcome(Ok(()))
            }
            Deed::FindBinary => Reply::Text(Some("/bin/detrix".to_string())),
            Deed::ModifiedTime { .. } => Reply::Seconds(Some(0)),
            Deed::CreateLog { .. } => Reply::Outcome(Ok(())),
            Deed::Spawn { command } => {
                assert_eq!(
                    command.args,
                    vec!["serve", "--config", "/t/detrix.toml", "--daemon", "--pid-file", "/t/daemon.pid"]
                );
                Reply::Outcome(Ok(()))
            }
            Deed::TimeIsUp { .. } => {
                polls += 1;
                Reply::Truth(polls > 3)
            }
            Deed::CheckFile { .. } => Reply::Truth(pid_file.is_some()),
            Deed::ReadFile { .. } => Reply::Text(pid_file.map(|s| s.to_string())),
            Deed::WaitPort { port, .. } => Reply::Truth(up(*port)),
            _ => Reply::Done,
        };
        let step = start.resume(reply);
        said.extend(step.printed);
        said.extend(step.warned);
        match step.next {
            Move::Do(d) => deed = d,
            Move::Finish(r) => return (r, start, said),
        }
    }
}

#[test]
fn a_daemon_starts_on_the_ports_of_its_pid_file() {
    let (r, start, said) =
        start_daemon(Some("{\"pid\":7,\"ports\":{\"http\":81,\"grpc\":91}}"), |_| true);
    assert_eq!(r, Ok(()));
    assert_eq!((start.http_port, start.grpc_port), (81, 91));
    assert_eq!(
        said,
        vec![
            "=== DAEMON BINARY INFO ===",
            "  Path: /bin/detrix",
            "  Build time: 1970-01-01 00:00:00 UTC",
            "==========================",
        ]
    );
}

#[test]
fn a_daemon_without_ports_falls_back_to_those_it_was_given() {
    let (r, start, said) = start_daemon(None, |_| true);
    assert_eq!(r, Ok(()));
    assert_eq!((start.http_port, start.grpc_port), (80, 90));
    assert_eq!(
        said.last().unwrap(),
        "Warning: PID file ports not found within timeout, using fallback ports: http=80, grpc=90"
    );
}

#[test]
fn a_daemon_that_does_not_listen_has_not_started() {
    let file = "{\"pid\":7,\"ports\":{\"http\":81,\"grpc\":91}}";
    assert_eq!(
        start_daemon(Some(file), |p| p != 81).0,
        Err("Daemon HTTP not responding on port 81".to_string())
    );
    assert_eq!(
        start_daemon(Some(file), |p| p != 91).0,
        Err("Daemon gRPC not responding on port 91".to_string())
    );
}

#[test]
fn what_fails_in_a_start_is_told() {
    let begin = || DaemonStart::start_daemon("/w", "/t", 80, 90, 100, false).0;
    let mut s = begin();
    assert_eq!(done(s.resume(Reply::Outcome(Err("full".to_string()))).next), Err("full".to_string()));
    let mut s = begin();
    s.resume(Reply::Outcome(Ok(())));
    assert_eq!(
        done(s.resume(Reply::Text(None)).next),
        Err("detrix binary not found. Set DETRIX_BIN env var or run `cargo build -p detrix-cli`".to_string())
    );
    let mut s = begin();
    s.resume(Reply::Outcome(Ok(())));
    s.resume(Reply::Text(Some("b".to_string())));
    let step = s.resume(Reply::Seconds(None));
    assert_eq!(step.printed[2], "  Build time: unknown");
    s.resume(Reply::Outcome(Ok(())));
    assert_eq!(
        done(s.resume(Reply::Outcome(Err("denied".to_string()))).next),
        Err("Could not spawn daemon: denied".to_string())
    );
}

#[test]
fn everything_that_runs_is_stopped() {
    let running = Running {
        spawner: true,
        debugpy: Some(1),
        delve: Some((2, true)),
        lldb: Some(3),
        codelldb: Some(4),
    };
    let file = Some(PidFile { path: "/t/pid".to_string(), content: Some("{\"pid\":9}".to_string()) });
    let steps = stop_all(&running, &file);
    let killed = |role: Role| steps.iter().any(|s| matches!(s, StopStep::Kill(r) if *r == role));
    assert!(killed(Role::DaemonSpawner));
    assert!(killed(Role::Debugpy));
    assert!(killed(Role::Delve));
    assert!(killed(Role::Lldb));
    assert!(killed(Role::CodeLldb));
    assert!(steps.iter().any(|s| matches!(s, StopStep::KillDaemon(9))));
    let removed: Vec<&String> = steps
        .iter()
        .filter_map(|s| match s {
            StopStep::RemoveFile(p) => Some(p),
            _ => None,
        })
        .collect();
    assert_eq!(
        removed,
        vec![
            "/tmp/detrix_e2e_pids/daemon_9.pid",
            "/t/pid",
            "/tmp/detrix_e2e_pids/debugpy_1.pid",
            "/tmp/detrix_e2e_pids/delve_2.pid",
            "/tmp/detrix_e2e_pids/lldb_3.pid",
            "/tmp/detrix_e2e_pids/codelldb_4.pid",
        ]
    );
    let nothing = Running { spawner: false, debugpy: None, delve: None, lldb: None, codelldb: None };
    assert!(stop_all(&nothing, &None).is_empty());
    assert_eq!(stop_daemon(true, &file).len(), 3);
    // A delve that has ended is only forgotten.
    assert_eq!(kill_delve(Some((2, false))).len(), 1);
}

#[test]
fn a_daemon_is_killed_if_it_does_not_end() {
    assert_eq!(kill_daemon_pid(0, true), KillNext::Poll);
    assert_eq!(kill_daemon_pid(1, false), KillNext::Poll);
    assert_eq!(kill_daemon_pid(1, true), KillNext::Nothing);
    assert_eq!(kill_daemon_pid(2, false), KillNext::Kill);
    assert_eq!(kill_daemon_pid(2, true), KillNext::Nothing);
}

/// Runs a start of a debugger; `answer` answers what is asked.
fn launch(begun: (Launch, Deed), answer: fn(&Deed) -> Reply) -> (Result<(), String>, Launch, Vec<Deed>) {
    let (mut launch, mut deed) = begun;
    let mut deeds = Vec::new();
    loop {
        let reply = answer(&deed);
        deeds.push(deed);
        match launch.resume(reply).next {
            Move::Do(d) => deed = d,
            Move::Finish(r) => return (r, launch, deeds),
        }
    }
}

fn good(deed: &Deed) -> Reply {
    match deed {
        Deed::CheckPort { .. } | Deed::CheckFile { .. } | Deed::WaitPort { .. } => Reply::Truth(true),
        Deed::Run { .. } => Reply::Ran(Ok(RunOutput {
            success: true,
            stdout: String::new(),
            stderr: String::new(),
        })),
        Deed::FindBinary => Reply::Text(Some("/bin/detrix".to_string())),
        Deed::FindAdapter => Reply::Text(Some("/bin/codelldb".to_string())),
        Deed::Spawn { .. } => Reply::Outcome(Ok(())),
        _ => Reply::Done,
    }
}

fn spawned(deeds: &[Deed]) -> Vec<String> {
    deeds
        .iter()
        .find_map(|d| match d {
            Deed::Spawn { command } => {
                let mut words = vec![command.program.clone()];
                words.extend(command.args.clone());
                Some(words)
            }
            _ => None,
        })
        .unwrap()
}

#[test]
fn debuggers_are_started_with_their_commands() {
    let (r, _, deeds) = launch(Launch::start_debugpy(7, "bot.py"), good);
    assert_eq!(r, Ok(()));
    assert_eq!(
        spawned(&deeds),
        vec![
            "python", "-Xfrozen_modules=off", "-m", "debugpy", "--listen", "7", "--wait-for-client",
            "bot.py"
        ]
    );
    let (r, _, deeds) = launch(Launch::start_delve(7, "/w/go/bot.go"), good);
    assert_eq!(r, Ok(()));
    assert_eq!(
        spawned(&deeds),
        vec![
            "dlv", "exec", "/w/go/bot", "--headless", "--listen=:7", "--api-version=2",
            "--accept-multiclient"
        ]
    );
    let (r, l, deeds) = launch(Launch::start_lldb(7, "/w/rust/src/main.rs", None), good);
    assert_eq!(r, Ok(()));
    assert_eq!(l.built, Some(Ok("/w/rust/target/debug/detrix_example_app".to_string())));
    assert_eq!(
        spawned(&deeds),
        vec![
            "/bin/detrix", "lldb-serve", "/w/rust/target/debug/detrix_example_app", "--listen",
            "127.0.0.1:7"
        ]
    );
    let (r, _, deeds) = launch(Launch::start_codelldb(7, "/w/rust/src/main.rs", None), good);
    assert_eq!(r, Ok(()));
    assert_eq!(spawned(&deeds)[5..], ["--lldb-dap-path", "/bin/codelldb"]);
    assert_eq!(start_delve_dap(7, "/w/go/bot").dir.as_deref(), Some("/w/go"));
}

#[test]
fn a_fixture_that_was_built_is_not_built_again() {
    let built = Some(Ok("/w/bin".to_string()));
    let (r, _, deeds) = launch(Launch::start_lldb(7, "/w/rust/src/main.rs", built), good);
    assert_eq!(r, Ok(()));
    assert!(!deeds.iter().any(|d| matches!(d, Deed::Run { .. })));
    let built = Some(Err("Rust build failed: x".to_string()));
    let (r, _, _) = launch(Launch::start_lldb(7, "/w/rust/src/main.rs", built), good);
    assert_eq!(r, Err("Rust build failed: x".to_string()));
}

#[test]
fn what_fails_in_a_launch_is_told() {
    let busy = |d: &Deed| match d {
        Deed::CheckPort { .. } => Reply::Truth(false),
        _ => good(d),
    };
    assert_eq!(
        launch(Launch::start_debugpy(7, "b"), busy).0,
        Err("Port 7 is still in use after cleanup".to_string())
    );
    assert_eq!(
        launch(Launch::restart_delve(7, "b"), busy).0,
        Err("Port 7 still in use after cleanup".to_string())
    );
    let deaf = |d: &Deed| match d {
        Deed::WaitPort { .. } => Reply::Truth(false),
        _ => good(d),
    };
    assert_eq!(
        launch(Launch::start_delve(7, "/w/b.go"), deaf).0,
        Err("delve not listening on port 7 after spawn".to_string())
    );
    assert_eq!(
        launch(Launch::restart_lldb(7, "/w/b"), deaf).0,
        Err("lldb-serve not listening on port 7 after restart".to_string())
    );
    assert_eq!(
        launch(Launch::start_codelldb(7, "/w/r/src/main.rs", None), deaf).0,
        Err("lldb-serve (CodeLLDB) not listening on port 7 after spawn".to_string())
    );
    let broken = |d: &Deed| match d {
        Deed::Run { .. } => Reply::Ran(Ok(RunOutput {
            success: false,
            stdout: String::new(),
            stderr: "syntax".to_string(),
        })),
        _ => good(d),
    };
    assert_eq!(
        launch(Launch::start_delve(7, "/w/b.go"), broken).0,
        Err("Go build failed: syntax".to_string())
    );
    let (r, l, _) = launch(Launch::start_lldb(7, "/w/r/src/main.rs", None), broken);
    assert_eq!(r, Err("Rust build failed: syntax".to_string()));
    assert_eq!(l.built, Some(Err("Rust build failed: syntax".to_string())));
    let absent = |d: &Deed| match d {
        Deed::CheckFile { .. } => Reply::Truth(false),
        _ => good(d),
    };
    assert_eq!(
        launch(Launch::start_lldb(7, "/w/r/src/main.rs", None), absent).0,
        Err("Rust build succeeded but binary not found at \"/w/r/target/debug/detrix_example_app\". Stdout: ".to_string())
    );
    let unspawned = |d: &Deed| match d {
        Deed::Spawn { .. } => Reply::Outcome(Err("denied".to_string())),
        _ => good(d),
    };
    assert_eq!(
        launch(Launch::start_codelldb(7, "/w/r/src/main.rs", None), unspawned).0,
        Err("Could not spawn CodeLLDB: denied".to_string())
    );
    assert_eq!(
        launch(Launch::restart_lldb(7, "b"), unspawned).0,
        Err("Failed to restart lldb-serve: denied".to_string())
    );
    assert_eq!(
        launch(Launch::start_delve(7, "/"), good).0,
        Err("Invalid source path".to_string())
    );
    assert_eq!(
        launch(Launch::start_delve(7, "/a/.."), good).0,
        Err("Invalid file name".to_string())
    );
    let lost = |d: &Deed| match d {
        Deed::FindBinary => Reply::Text(None),
        _ => good(d),
    };
    assert_eq!(
        launch(Launch::restart_lldb(7, "b"), lost).0,
        Err("Failed to find detrix binary".to_string())
    );
}

#[test]
fn trees_of_processes_are_ended() {
    let steps = kill_process_tree(7, 100);
    assert!(matches!(steps[0], KillStep::Terminate(-7)));
    assert!(matches!(steps[1], KillStep::Pause { millis: 100 }));
    assert!(matches!(&steps[2], KillStep::Run { command } if command.args == ["-TERM", "-P", "7"]));
    assert!(matches!(steps[4], KillStep::Kill(-7)));
    assert!(matches!(&steps[5], KillStep::Run { command } if command.args == ["-KILL", "-P", "7"]));
    assert!(matches!(kill_process_tree(u32::MAX, 1)[0], KillStep::Terminate(1)));
    let steps = kill_tracked_children(&vec![3, 4], 100);
    assert_eq!(steps.len(), 5);
    assert!(matches!(steps[1], KillStep::Terminate(4)));
    assert!(matches!(steps[3], KillStep::Kill(3)));
    assert_eq!(children_command(7).args, vec!["-P", "7"]);
    assert_eq!(parent_command(7).args, vec!["-o", "ppid=", "-p", "7"]);
    assert_eq!(fixtures_command().args, vec!["-f", "detrix_example_app"]);
}

#[test]
fn a_port_is_waited_for() {
    let ran = |success: bool, stdout: &str| WaitInput::Probed {
        outcome: Ok(RunOutput {
            success,
            stdout: stdout.to_string(),
            stderr: String::new(),
        }),
    };
    let (mut wait, step) = wait_for_port(8080, 5);
    assert!(matches!(step, WaitStep::CheckTime { secs: 5 }));
    assert!(!wait.accepts(&WaitInput::Paused));
    match wait.resume(WaitInput::Time { is_up: false }) {
        WaitStep::Probe { command } => {
            assert_eq!(command.program, "lsof");
            assert_eq!(command.args, ["-i", ":8080", "-sTCP:LISTEN"]);
        }
        other => panic!("{:?}", other),
    }
    assert!(matches!(wait.resume(ran(true, "")), WaitStep::Pause { millis: 200 }));
    assert!(matches!(wait.resume(WaitInput::Paused), WaitStep::CheckTime { secs: 5 }));
    wait.resume(WaitInput::Time { is_up: false });
    assert!(matches!(wait.resume(ran(true, "detrix 42")), WaitStep::Over { open: true }));

    let (mut wait, _) = wait_for_port(8080, 0);
    assert!(matches!(
        wait.resume(WaitInput::Time { is_up: true }),
        WaitStep::Over { open: false }
    ));
}
