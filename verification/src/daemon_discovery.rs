//! Tests of how a running daemon is found: by its PID file, or else by its ports.
//!
//! A test is a list of steps. A step is performed from the outside where it is about processes
//! and files; what came of it is judged here.

use vstd::prelude::*;

use crate::executor::daemon::{
    config_content, daemon_config, make_serve_command, pid_in, read_pid, serve_command,
};
use crate::json::{
    json_of_text, json_to_text, number_view, parse_json, parse_view, text_of_json, Json, JsonObject,
    JsonView,
};
use crate::paths::{debug_path, format_path, join_path, path_joined};
use crate::process::{
    fail, fails, no_words, put_word, succeed, succeeds, CommandLine, CommandView, Deed, DeedView,
    Move, MoveView, Reply, ReplyView,
};
use crate::text::{
    cat2, cat3, contains, decimal, first_chars, has_text, num, opt_view, take_chars, views,
};

pub mod laws;

verus! {

// ---------------------------------------------------------------------------
// The harness
// ---------------------------------------------------------------------------

/// The daemon under test: its binary, its places and its ports.
#[derive(Debug)]
pub struct DaemonDiscoveryTests {
    pub temp_dir: String,
    pub binary_path: String,
    pub workspace_root: String,
    /// The address that the daemon listens on.
    pub host: String,
    pub http_port: u16,
    pub grpc_port: u16,
    /// The process of the daemon, while it runs.
    pub daemon_pid: Option<u32>,
}

/// The mathematical counterpart of [`DaemonDiscoveryTests`].
pub struct HarnessView {
    pub temp_dir: Seq<char>,
    pub binary_path: Seq<char>,
    pub workspace_root: Seq<char>,
    pub host: Seq<char>,
    pub http_port: u16,
    pub grpc_port: u16,
    pub daemon_pid: Option<u32>,
}

impl View for DaemonDiscoveryTests {
    type V = HarnessView;

    open spec fn view(&self) -> HarnessView {
        HarnessView {
            temp_dir: self.temp_dir@,
            binary_path: self.binary_path@,
            workspace_root: self.workspace_root@,
            host: self.host@,
            http_port: self.http_port,
            grpc_port: self.grpc_port,
            daemon_pid: self.daemon_pid,
        }
    }
}

impl HarnessView {
    /// Where the PID file is.
    pub open spec fn pid_path(self) -> Seq<char> {
        path_joined(self.temp_dir, "daemon.pid"@)
    }

    /// Where the configuration is.
    pub open spec fn config_path(self) -> Seq<char> {
        path_joined(self.temp_dir, "detrix.toml"@)
    }

    /// Where the log is.
    pub open spec fn log_path(self) -> Seq<char> {
        path_joined(self.temp_dir, "daemon.log"@)
    }

    /// The configuration.
    pub open spec fn config(self) -> Seq<char> {
        daemon_config(
            self.workspace_root,
            path_joined(self.temp_dir, "detrix.db"@),
            self.pid_path(),
            false,
            self.host,
            self.http_port,
            self.grpc_port,
        )
    }

    /// The command that starts the daemon.
    pub open spec fn serve(self) -> CommandView {
        serve_command(
            self.binary_path,
            self.config_path(),
            self.pid_path(),
            self.workspace_root,
            "warn"@,
            self.log_path(),
        )
    }

    /// The command that asks for the status of the daemon.
    pub open spec fn status_command(self) -> CommandView {
        CommandView {
            program: self.binary_path,
            args: seq!["status"@, "--config"@, self.config_path(), "--format"@, "json"@],
            dir: None,
            env: seq![("RUST_LOG"@, "warn"@)],
            log: None,
        }
    }

    /// The command that asks for the status of the daemon on a port.
    pub open spec fn override_command(self) -> CommandView {
        CommandView {
            program: self.binary_path,
            args: seq!["status"@, "--format"@, "json"@],
            dir: None,
            env: seq![
                ("DETRIX_GRPC_PORT_OVERRIDE"@, decimal(self.grpc_port as nat)),
                ("RUST_LOG"@, "warn"@),
            ],
            log: None,
        }
    }
}

/// What a PID file says.
pub open spec fn pid_file_json(pid: Option<u32>, http: u16, grpc: u16, host: Seq<char>) -> JsonView {
    JsonView::Object(
        seq![
            (
                "pid"@,
                match pid {
                    Some(p) => number_view(p as int),
                    None => JsonView::Null,
                },
            ),
            (
                "ports"@,
                JsonView::Object(
                    seq![("http"@, number_view(http as int)), ("grpc"@, number_view(grpc as int))],
                ),
            ),
            ("host"@, JsonView::Str(host)),
        ],
    )
}

/// What a PID file says.
pub fn pid_file_value(pid: Option<u32>, http: u16, grpc: u16, host: &str) -> (r: Json)
    ensures
        r@ == pid_file_json(pid, http, grpc, host@),
{
    let mut ports = JsonObject::new();
    ports.put("http", Json::unsigned(http as u64));
    ports.put("grpc", Json::unsigned(grpc as u64));
    assert(ports@ =~= seq![
        ("http"@, number_view(http as int)),
        ("grpc"@, number_view(grpc as int)),
    ]);
    let mut o = JsonObject::new();
    match pid {
        Some(p) => o.put("pid", Json::unsigned(p as u64)),
        None => o.put("pid", Json::Null),
    }
    o.put("ports", ports.finish());
    o.put_str("host", host);
    assert(o@ =~= pid_file_json(pid, http, grpc, host@)->Object_0);
    o.finish()
}

// ---------------------------------------------------------------------------
// The status
// ---------------------------------------------------------------------------

/// What the command that asks for the status found.
#[derive(Debug)]
pub enum CliStatusResult {
    Found { state: String, output: String },
    NotFound { error: String },
}

/// The mathematical counterpart of [`CliStatusResult`].
pub enum StatusView {
    Found { state: Seq<char>, output: Seq<char> },
    NotFound { error: Seq<char> },
}

impl View for CliStatusResult {
    type V = StatusView;

    open spec fn view(&self) -> StatusView {
        match self {
            CliStatusResult::Found { state, output } => StatusView::Found {
                state: state@,
                output: output@,
            },
            CliStatusResult::NotFound { error } => StatusView::NotFound { error: error@ },
        }
    }
}

/// The state that the output of the command tells.
pub open spec fn told_state(info: Result<JsonView, Seq<char>>) -> Seq<char> {
    match info {
        Ok(j) => j.str_field_or("state"@, "unknown"@),
        Err(_) => "unknown"@,
    }
}

/// The state that the output of the command tells, given the output as JSON or why it is none.
pub fn state_of(info: &Result<Json, String>) -> (r: String)
    ensures
        r@ == told_state(parse_view(*info)),
{
    match info {
        Ok(j) => j.get_str_or("state", "unknown"),
        Err(_) => "unknown".to_owned(),
    }
}

/// What the command found, by how it ended and what it printed.
pub open spec fn status_found(success: bool, stdout: Seq<char>, stderr: Seq<char>) -> StatusView {
    if success {
        StatusView::Found { state: told_state(json_of_text(stdout)), output: stdout }
    } else {
        StatusView::NotFound { error: stderr }
    }
}

/// What the command that asks for the status found, by how it ended and what it printed.
pub fn cli_status(success: bool, stdout: &str, stderr: &str) -> (r: CliStatusResult)
    ensures
        r@ == status_found(success, stdout@, stderr@),
{
    if success {
        let info: Result<Json, String> = parse_json(stdout);
        CliStatusResult::Found { state: state_of(&info), output: stdout.to_owned() }
    } else {
        CliStatusResult::NotFound { error: stderr.to_owned() }
    }
}

// ---------------------------------------------------------------------------
// Steps
// ---------------------------------------------------------------------------

/// How what the status command found is judged.
#[derive(Debug, Clone, Copy, PartialEq, Eq, Structural)]
pub enum Judgement {
    /// The daemon has to be found by its PID file.
    ByPidFile,
    /// The daemon has to be found although its PID file is corrupted.
    DespiteCorruption,
    /// The daemon has to be found although it has no PID file.
    WithoutPidFile,
    /// No daemon may be found.
    NotRunning,
    /// The daemon may be found or not.
    Either,
}

/// A step of a test.
#[derive(Debug)]
pub enum DiscoveryStep {
    /// Print a line.
    Say(String),
    /// Start the daemon.
    Start,
    /// Print a line that names the process of the daemon, between two texts.
    SayPid(String, String),
    /// The port for gRPC has to be open, or has not to be; the test panics with a message where
    /// it is not so.
    NeedPort { open: bool, message: String },
    /// The PID file has to exist, or has not to; the test panics with a message where it is not
    /// so.
    NeedPidFile { exists: bool, message: String },
    /// Write a PID file; without a process, it names that of the daemon.
    WritePidFile { pid: Option<u32>, http: u16, grpc: u16 },
    DeletePidFile,
    /// Ask for the status, and judge what was found.
    Status(Judgement),
    /// Ask for the status on the port; the daemon has to be found.
    StatusOverride,
    /// Stop the daemon.
    Stop,
}

/// The mathematical counterpart of [`DiscoveryStep`].
pub enum StepView {
    Say(Seq<char>),
    Start,
    SayPid(Seq<char>, Seq<char>),
    NeedPort { open: bool, message: Seq<char> },
    NeedPidFile { exists: bool, message: Seq<char> },
    WritePidFile { pid: Option<u32>, http: u16, grpc: u16 },
    DeletePidFile,
    Status(Judgement),
    StatusOverride,
    Stop,
}

impl View for DiscoveryStep {
    type V = StepView;

    open spec fn view(&self) -> StepView {
        match self {
            DiscoveryStep::Say(line) => StepView::Say(line@),
            DiscoveryStep::Start => StepView::Start,
            DiscoveryStep::SayPid(a, b) => StepView::SayPid(a@, b@),
            DiscoveryStep::NeedPort { open, message } => StepView::NeedPort {
                open: *open,
                message: message@,
            },
            DiscoveryStep::NeedPidFile { exists, message } => StepView::NeedPidFile {
                exists: *exists,
                message: message@,
            },
            DiscoveryStep::WritePidFile { pid, http, grpc } => StepView::WritePidFile {
                pid: *pid,
                http: *http,
                grpc: *grpc,
            },
            DiscoveryStep::DeletePidFile => StepView::DeletePidFile,
            DiscoveryStep::Status(j) => StepView::Status(*j),
            DiscoveryStep::StatusOverride => StepView::StatusOverride,
            DiscoveryStep::Stop => StepView::Stop,
        }
    }
}

/// The steps of a list.
pub open spec fn step_views(steps: Seq<DiscoveryStep>) -> Seq<StepView> {
    steps.map_values(|s: DiscoveryStep| s@)
}

/// What is said about a status, and whether the test goes on.
pub open spec fn judged(judgement: Judgement, status: StatusView) -> Result<Seq<Seq<char>>, Seq<char>> {
    let said = Seq::<Seq<char>>::empty();
    match judgement {
        Judgement::ByPidFile => match status {
            StatusView::Found { state, .. } => Ok(
                said.push("  ✓ Daemon found via PID file, state: "@ + state),
            ),
            StatusView::NotFound { error } => Err(
                "Expected to find daemon via PID file: "@ + error,
            ),
        },
        Judgement::DespiteCorruption => match status {
            StatusView::Found { state, output } => {
                let first = said.push("  ✓ Daemon found (likely via port probe), state: "@ + state);
                Ok(
                    if has_text(output, "port"@) || has_text(output, "probe"@) {
                        first.push("  ✓ Output mentions port probe as expected"@)
                    } else {
                        first
                    },
                )
            },
            StatusView::NotFound { error } => Err(
                "Expected port probe to find daemon despite corrupted PID file: "@ + error,
            ),
        },
        Judgement::WithoutPidFile => match status {
            StatusView::Found { state, .. } => Ok(
                said.push("  ✓ Daemon found via port probe, state: "@ + state),
            ),
            StatusView::NotFound { error } => Err(
                "Expected port probe to find daemon when PID file missing: "@ + error,
            ),
        },
        Judgement::NotRunning => match status {
            StatusView::Found { .. } => Err(
                "Expected daemon to not be found with stale PID file"@,
            ),
            StatusView::NotFound { .. } => Ok(
                said.push("  ✓ Correctly reported daemon not running"@),
            ),
        },
        Judgement::Either => match status {
            StatusView::Found { state, .. } => Ok(
                said.push("  Discovery found daemon (probably via fallback), state: "@ + state),
            ),
            StatusView::NotFound { error } => Ok(
                said.push("  Discovery failed as expected with wrong ports: "@ + error),
            ),
        },
    }
}

/// Lines or an error.
pub open spec fn lines_view(r: Result<Vec<String>, String>) -> Result<Seq<Seq<char>>, Seq<char>> {
    match r {
        Ok(l) => Ok(views(l@)),
        Err(e) => Err(e@),
    }
}

fn one_line(line: String) -> (r: Result<Vec<String>, String>)
    ensures
        lines_view(r) == Ok::<Seq<Seq<char>>, Seq<char>>(Seq::<Seq<char>>::empty().push(line@)),
{
    let mut lines: Vec<String> = no_words();
    put_word(&mut lines, line.as_str());
    Ok(lines)
}

/// Judges what the status command found: the lines to print, or the error of the test.
pub fn judge(judgement: Judgement, status: &CliStatusResult) -> (r: Result<Vec<String>, String>)
    ensures
        lines_view(r) == judged(judgement, status@),
{
    match judgement {
        Judgement::ByPidFile => match status {
            CliStatusResult::Found { state, output } => one_line(
                cat2("  ✓ Daemon found via PID file, state: ", state.as_str()),
            ),
            CliStatusResult::NotFound { error } => Err(
                cat2("Expected to find daemon via PID file: ", error.as_str()),
            ),
        },
        Judgement::DespiteCorruption => match status {
            CliStatusResult::Found { state, output } => {
                let mut lines: Vec<String> = no_words();
                put_word(
                    &mut lines,
                    cat2(
                        "  ✓ Daemon found (likely via port probe), state: ",
                        state.as_str(),
                    ).as_str(),
                );
                if contains(output.as_str(), "port") || contains(output.as_str(), "probe") {
                    put_word(&mut lines, "  ✓ Output mentions port probe as expected");
                }
                Ok(lines)
            },
            CliStatusResult::NotFound { error } => Err(
                cat2(
                    "Expected port probe to find daemon despite corrupted PID file: ",
                    error.as_str(),
                ),
            ),
        },
        Judgement::WithoutPidFile => match status {
            CliStatusResult::Found { state, output } => one_line(
                cat2("  ✓ Daemon found via port probe, state: ", state.as_str()),
            ),
            CliStatusResult::NotFound { error } => Err(
                cat2(
                    "Expected port probe to find daemon when PID file missing: ",
                    error.as_str(),
                ),
            ),
        },
        Judgement::NotRunning => match status {
            CliStatusResult::Found { state, output } => Err(
                "Expected daemon to not be found with stale PID file".to_owned(),
            ),
            CliStatusResult::NotFound { error } => one_line(
                "  ✓ Correctly reported daemon not running".to_owned(),
            ),
        },
        Judgement::Either => match status {
            CliStatusResult::Found { state, output } => one_line(
                cat2("  Discovery found daemon (probably via fallback), state: ", state.as_str()),
            ),
            CliStatusResult::NotFound { error } => one_line(
                cat2("  Discovery failed as expected with wrong ports: ", error.as_str()),
            ),
        },
    }
}

/// What is said about the status on a port, and whether the test goes on.
pub open spec fn override_judged(success: bool, stderr: Seq<char>) -> Result<
    Seq<Seq<char>>,
    Seq<char>,
> {
    if success {
        Ok(
            Seq::<Seq<char>>::empty().push(
                "  ✓ Explicit port override found daemon correctly"@,
            ),
        )
    } else {
        Err("Explicit port override should find daemon: "@ + stderr)
    }
}

/// Judges how the status command on a port ended.
pub fn judge_override(success: bool, stderr: &str) -> (r: Result<Vec<String>, String>)
    ensures
        lines_view(r) == override_judged(success, stderr@),
{
    if success {
        one_line("  ✓ Explicit port override found daemon correctly".to_owned())
    } else {
        Err(cat2("Explicit port override should find daemon: ", stderr))
    }
}

// ---------------------------------------------------------------------------
// Tests
// ---------------------------------------------------------------------------

/// The port for gRPC has to be open.
pub open spec fn need_running() -> StepView {
    StepView::NeedPort { open: true, message: "Daemon should be running"@ }
}

/// The steps of the test with a valid PID file.
pub open spec fn valid_pid_file_steps(h: HarnessView) -> Seq<StepView> {
    seq![
        StepView::Say("=== Test: Valid PID file ==="@),
        StepView::Start,
        StepView::NeedPort {
            open: true,
            message: "Daemon should be running on gRPC port "@ + decimal(h.grpc_port as nat),
        },
        StepView::NeedPidFile {
            exists: true,
            message: "PID file should exist at "@ + debug_path(h.pid_path()),
        },
        StepView::Status(Judgement::ByPidFile),
        StepView::Stop,
        StepView::Say("  ✓ Test passed: Valid PID file discovery works\n"@),
    ]
}

/// The steps of the test with a PID file that names a process that does not exist.
pub open spec fn corrupted_pid_file_steps(h: HarnessView) -> Seq<StepView> {
    seq![
        StepView::Say("=== Test: Corrupted PID file (wrong PID) - port probe fallback ==="@),
        StepView::Start,
        StepView::SayPid("  Daemon started with PID: "@, ""@),
        need_running(),
        StepView::WritePidFile { pid: Some(999999), http: h.http_port, grpc: h.grpc_port },
        StepView::Say("  Wrote corrupted PID file with fake PID: 999999"@),
        StepView::Status(Judgement::DespiteCorruption),
        StepView::Stop,
        StepView::Say("  ✓ Test passed: Port probe fallback works with corrupted PID file\n"@),
    ]
}

/// The steps of the test without a PID file.
pub open spec fn missing_pid_file_steps(h: HarnessView) -> Seq<StepView> {
    seq![
        StepView::Say("=== Test: Missing PID file - port probe discovery ==="@),
        StepView::Start,
        need_running(),
        StepView::DeletePidFile,
        StepView::NeedPidFile { exists: false, message: "PID file should be deleted"@ },
        StepView::Say("  Deleted PID file"@),
        StepView::Status(Judgement::WithoutPidFile),
        StepView::Stop,
        StepView::Say("  ✓ Test passed: Port probe works when PID file is missing\n"@),
    ]
}

/// The steps of the test with a PID file and no daemon.
pub open spec fn stale_pid_file_steps(h: HarnessView) -> Seq<StepView> {
    seq![
        StepView::Say("=== Test: Stale PID file (no daemon running) ==="@),
        StepView::WritePidFile { pid: Some(999999), http: h.http_port, grpc: h.grpc_port },
        StepView::Say("  Created stale PID file with non-existent PID"@),
        StepView::NeedPort {
            open: false,
            message: "No daemon should be running on port "@ + decimal(h.grpc_port as nat),
        },
        StepView::Status(Judgement::NotRunning),
        StepView::DeletePidFile,
        StepView::Say("  ✓ Test passed: Stale PID file correctly detected as no daemon\n"@),
    ]
}

/// The steps of the test with an explicit port.
pub open spec fn override_steps(h: HarnessView) -> Seq<StepView> {
    seq![
        StepView::Say("=== Test: Explicit port override ==="@),
        StepView::Start,
        need_running(),
        StepView::WritePidFile {
            pid: None,
            http: (h.http_port + 1000) as u16,
            grpc: (h.grpc_port + 1000) as u16,
        },
        StepView::Say(
            "  Corrupted PID file with wrong port "@ + decimal((h.grpc_port + 1000) as nat),
        ),
        StepView::StatusOverride,
        StepView::Stop,
        StepView::Say("  ✓ Test passed: Explicit port override bypasses discovery\n"@),
    ]
}

/// The steps of the test with a PID file that names the wrong ports.
pub open spec fn wrong_ports_steps(h: HarnessView) -> Seq<StepView> {
    seq![
        StepView::Say("=== Test: PID file with wrong ports ==="@),
        StepView::Start,
        StepView::NeedPort {
            open: true,
            message: "Daemon should be running on port "@ + decimal(h.grpc_port as nat),
        },
        StepView::WritePidFile {
            pid: None,
            http: (h.http_port + 1) as u16,
            grpc: (h.grpc_port + 1) as u16,
        },
        StepView::SayPid(
            "  PID file has PID "@,
            " but wrong port "@ + decimal((h.grpc_port + 1) as nat) + " (actual: "@ + decimal(
                h.grpc_port as nat,
            ) + ")"@,
        ),
        StepView::Status(Judgement::Either),
        StepView::Stop,
        StepView::Say("  ✓ Test passed: Wrong ports in PID file handled gracefully\n"@),
    ]
}

/// The steps of all tests, between a header and a footer.
pub open spec fn all_steps(h: HarnessView) -> Seq<StepView> {
    seq![
        StepView::Say("\n========================================"@),
        StepView::Say("  DAEMON DISCOVERY E2E TESTS"@),
        StepView::Say("========================================\n"@),
    ] + valid_pid_file_steps(h) + corrupted_pid_file_steps(h) + missing_pid_file_steps(h)
        + stale_pid_file_steps(h) + override_steps(h) + wrong_ports_steps(h) + seq![
        StepView::Say("========================================"@),
        StepView::Say("  ALL DAEMON DISCOVERY TESTS PASSED"@),
        StepView::Say("========================================\n"@),
    ]
}

fn say(line: &str) -> (r: DiscoveryStep)
    ensures
        r@ == StepView::Say(line@),
{
    DiscoveryStep::Say(line.to_owned())
}

fn running() -> (r: DiscoveryStep)
    ensures
        r@ == need_running(),
{
    DiscoveryStep::NeedPort { open: true, message: "Daemon should be running".to_owned() }
}

fn put_steps(list: &mut Vec<DiscoveryStep>, more: Vec<DiscoveryStep>)
    ensures
        step_views(final(list)@) == step_views(old(list)@) + step_views(more@),
{
    let ghost before = list@;
    let mut rest: Vec<DiscoveryStep> = more;
    let ghost added = rest@;
    list.append(&mut rest);
    assert(step_views(list@) =~= step_views(before) + step_views(added));
}

impl DaemonDiscoveryTests {
    /// A harness for a binary, in a temporary directory; no daemon runs yet.
    pub fn new(
        temp_dir: &str,
        binary_path: Option<String>,
        workspace_root: &str,
        host: &str,
        http_port: u16,
        grpc_port: u16,
    ) -> (r: Result<Self, String>)
        ensures
            r is Ok <==> binary_path is Some,
            r matches Ok(t) ==> t@ == (HarnessView {
                temp_dir: temp_dir@,
                binary_path: binary_path.unwrap()@,
                workspace_root: workspace_root@,
                host: host@,
                http_port,
                grpc_port,
                daemon_pid: None,
            }),
            r matches Err(e) ==> e@
                == "detrix binary not found. Run: cargo build -p detrix-cli"@,
    {
        match binary_path {
            Some(binary_path) => Ok(
                DaemonDiscoveryTests {
                    temp_dir: temp_dir.to_owned(),
                    binary_path,
                    workspace_root: workspace_root.to_owned(),
                    host: host.to_owned(),
                    http_port,
                    grpc_port,
                    daemon_pid: None,
                },
            ),
            None => Err("detrix binary not found. Run: cargo build -p detrix-cli".to_owned()),
        }
    }

    /// Where the PID file is.
    pub fn pid_file_path(&self) -> (r: String)
        ensures
            r@ == self@.pid_path(),
    {
        join_path(self.temp_dir.as_str(), "daemon.pid")
    }

    /// Where the configuration is.
    pub fn config_path(&self) -> (r: String)
        ensures
            r@ == self@.config_path(),
    {
        join_path(self.temp_dir.as_str(), "detrix.toml")
    }

    /// Where the log is.
    pub fn log_path(&self) -> (r: String)
        ensures
            r@ == self@.log_path(),
    {
        join_path(self.temp_dir.as_str(), "daemon.log")
    }

    /// The configuration of the daemon: it uses the given ports and no others.
    pub fn config(&self) -> (r: String)
        ensures
            r@ == self@.config(),
    {
        let db: String = join_path(self.temp_dir.as_str(), "detrix.db");
        config_content(
            self.workspace_root.as_str(),
            db.as_str(),
            self.pid_file_path().as_str(),
            false,
            self.host.as_str(),
            self.http_port,
            self.grpc_port,
        )
    }

    /// The command that starts the daemon.
    pub fn serve_command(&self) -> (r: CommandLine)
        ensures
            r@ == self@.serve(),
    {
        make_serve_command(
            self.binary_path.as_str(),
            self.config_path().as_str(),
            self.pid_file_path().as_str(),
            self.workspace_root.as_str(),
            "warn",
            self.log_path().as_str(),
        )
    }

    /// Begins the start of the daemon: its configuration is to be written.
    pub fn start_daemon(&self) -> (r: (DiscoveryStart, Deed))
        ensures
            r.0@.phase == ReadyPhase::Writing,
            r.0@.pid_path == self@.pid_path(),
            r.0@.log_path == self@.log_path(),
            r.0@.command == self@.serve(),
            r.0@.grpc_port == self@.grpc_port,
            r.1@ == (DeedView::WriteFile {
                path: self@.config_path(),
                content: self@.config(),
            }),
    {
        let start = DiscoveryStart {
            pid_path: self.pid_file_path(),
            log_path: self.log_path(),
            command: self.serve_command(),
            grpc_port: self.grpc_port,
            phase: ReadyPhase::Writing,
        };
        (start, Deed::WriteFile { path: self.config_path(), content: self.config() })
    }

    /// Takes note of the process of a daemon that was started: the one that its PID file names,
    /// or else the one that was spawned.
    pub fn set_daemon_pid(&mut self, pid_file: Option<&str>, spawned: u32)
        ensures
            final(self)@ == (HarnessView {
                daemon_pid: Some(
                    match pid_file {
                        Some(content) => match pid_in(content@) {
                            Some(pid) => pid,
                            None => match old(self)@.daemon_pid {
                                Some(p) => p,
                                None => spawned,
                            },
                        },
                        None => match old(self)@.daemon_pid {
                            Some(p) => p,
                            None => spawned,
                        },
                    },
                ),
                ..old(self)@
            }),
    {
        let named: Option<u32> = match pid_file {
            Some(content) => read_pid(content),
            None => None,
        };
        match named {
            Some(pid) => {
                self.daemon_pid = Some(pid);
            },
            None => {
                if self.daemon_pid.is_none() {
                    self.daemon_pid = Some(spawned);
                }
            },
        }
    }

    /// Hands out the process of the daemon, which is to be stopped.
    pub fn take_daemon_pid(&mut self) -> (r: Option<u32>)
        ensures
            r == old(self)@.daemon_pid,
            final(self)@ == (HarnessView { daemon_pid: None, ..old(self)@ }),
    {
        let pid: Option<u32> = self.daemon_pid;
        self.daemon_pid = None;
        pid
    }

    /// The address of the port for gRPC.
    pub fn grpc_address(&self) -> (r: String)
        ensures
            r@ == self@.host + ":"@ + decimal(self@.grpc_port as nat),
    {
        cat3(self.host.as_str(), ":", num(self.grpc_port as u64).as_str())
    }

    /// The command that asks for the status of the daemon.
    pub fn status_command(&self) -> (r: CommandLine)
        ensures
            r@ == self@.status_command(),
    {
        let mut args: Vec<String> = no_words();
        put_word(&mut args, "status");
        put_word(&mut args, "--config");
        put_word(&mut args, self.config_path().as_str());
        put_word(&mut args, "--format");
        put_word(&mut args, "json");
        let env: Vec<(String, String)> = vec![("RUST_LOG".to_owned(), "warn".to_owned())];
        let r = CommandLine {
            program: self.binary_path.clone(),
            args,
            dir: None,
            env,
            log: None,
        };
        assert(r@.args =~= self@.status_command().args);
        assert(r@.env =~= self@.status_command().env);
        r
    }

    /// The command that asks for the status of the daemon on its port.
    pub fn override_command(&self) -> (r: CommandLine)
        ensures
            r@ == self@.override_command(),
    {
        let mut args: Vec<String> = no_words();
        put_word(&mut args, "status");
        put_word(&mut args, "--format");
        put_word(&mut args, "json");
        let env: Vec<(String, String)> = vec![
            ("DETRIX_GRPC_PORT_OVERRIDE".to_owned(), num(self.grpc_port as u64)),
            ("RUST_LOG".to_owned(), "warn".to_owned()),
        ];
        let r = CommandLine {
            program: self.binary_path.clone(),
            args,
            dir: None,
            env,
            log: None,
        };
        assert(r@.args =~= self@.override_command().args);
        assert(r@.env =~= self@.override_command().env);
        r
    }

    /// What a PID file that a test writes holds: it names the process, or else that of the
    /// daemon.
    pub fn write_pid_file(&self, pid: Option<u32>, http: u16, grpc: u16) -> (r: String)
        ensures
            r@ == text_of_json(
                pid_file_json(
                    if pid is Some {
                        pid
                    } else {
                        self@.daemon_pid
                    },
                    http,
                    grpc,
                    self@.host,
                ),
            ),
    {
        let named: Option<u32> = if pid.is_some() {
            pid
        } else {
            self.daemon_pid
        };
        let value: Json = pid_file_value(named, http, grpc, self.host.as_str());
        json_to_text(&value)
    }

    /// The line that names the process of the daemon, between two texts.
    pub fn pid_line(&self, before: &str, after: &str) -> (r: Option<String>)
        ensures
            opt_view(r) == (match self@.daemon_pid {
                Some(pid) => Some(before@ + decimal(pid as nat) + after@),
                None => None,
            }),
    {
        match self.daemon_pid {
            Some(pid) => Some(cat3(before, num(pid as u64).as_str(), after)),
            None => None,
        }
    }

    /// A daemon that runs and has a valid PID file is found.
    pub fn test_valid_pid_file(&self) -> (r: Vec<DiscoveryStep>)
        ensures
            step_views(r@) == valid_pid_file_steps(self@),
    {
        let r: Vec<DiscoveryStep> = vec![
            say("=== Test: Valid PID file ==="),
            DiscoveryStep::Start,
            DiscoveryStep::NeedPort {
                open: true,
                message: cat2(
                    "Daemon should be running on gRPC port ",
                    num(self.grpc_port as u64).as_str(),
                ),
            },
            DiscoveryStep::NeedPidFile {
                exists: true,
                message: cat2(
                    "PID file should exist at ",
                    format_path(self.pid_file_path().as_str()).as_str(),
                ),
            },
            DiscoveryStep::Status(Judgement::ByPidFile),
            DiscoveryStep::Stop,
            say("  ✓ Test passed: Valid PID file discovery works\n"),
        ];
        assert(step_views(r@) =~= valid_pid_file_steps(self@));
        r
    }

    /// A daemon that runs is found although its PID file names a process that does not exist.
    pub fn test_corrupted_pid_file_port_probe_fallback(&self) -> (r: Vec<DiscoveryStep>)
        ensures
            step_views(r@) == corrupted_pid_file_steps(self@),
    {
        let r: Vec<DiscoveryStep> = vec![
            say("=== Test: Corrupted PID file (wrong PID) - port probe fallback ==="),
            DiscoveryStep::Start,
            DiscoveryStep::SayPid("  Daemon started with PID: ".to_owned(), "".to_owned()),
            running(),
            DiscoveryStep::WritePidFile {
                pid: Some(999999),
                http: self.http_port,
                grpc: self.grpc_port,
            },
            say("  Wrote corrupted PID file with fake PID: 999999"),
            DiscoveryStep::Status(Judgement::DespiteCorruption),
            DiscoveryStep::Stop,
            say("  ✓ Test passed: Port probe fallback works with corrupted PID file\n"),
        ];
        assert(step_views(r@) =~= corrupted_pid_file_steps(self@));
        r
    }

    /// A daemon that runs is found although it has no PID file.
    pub fn test_missing_pid_file_port_probe(&self) -> (r: Vec<DiscoveryStep>)
        ensures
            step_views(r@) == missing_pid_file_steps(self@),
    {
        let r: Vec<DiscoveryStep> = vec![
            say("=== Test: Missing PID file - port probe discovery ==="),
            DiscoveryStep::Start,
            running(),
            DiscoveryStep::DeletePidFile,
            DiscoveryStep::NeedPidFile {
                exists: false,
                message: "PID file should be deleted".to_owned(),
            },
            say("  Deleted PID file"),
            DiscoveryStep::Status(Judgement::WithoutPidFile),
            DiscoveryStep::Stop,
            say("  ✓ Test passed: Port probe works when PID file is missing\n"),
        ];
        assert(step_views(r@) =~= missing_pid_file_steps(self@));
        r
    }

    /// No daemon is found where there is only a PID file.
    pub fn test_stale_pid_file_no_daemon(&self) -> (r: Vec<DiscoveryStep>)
        ensures
            step_views(r@) == stale_pid_file_steps(self@),
    {
        let r: Vec<DiscoveryStep> = vec![
            say("=== Test: Stale PID file (no daemon running) ==="),
            DiscoveryStep::WritePidFile {
                pid: Some(999999),
                http: self.http_port,
                grpc: self.grpc_port,
            },
            say("  Created stale PID file with non-existent PID"),
            DiscoveryStep::NeedPort {
                open: false,
                message: cat2(
                    "No daemon should be running on port ",
                    num(self.grpc_port as u64).as_str(),
                ),
            },
            DiscoveryStep::Status(Judgement::NotRunning),
            DiscoveryStep::DeletePidFile,
            say("  ✓ Test passed: Stale PID file correctly detected as no daemon\n"),
        ];
        assert(step_views(r@) =~= stale_pid_file_steps(self@));
        r
    }

    /// A daemon is found on a port that is given, whatever its PID file says.
    pub fn test_explicit_port_override(&self) -> (r: Vec<DiscoveryStep>)
        requires
            self.http_port + 1000 <= u16::MAX,
            self.grpc_port + 1000 <= u16::MAX,
        ensures
            step_views(r@) == override_steps(self@),
    {
        let wrong: u16 = self.grpc_port + 1000;
        let r: Vec<DiscoveryStep> = vec![
            say("=== Test: Explicit port override ==="),
            DiscoveryStep::Start,
            running(),
            DiscoveryStep::WritePidFile {
                pid: None,
                http: self.http_port + 1000,
                grpc: wrong,
            },
            DiscoveryStep::Say(
                cat2("  Corrupted PID file with wrong port ", num(wrong as u64).as_str()),
            ),
            DiscoveryStep::StatusOverride,
            DiscoveryStep::Stop,
            say("  ✓ Test passed: Explicit port override bypasses discovery\n"),
        ];
        assert(step_views(r@) =~= override_steps(self@));
        r
    }

    /// A PID file that names the wrong ports does no harm, whether or not the daemon is found.
    pub fn test_pid_file_wrong_ports(&self) -> (r: Vec<DiscoveryStep>)
        requires
            self.http_port + 1 <= u16::MAX,
            self.grpc_port + 1 <= u16::MAX,
        ensures
            step_views(r@) == wrong_ports_steps(self@),
    {
        let wrong: String = num((self.grpc_port + 1) as u64);
        let actual: String = num(self.grpc_port as u64);
        let after: String = crate::text::cat5(
            " but wrong port ",
            wrong.as_str(),
            " (actual: ",
            actual.as_str(),
            ")",
        );
        let r: Vec<DiscoveryStep> = vec![
            say("=== Test: PID file with wrong ports ==="),
            DiscoveryStep::Start,
            DiscoveryStep::NeedPort {
                open: true,
                message: cat2("Daemon should be running on port ", actual.as_str()),
            },
            DiscoveryStep::WritePidFile {
                pid: None,
                http: self.http_port + 1,
                grpc: self.grpc_port + 1,
            },
            DiscoveryStep::SayPid("  PID file has PID ".to_owned(), after),
            DiscoveryStep::Status(Judgement::Either),
            DiscoveryStep::Stop,
            say("  ✓ Test passed: Wrong ports in PID file handled gracefully\n"),
        ];
        assert(step_views(r@) =~= wrong_ports_steps(self@));
        r
    }

    /// All tests, one after another.
    pub fn run_all(&self) -> (r: Vec<DiscoveryStep>)
        requires
            self.http_port + 1000 <= u16::MAX,
            self.grpc_port + 1000 <= u16::MAX,
        ensures
            step_views(r@) == all_steps(self@),
    {
        let mut r: Vec<DiscoveryStep> = vec![
            say("\n========================================"),
            say("  DAEMON DISCOVERY E2E TESTS"),
            say("========================================\n"),
        ];
        assert(step_views(r@) =~= seq![
            StepView::Say("\n========================================"@),
            StepView::Say("  DAEMON DISCOVERY E2E TESTS"@),
            StepView::Say("========================================\n"@),
        ]);
        put_steps(&mut r, self.test_valid_pid_file());
        put_steps(&mut r, self.test_corrupted_pid_file_port_probe_fallback());
        put_steps(&mut r, self.test_missing_pid_file_port_probe());
        put_steps(&mut r, self.test_stale_pid_file_no_daemon());
        put_steps(&mut r, self.test_explicit_port_override());
        put_steps(&mut r, self.test_pid_file_wrong_ports());
        let end: Vec<DiscoveryStep> = vec![
            say("========================================"),
            say("  ALL DAEMON DISCOVERY TESTS PASSED"),
            say("========================================\n"),
        ];
        assert(step_views(end@) =~= seq![
            StepView::Say("========================================"@),
            StepView::Say("  ALL DAEMON DISCOVERY TESTS PASSED"@),
            StepView::Say("========================================\n"@),
        ]);
        put_steps(&mut r, end);
        r
    }
}

// ---------------------------------------------------------------------------
// Starting
// ---------------------------------------------------------------------------

/// How far the start of a daemon is: what its last deed was.
#[derive(Debug, Clone, Copy, PartialEq, Eq, Structural)]
pub enum ReadyPhase {
    Writing,
    Logging,
    Cloning,
    Spawning,
    Timing,
    Polling,
    Looking,
    Connecting,
    Pausing,
    ReadingLog,
    Over,
}

/// The start of a daemon.
#[derive(Debug)]
pub struct DiscoveryStart {
    pub pid_path: String,
    pub log_path: String,
    pub command: CommandLine,
    pub grpc_port: u16,
    pub phase: ReadyPhase,
}

/// The mathematical counterpart of [`DiscoveryStart`].
pub struct ReadyView {
    pub pid_path: Seq<char>,
    pub log_path: Seq<char>,
    pub command: CommandView,
    pub grpc_port: u16,
    pub phase: ReadyPhase,
}

impl View for DiscoveryStart {
    type V = ReadyView;

    open spec fn view(&self) -> ReadyView {
        ReadyView {
            pid_path: self.pid_path@,
            log_path: self.log_path@,
            command: self.command@,
            grpc_port: self.grpc_port,
            phase: self.phase,
        }
    }
}

/// A turn of the start: the state that it leaves, and what comes next.
pub struct ReadyTurn {
    pub state: ReadyView,
    pub next: MoveView,
}

/// A deed follows.
pub open spec fn ready_does(s: ReadyView, phase: ReadyPhase, deed: DeedView) -> ReadyTurn {
    ReadyTurn { state: ReadyView { phase, ..s }, next: MoveView::Do(deed) }
}

/// The start ends.
pub open spec fn ready_ends(s: ReadyView, end: MoveView) -> ReadyTurn {
    ReadyTurn { state: ReadyView { phase: ReadyPhase::Over, ..s }, next: end }
}

/// The error where the daemon did not get ready within ten seconds: it shows the beginning of
/// its log.
pub open spec fn not_ready(log: Option<Seq<char>>) -> Seq<char> {
    "Daemon failed to start within 10s. Log:\n"@ + (match log {
        Some(l) => first_chars(l, 2000),
        None => Seq::empty(),
    })
}

/// The start goes on.
pub open spec fn on_ready_reply(s: ReadyView, reply: ReplyView) -> ReadyTurn {
    match s.phase {
        ReadyPhase::Writing => match reply->Outcome_0 {
            Ok(_) => ready_does(s, ReadyPhase::Logging, DeedView::CreateLog { path: s.log_path }),
            Err(e) => ready_ends(s, fails(e)),
        },
        ReadyPhase::Logging => match reply->Outcome_0 {
            Ok(_) => ready_does(s, ReadyPhase::Cloning, DeedView::CloneLog { path: s.log_path }),
            Err(e) => ready_ends(s, fails(e)),
        },
        ReadyPhase::Cloning => match reply->Outcome_0 {
            Ok(_) => ready_does(s, ReadyPhase::Spawning, DeedView::Spawn { command: s.command }),
            Err(e) => ready_ends(s, fails(e)),
        },
        ReadyPhase::Spawning => match reply->Outcome_0 {
            Ok(_) => ready_does(s, ReadyPhase::Timing, DeedView::StartTimer),
            Err(e) => ready_ends(s, fails("Failed to spawn daemon: "@ + e)),
        },
        ReadyPhase::Polling => if reply->Truth_0 {
            ready_does(s, ReadyPhase::ReadingLog, DeedView::ReadFile { path: s.log_path })
        } else {
            ready_does(s, ReadyPhase::Looking, DeedView::CheckFile { path: s.pid_path })
        },
        ReadyPhase::Looking => if reply->Truth_0 {
            ready_does(
                s,
                ReadyPhase::Connecting,
                DeedView::Connect { port: s.grpc_port, millis: 100 },
            )
        } else {
            ready_does(s, ReadyPhase::Pausing, DeedView::Pause { millis: 100 })
        },
        ReadyPhase::Connecting => if reply->Truth_0 {
            ready_ends(s, succeeds())
        } else {
            ready_does(s, ReadyPhase::Pausing, DeedView::Pause { millis: 100 })
        },
        ReadyPhase::ReadingLog => ready_ends(s, fails(not_ready(reply->Text_0))),
        _ => ready_does(
            s,
            ReadyPhase::Polling,
            DeedView::TimeIsUp { millis: 10000, strictly: false },
        ),
    }
}

/// A reply is of the kind that the start waits for.
pub open spec fn ready_accepts(phase: ReadyPhase, reply: ReplyView) -> bool {
    match phase {
        ReadyPhase::Writing => reply is Outcome,
        ReadyPhase::Logging => reply is Outcome,
        ReadyPhase::Cloning => reply is Outcome,
        ReadyPhase::Spawning => reply is Outcome,
        ReadyPhase::Timing => reply is Done,
        ReadyPhase::Polling => reply is Truth,
        ReadyPhase::Looking => reply is Truth,
        ReadyPhase::Connecting => reply is Truth,
        ReadyPhase::Pausing => reply is Done,
        ReadyPhase::ReadingLog => reply is Text,
        ReadyPhase::Over => false,
    }
}

fn not_ready_error(log: &Option<String>) -> (r: String)
    ensures
        r@ == not_ready(opt_view(*log)),
{
    match log {
        Some(l) => cat2(
            "Daemon failed to start within 10s. Log:\n",
            take_chars(l.as_str(), 2000).as_str(),
        ),
        None => {
            let r: String = "Daemon failed to start within 10s. Log:\n".to_owned();
            assert(r@ =~= r@ + Seq::<char>::empty());
            r
        },
    }
}

impl DiscoveryStart {
    fn act(&mut self, phase: ReadyPhase, deed: Deed) -> (r: Move)
        ensures
            (ReadyTurn { state: final(self)@, next: r@ }) == ready_does(old(self)@, phase, deed@),
    {
        self.phase = phase;
        Move::Do(deed)
    }

    fn end(&mut self, next: Move) -> (r: Move)
        ensures
            (ReadyTurn { state: final(self)@, next: r@ }) == ready_ends(old(self)@, next@),
    {
        self.phase = ReadyPhase::Over;
        next
    }

    fn pause(&mut self) -> (r: Move)
        ensures
            (ReadyTurn { state: final(self)@, next: r@ }) == ready_does(
                old(self)@,
                ReadyPhase::Pausing,
                DeedView::Pause { millis: 100 },
            ),
    {
        self.act(ReadyPhase::Pausing, Deed::Pause { millis: 100 })
    }

    /// Takes the answer to the last deed, and goes on.
    pub fn resume(&mut self, reply: Reply) -> (r: Move)
        requires
            ready_accepts(old(self)@.phase, reply@),
        ensures
            (ReadyTurn { state: final(self)@, next: r@ }) == on_ready_reply(old(self)@, reply@),
    {
        match reply {
            Reply::Outcome(outcome) => match outcome {
                Ok(_) => match self.phase {
                    ReadyPhase::Writing => {
                        let path: String = self.log_path.clone();
                        self.act(ReadyPhase::Logging, Deed::CreateLog { path })
                    },
                    ReadyPhase::Logging => {
                        let path: String = self.log_path.clone();
                        self.act(ReadyPhase::Cloning, Deed::CloneLog { path })
                    },
                    ReadyPhase::Cloning => {
                        let command = self.command.duplicate();
                        self.act(ReadyPhase::Spawning, Deed::Spawn { command })
                    },
                    _ => self.act(ReadyPhase::Timing, Deed::StartTimer),
                },
                Err(e) => match self.phase {
                    ReadyPhase::Spawning => self.end(
                        fail(cat2("Failed to spawn daemon: ", e.as_str())),
                    ),
                    _ => self.end(fail(e)),
                },
            },
            Reply::Truth(yes) => match self.phase {
                ReadyPhase::Polling => {
                    if yes {
                        let path: String = self.log_path.clone();
                        self.act(ReadyPhase::ReadingLog, Deed::ReadFile { path })
                    } else {
                        let path: String = self.pid_path.clone();
                        self.act(ReadyPhase::Looking, Deed::CheckFile { path })
                    }
                },
                ReadyPhase::Looking => {
                    if yes {
                        let port: u16 = self.grpc_port;
                        self.act(ReadyPhase::Connecting, Deed::Connect { port, millis: 100 })
                    } else {
                        self.pause()
                    }
                },
                _ => {
                    if yes {
                        self.end(succeed())
                    } else {
                        self.pause()
                    }
                },
            },
            Reply::Text(log) => self.end(fail(not_ready_error(&log))),
            _ => self.act(
                ReadyPhase::Polling,
                Deed::TimeIsUp { millis: 10000, strictly: false },
            ),
        }
    }
}

/// A deed that the start of a daemon asks for is answered with what it waits for, it is over
/// exactly when it asks for nothing more, and it ends well only when the PID file is there and
/// the port for gRPC accepts a connection.
pub proof fn law_ready_proceeds(s: ReadyView, reply: ReplyView)
    requires
        ready_accepts(s.phase, reply),
    ensures
        ({
            let turn = on_ready_reply(s, reply);
            &&& turn.next is Finish <==> turn.state.phase == ReadyPhase::Over
            &&& turn.next == succeeds() <==> s.phase == ReadyPhase::Connecting && reply
                == ReplyView::Truth(true)
            &&& turn.state.phase == ReadyPhase::Connecting ==> s.phase == ReadyPhase::Looking
                && reply == ReplyView::Truth(true)
            &&& turn.next matches MoveView::Do(deed) ==> forall|answer: ReplyView|
                deed.is_answered_by(answer) ==> #[trigger] ready_accepts(turn.state.phase, answer)
        }),
{
}

// ---------------------------------------------------------------------------
// Laws
// ---------------------------------------------------------------------------

/// A daemon counts as running after some steps.
pub open spec fn runs_after(steps: Seq<StepView>, n: nat) -> bool
    decreases n,
{
    if n == 0 {
        false
    } else {
        match steps[n - 1] {
            StepView::Start => true,
            StepView::Stop => false,
            _ => runs_after(steps, (n - 1) as nat),
        }
    }
}

/// Every test that runs to its end leaves no daemon behind.
pub proof fn law_tests_leave_no_daemon(h: HarnessView)
    ensures
        !runs_after(valid_pid_file_steps(h), valid_pid_file_steps(h).len()),
        !runs_after(corrupted_pid_file_steps(h), corrupted_pid_file_steps(h).len()),
        !runs_after(missing_pid_file_steps(h), missing_pid_file_steps(h).len()),
        !runs_after(stale_pid_file_steps(h), stale_pid_file_steps(h).len()),
        !runs_after(override_steps(h), override_steps(h).len()),
        !runs_after(wrong_ports_steps(h), wrong_ports_steps(h).len()),
{
    reveal_with_fuel(runs_after, 10);
}

/// A test is refused exactly where the daemon is found and must not be, or is not found and must
/// be; where either will do, it never is.
pub proof fn law_judgements(judgement: Judgement, status: StatusView)
    ensures
        judged(judgement, status) is Err <==> match judgement {
            Judgement::NotRunning => status is Found,
            Judgement::Either => false,
            _ => status is NotFound,
        },
{
}

} // verus!
