//! How the daemon is configured, started and stopped.

use vstd::prelude::*;

use crate::executor::{pid_file, unregister_e2e_process};
use crate::json::{json_of_text, parse_json, Json, JsonView};
use crate::process::{
    fail, fails, no_words, put_word, succeed, succeeds, CommandLine, CommandView, Deed, DeedView,
    Move, MoveView, Reply, ReplyView,
};
use crate::paths::{join_path, path_joined};
use crate::text::{
    bool_str, bool_text, cat2, cat4, cat5, cat7, decimal, num, opt_view, replace_char, replaced,
    views,
};
use crate::times::{format_utc, utc_time};

verus! {

// ---------------------------------------------------------------------------
// The configuration
// ---------------------------------------------------------------------------

/// A path as it stands in a configuration: with slashes only, on Windows.
pub open spec fn toml_path(path: Seq<char>, windows: bool) -> Seq<char> {
    if windows {
        replaced(path, '\\', '/')
    } else {
        path
    }
}

/// A path as it stands in a configuration: with slashes only, on Windows.
pub fn to_toml_path(path: &str, windows: bool) -> (r: String)
    ensures
        r@ == toml_path(path@, windows),
{
    if windows {
        replace_char(path, '\\', '/')
    } else {
        path.to_owned()
    }
}

/// The configuration of a daemon.
pub open spec fn daemon_config(
    root: Seq<char>,
    db: Seq<char>,
    pid: Seq<char>,
    port_fallback: bool,
    host: Seq<char>,
    http_port: u16,
    grpc_port: u16,
) -> Seq<char> {
    "\n[metadata]\nversion = \"1.0\"\n\n[project]\nbase_path = \""@ + root
        + "\"\n\n[storage]\nstorage_type = \"sqlite\"\npath = \""@ + db
        + "\"\n\n[daemon]\npid_file = \""@ + pid + "\"\n\n[api]\nport_fallback = "@ + bool_text(
        port_fallback,
    ) + "\n\n[api.rest]\nenabled = true\nhost = \""@ + host + "\"\nport = "@ + decimal(
        http_port as nat,
    ) + "\n\n[api.grpc]\nenabled = true\nhost = \""@ + host + "\"\nport = "@ + decimal(
        grpc_port as nat,
    ) + "\n\n[safety]\nenable_ast_analysis = false\n"@
}

/// The configuration of a daemon.
pub fn config_content(
    root: &str,
    db: &str,
    pid: &str,
    port_fallback: bool,
    host: &str,
    http_port: u16,
    grpc_port: u16,
) -> (r: String)
    ensures
        r@ == daemon_config(root@, db@, pid@, port_fallback, host@, http_port, grpc_port),
{
    let places: String = cat7(
        "\n[metadata]\nversion = \"1.0\"\n\n[project]\nbase_path = \"",
        root,
        "\"\n\n[storage]\nstorage_type = \"sqlite\"\npath = \"",
        db,
        "\"\n\n[daemon]\npid_file = \"",
        pid,
        "\"\n\n[api]\nport_fallback = ",
    );
    let rest: String = cat5(
        places.as_str(),
        bool_str(port_fallback),
        "\n\n[api.rest]\nenabled = true\nhost = \"",
        host,
        "\"\nport = ",
    );
    cat7(
        rest.as_str(),
        num(http_port as u64).as_str(),
        "\n\n[api.grpc]\nenabled = true\nhost = \"",
        host,
        "\"\nport = ",
        num(grpc_port as u64).as_str(),
        "\n\n[safety]\nenable_ast_analysis = false\n",
    )
}

/// The command that starts a daemon.
pub open spec fn serve_command(
    binary: Seq<char>,
    config: Seq<char>,
    pid: Seq<char>,
    root: Seq<char>,
    rust_log: Seq<char>,
    log: Seq<char>,
) -> CommandView {
    CommandView {
        program: binary,
        args: seq!["serve"@, "--config"@, config, "--daemon"@, "--pid-file"@, pid],
        dir: Some(root),
        env: seq![("RUST_LOG"@, rust_log)],
        log: Some(log),
    }
}

/// The command that starts a daemon.
pub fn make_serve_command(
    binary: &str,
    config: &str,
    pid: &str,
    root: &str,
    rust_log: &str,
    log: &str,
) -> (r: CommandLine)
    ensures
        r@ == serve_command(binary@, config@, pid@, root@, rust_log@, log@),
{
    let mut args: Vec<String> = no_words();
    put_word(&mut args, "serve");
    put_word(&mut args, "--config");
    put_word(&mut args, config);
    put_word(&mut args, "--daemon");
    put_word(&mut args, "--pid-file");
    put_word(&mut args, pid);
    let env: Vec<(String, String)> = vec![("RUST_LOG".to_owned(), rust_log.to_owned())];
    let r = CommandLine {
        program: binary.to_owned(),
        args,
        dir: Some(root.to_owned()),
        env,
        log: Some(log.to_owned()),
    };
    assert(r@.args =~= seq!["serve"@, "--config"@, config@, "--daemon"@, "--pid-file"@, pid@]);
    assert(r@.env =~= seq![("RUST_LOG"@, rust_log@)]);
    r
}

// ---------------------------------------------------------------------------
// The PID file
// ---------------------------------------------------------------------------

/// The lower bits of a number.
pub open spec fn low_bits(n: u64, modulus: nat) -> nat {
    (n as nat) % modulus
}

/// The process that a PID file names.
pub open spec fn named_pid(info: JsonView) -> Option<u32> {
    match info.u64_field("pid"@) {
        Some(n) => Some(low_bits(n, 0x1_0000_0000) as u32),
        None => None,
    }
}

/// The ports that a PID file names: none unless it names both.
pub open spec fn named_ports(info: JsonView) -> Option<(u16, u16)> {
    match info.field("ports"@) {
        Some(ports) => match (ports.u64_field("http"@), ports.u64_field("grpc"@)) {
            (Some(http), Some(grpc)) => Some(
                (low_bits(http, 0x1_0000) as u16, low_bits(grpc, 0x1_0000) as u16),
            ),
            _ => None,
        },
        None => None,
    }
}

/// The process that a PID file names.
pub fn pid_of(info: &Json) -> (r: Option<u32>)
    ensures
        r == named_pid(info@),
{
    match info.get_u64("pid") {
        Some(n) => Some((n % 0x1_0000_0000) as u32),
        None => None,
    }
}

/// The ports that a PID file names, for HTTP and for gRPC: none unless it names both.
pub fn ports_of(info: &Json) -> (r: Option<(u16, u16)>)
    ensures
        r == named_ports(info@),
{
    match info.get("ports") {
        Some(ports) => match ports.get_u64("http") {
            Some(http) => match ports.get_u64("grpc") {
                Some(grpc) => Some(((http % 0x1_0000) as u16, (grpc % 0x1_0000) as u16)),
                None => None,
            },
            None => None,
        },
        None => None,
    }
}

/// The process that the text of a PID file names.
pub open spec fn pid_in(content: Seq<char>) -> Option<u32> {
    match json_of_text(content) {
        Ok(info) => named_pid(info),
        Err(_) => None,
    }
}

/// The ports that the text of a PID file names.
pub open spec fn ports_in(content: Seq<char>) -> Option<(u16, u16)> {
    match json_of_text(content) {
        Ok(info) => named_ports(info),
        Err(_) => None,
    }
}

/// The process that the text of a PID file names.
pub fn read_pid(content: &str) -> (r: Option<u32>)
    ensures
        r == pid_in(content@),
{
    match parse_json(content) {
        Ok(info) => pid_of(&info),
        Err(_) => None,
    }
}

/// The ports that the text of a PID file names.
pub fn read_ports(content: &str) -> (r: Option<(u16, u16)>)
    ensures
        r == ports_in(content@),
{
    match parse_json(content) {
        Ok(info) => ports_of(&info),
        Err(_) => None,
    }
}

// ---------------------------------------------------------------------------
// Starting
// ---------------------------------------------------------------------------

/// How far the start of a daemon is: what its last deed was.
#[derive(Debug, Clone, Copy, PartialEq, Eq, Structural)]
pub enum StartPhase {
    Writing,
    Finding,
    Dating,
    Logging,
    Spawning,
    Timing,
    Polling,
    Looking,
    Reading,
    Pausing,
    Recording,
    Registering,
    WaitingHttp,
    WaitingGrpc,
    Over,
}

/// The start of a daemon.
#[derive(Debug)]
pub struct DaemonStart {
    pub root: String,
    pub temp_dir: String,
    pub http_port: u16,
    pub grpc_port: u16,
    /// How long to wait before the PID file is looked at again, in milliseconds.
    pub poll_interval: u64,
    pub phase: StartPhase,
    /// The binary, once it is known.
    pub binary: String,
}

/// The mathematical counterpart of [`DaemonStart`].
pub struct StartView {
    pub root: Seq<char>,
    pub temp_dir: Seq<char>,
    pub http_port: u16,
    pub grpc_port: u16,
    pub poll_interval: u64,
    pub phase: StartPhase,
    pub binary: Seq<char>,
}

impl View for DaemonStart {
    type V = StartView;

    open spec fn view(&self) -> StartView {
        StartView {
            root: self.root@,
            temp_dir: self.temp_dir@,
            http_port: self.http_port,
            grpc_port: self.grpc_port,
            poll_interval: self.poll_interval,
            phase: self.phase,
            binary: self.binary@,
        }
    }
}

impl StartView {
    /// Where the PID file is.
    pub open spec fn pid_path(self) -> Seq<char> {
        path_joined(self.temp_dir, "daemon.pid"@)
    }

    /// Where the configuration is.
    pub open spec fn config_path(self) -> Seq<char> {
        path_joined(self.temp_dir, "detrix.toml"@)
    }

    /// Where the log is.
    pub open spec fn log_path(self) -> Seq<char> {
        path_joined(self.temp_dir, "daemon.log"@)
    }
}

/// A turn of the start: the state that it leaves, what is printed, what is printed as a
/// warning, and what comes next.
pub struct StartTurn {
    pub state: StartView,
    pub printed: Seq<Seq<char>>,
    pub warned: Seq<Seq<char>>,
    pub next: MoveView,
}

/// A deed follows.
pub open spec fn start_does(s: StartView, phase: StartPhase, deed: DeedView) -> StartTurn {
    StartTurn {
        state: StartView { phase, ..s },
        printed: Seq::empty(),
        warned: Seq::empty(),
        next: MoveView::Do(deed),
    }
}

/// The start ends.
pub open spec fn start_ends(s: StartView, end: MoveView) -> StartTurn {
    StartTurn {
        state: StartView { phase: StartPhase::Over, ..s },
        printed: Seq::empty(),
        warned: Seq::empty(),
        next: end,
    }
}

/// When a binary was built, as text.
pub open spec fn build_time(secs: Option<i64>) -> Seq<char> {
    match secs {
        Some(n) => match utc_time(n) {
            Some(t) => t,
            None => "unknown"@,
        },
        None => "unknown"@,
    }
}

/// What is said about the binary.
pub open spec fn binary_info(binary: Seq<char>, time: Seq<char>) -> Seq<Seq<char>> {
    Seq::<Seq<char>>::empty().push("=== DAEMON BINARY INFO ==="@).push("  Path: "@ + binary).push(
        "  Build time: "@ + time,
    ).push("=========================="@)
}

/// What is logged.
pub open spec fn daemon_rust_log() -> Seq<char> {
    "detrix_cli=debug,detrix_dap=debug,detrix_application=debug,detrix_api=debug,info"@
}

/// How long the PID file may take, in milliseconds.
pub open spec fn pid_file_patience() -> DeedView {
    DeedView::TimeIsUp { millis: 30000, strictly: false }
}

/// The start goes on.
pub open spec fn on_start_reply(s: StartView, reply: ReplyView) -> StartTurn {
    match s.phase {
        StartPhase::Writing => match reply->Outcome_0 {
            Ok(_) => start_does(s, StartPhase::Finding, DeedView::FindBinary),
            Err(e) => start_ends(s, fails(e)),
        },
        StartPhase::Finding => match reply->Text_0 {
            Some(binary) => start_does(
                StartView { binary, ..s },
                StartPhase::Dating,
                DeedView::ModifiedTime { path: binary },
            ),
            None => start_ends(
                s,
                fails(
                    "detrix binary not found. Set DETRIX_BIN env var or run `cargo build -p detrix-cli`"@,
                ),
            ),
        },
        StartPhase::Dating => StartTurn {
            state: StartView { phase: StartPhase::Logging, ..s },
            printed: binary_info(s.binary, build_time(reply->Seconds_0)),
            warned: Seq::empty(),
            next: MoveView::Do(DeedView::CreateLog { path: s.log_path() }),
        },
        StartPhase::Logging => match reply->Outcome_0 {
            Ok(_) => start_does(
                s,
                StartPhase::Spawning,
                DeedView::Spawn {
                    command: serve_command(
                        s.binary,
                        s.config_path(),
                        s.pid_path(),
                        s.root,
                        daemon_rust_log(),
                        s.log_path(),
                    ),
                },
            ),
            Err(e) => start_ends(s, fails(e)),
        },
        StartPhase::Spawning => match reply->Outcome_0 {
            Ok(_) => start_does(s, StartPhase::Timing, DeedView::StartTimer),
            Err(e) => start_ends(s, fails("Could not spawn daemon: "@ + e)),
        },
        StartPhase::Timing => start_does(s, StartPhase::Polling, pid_file_patience()),
        StartPhase::Pausing => start_does(s, StartPhase::Polling, pid_file_patience()),
        StartPhase::Polling => if reply->Truth_0 {
            StartTurn {
                state: StartView { phase: StartPhase::Recording, ..s },
                printed: Seq::empty(),
                warned: Seq::<Seq<char>>::empty().push(
                    "Warning: PID file ports not found within timeout, using fallback ports: http="@
                        + decimal(s.http_port as nat) + ", grpc="@ + decimal(s.grpc_port as nat),
                ),
                next: MoveView::Do(DeedView::ReadFile { path: s.pid_path() }),
            }
        } else {
            start_does(s, StartPhase::Looking, DeedView::CheckFile { path: s.pid_path() })
        },
        StartPhase::Looking => if reply->Truth_0 {
            start_does(s, StartPhase::Reading, DeedView::ReadFile { path: s.pid_path() })
        } else {
            start_does(s, StartPhase::Pausing, DeedView::Pause { millis: s.poll_interval })
        },
        StartPhase::Reading => match (match reply->Text_0 {
            Some(content) => ports_in(content),
            None => None,
        }) {
            Some(ports) => start_does(
                StartView { http_port: ports.0, grpc_port: ports.1, ..s },
                StartPhase::Recording,
                DeedView::ReadFile { path: s.pid_path() },
            ),
            None => start_does(
                s,
                StartPhase::Pausing,
                DeedView::Pause { millis: s.poll_interval },
            ),
        },
        StartPhase::Recording => match (match reply->Text_0 {
            Some(content) => pid_in(content),
            None => None,
        }) {
            Some(pid) => start_does(
                s,
                StartPhase::Registering,
                DeedView::RegisterPid { name: "daemon"@, pid },
            ),
            None => start_does(
                s,
                StartPhase::WaitingHttp,
                DeedView::WaitPort { port: s.http_port, secs: 30 },
            ),
        },
        StartPhase::Registering => start_does(
            s,
            StartPhase::WaitingHttp,
            DeedView::WaitPort { port: s.http_port, secs: 30 },
        ),
        StartPhase::WaitingHttp => if reply->Truth_0 {
            start_does(
                s,
                StartPhase::WaitingGrpc,
                DeedView::WaitPort { port: s.grpc_port, secs: 10 },
            )
        } else {
            start_ends(
                s,
                fails("Daemon HTTP not responding on port "@ + decimal(s.http_port as nat)),
            )
        },
        _ => if reply->Truth_0 {
            start_ends(s, succeeds())
        } else {
            start_ends(
                s,
                fails("Daemon gRPC not responding on port "@ + decimal(s.grpc_port as nat)),
            )
        },
    }
}

/// A reply is of the kind that the start waits for.
pub open spec fn start_accepts(phase: StartPhase, reply: ReplyView) -> bool {
    match phase {
        StartPhase::Writing => reply is Outcome,
        StartPhase::Finding => reply is Text,
        StartPhase::Dating => reply is Seconds,
        StartPhase::Logging => reply is Outcome,
        StartPhase::Spawning => reply is Outcome,
        StartPhase::Timing => reply is Done,
        StartPhase::Polling => reply is Truth,
        StartPhase::Looking => reply is Truth,
        StartPhase::Reading => reply is Text,
        StartPhase::Pausing => reply is Done,
        StartPhase::Recording => reply is Text,
        StartPhase::Registering => reply is Done,
        StartPhase::WaitingHttp => reply is Truth,
        StartPhase::WaitingGrpc => reply is Truth,
        StartPhase::Over => false,
    }
}

/// What is said in a turn of the start, and what comes next.
#[derive(Debug)]
pub struct StartStep {
    pub printed: Vec<String>,
    pub warned: Vec<String>,
    pub next: Move,
}

impl StartStep {
    /// The step together with the state that it leaves.
    pub open spec fn turn(self, state: StartView) -> StartTurn {
        StartTurn {
            state,
            printed: views(self.printed@),
            warned: views(self.warned@),
            next: self.next@,
        }
    }
}

/// When a binary was built, as text; `time` is the time as text, if it is known.
pub fn build_time_text(time: &Option<String>) -> (r: String)
    ensures
        r@ == (match opt_view(*time) {
            Some(t) => t,
            None => "unknown"@,
        }),
{
    match time {
        Some(t) => t.clone(),
        None => "unknown".to_owned(),
    }
}

impl DaemonStart {
    /// Begins the start of a daemon: its configuration is to be written.
    pub fn start_daemon(
        root: &str,
        temp_dir: &str,
        http_port: u16,
        grpc_port: u16,
        poll_interval: u64,
        windows: bool,
    ) -> (r: (DaemonStart, Deed))
        ensures
            r.0@.root == root@,
            r.0@.temp_dir == temp_dir@,
            r.0@.http_port == http_port,
            r.0@.grpc_port == grpc_port,
            r.0@.poll_interval == poll_interval,
            r.0@.phase == StartPhase::Writing,
            r.1@ == (DeedView::WriteFile {
                path: path_joined(temp_dir@, "detrix.toml"@),
                content: daemon_config(
                    toml_path(root@, windows),
                    toml_path(path_joined(temp_dir@, "detrix.db"@), windows),
                    toml_path(path_joined(temp_dir@, "daemon.pid"@), windows),
                    true,
                    "127.0.0.1"@,
                    http_port,
                    grpc_port,
                ),
            }),
    {
        let db: String = join_path(temp_dir, "detrix.db");
        let pid: String = join_path(temp_dir, "daemon.pid");
        let content: String = config_content(
            to_toml_path(root, windows).as_str(),
            to_toml_path(db.as_str(), windows).as_str(),
            to_toml_path(pid.as_str(), windows).as_str(),
            true,
            "127.0.0.1",
            http_port,
            grpc_port,
        );
        let start = DaemonStart {
            root: root.to_owned(),
            temp_dir: temp_dir.to_owned(),
            http_port,
            grpc_port,
            poll_interval,
            phase: StartPhase::Writing,
            binary: "".to_owned(),
        };
        (start, Deed::WriteFile { path: join_path(temp_dir, "detrix.toml"), content })
    }

    /// Where the PID file is.
    pub fn pid_path(&self) -> (r: String)
        ensures
            r@ == self@.pid_path(),
    {
        join_path(self.temp_dir.as_str(), "daemon.pid")
    }

    /// Where the log is.
    pub fn log_path(&self) -> (r: String)
        ensures
            r@ == self@.log_path(),
    {
        join_path(self.temp_dir.as_str(), "daemon.log")
    }

    fn act(&mut self, phase: StartPhase, deed: Deed) -> (r: StartStep)
        ensures
            r.turn(final(self)@) == start_does(old(self)@, phase, deed@),
    {
        self.phase = phase;
        StartStep { printed: no_words(), warned: no_words(), next: Move::Do(deed) }
    }

    fn end(&mut self, next: Move) -> (r: StartStep)
        ensures
            r.turn(final(self)@) == start_ends(old(self)@, next@),
    {
        self.phase = StartPhase::Over;
        StartStep { printed: no_words(), warned: no_words(), next }
    }

    fn pause(&mut self) -> (r: StartStep)
        ensures
            r.turn(final(self)@) == start_does(
                old(self)@,
                StartPhase::Pausing,
                DeedView::Pause { millis: old(self)@.poll_interval },
            ),
    {
        let millis: u64 = self.poll_interval;
        self.act(StartPhase::Pausing, Deed::Pause { millis })
    }

    fn wait_http(&mut self) -> (r: StartStep)
        ensures
            r.turn(final(self)@) == start_does(
                old(self)@,
                StartPhase::WaitingHttp,
                DeedView::WaitPort { port: old(self)@.http_port, secs: 30 },
            ),
    {
        let port: u16 = self.http_port;
        self.act(StartPhase::WaitingHttp, Deed::WaitPort { port, secs: 30 })
    }

    fn after_truth(&mut self, yes: bool) -> (r: StartStep)
        requires
            start_accepts(old(self)@.phase, ReplyView::Truth(yes)),
        ensures
            r.turn(final(self)@) == on_start_reply(old(self)@, ReplyView::Truth(yes)),
    {
        let path: String = self.pid_path();
        match self.phase {
            StartPhase::Polling => {
                if yes {
                    let http: String = num(self.http_port as u64);
                    let grpc: String = num(self.grpc_port as u64);
                    let mut warned: Vec<String> = no_words();
                    put_word(
                        &mut warned,
                        cat4(
                            "Warning: PID file ports not found within timeout, using fallback ports: http=",
                            http.as_str(),
                            ", grpc=",
                            grpc.as_str(),
                        ).as_str(),
                    );
                    self.phase = StartPhase::Recording;
                    StartStep {
                        printed: no_words(),
                        warned,
                        next: Move::Do(Deed::ReadFile { path }),
                    }
                } else {
                    self.act(StartPhase::Looking, Deed::CheckFile { path })
                }
            },
            StartPhase::Looking => {
                if yes {
                    self.act(StartPhase::Reading, Deed::ReadFile { path })
                } else {
                    self.pause()
                }
            },
            StartPhase::WaitingHttp => {
                if yes {
                    let port: u16 = self.grpc_port;
                    self.act(StartPhase::WaitingGrpc, Deed::WaitPort { port, secs: 10 })
                } else {
                    let port: String = num(self.http_port as u64);
                    self.end(fail(cat2("Daemon HTTP not responding on port ", port.as_str())))
                }
            },
            _ => {
                if yes {
                    self.end(succeed())
                } else {
                    let port: String = num(self.grpc_port as u64);
                    self.end(fail(cat2("Daemon gRPC not responding on port ", port.as_str())))
                }
            },
        }
    }

    fn after_text(&mut self, text: Option<String>) -> (r: StartStep)
        requires
            start_accepts(old(self)@.phase, ReplyView::Text(opt_view(text))),
        ensures
            r.turn(final(self)@) == on_start_reply(old(self)@, ReplyView::Text(opt_view(text))),
    {
        match self.phase {
            StartPhase::Finding => match text {
                Some(binary) => {
                    self.binary = binary.clone();
                    self.act(StartPhase::Dating, Deed::ModifiedTime { path: binary })
                },
                None => self.end(
                    fail(
                        "detrix binary not found. Set DETRIX_BIN env var or run `cargo build -p detrix-cli`".to_owned(),
                    ),
                ),
            },
            StartPhase::Reading => {
                let ports: Option<(u16, u16)> = match text {
                    Some(content) => read_ports(content.as_str()),
                    None => None,
                };
                match ports {
                    Some(p) => {
                        self.http_port = p.0;
                        self.grpc_port = p.1;
                        let path: String = self.pid_path();
                        self.act(StartPhase::Recording, Deed::ReadFile { path })
                    },
                    None => self.pause(),
                }
            },
            _ => {
                let pid: Option<u32> = match text {
                    Some(content) => read_pid(content.as_str()),
                    None => None,
                };
                match pid {
                    Some(p) => self.act(
                        StartPhase::Registering,
                        Deed::RegisterPid { name: "daemon".to_owned(), pid: p },
                    ),
                    None => self.wait_http(),
                }
            },
        }
    }

    fn after_outcome(&mut self, outcome: Result<(), String>) -> (r: StartStep)
        requires
            start_accepts(old(self)@.phase, Reply::Outcome(outcome)@),
        ensures
            r.turn(final(self)@) == on_start_reply(old(self)@, Reply::Outcome(outcome)@),
    {
        match self.phase {
            StartPhase::Writing => match outcome {
                Ok(_) => self.act(StartPhase::Finding, Deed::FindBinary),
                Err(e) => self.end(fail(e)),
            },
            StartPhase::Logging => match outcome {
                Ok(_) => {
                    let config: String = join_path(self.temp_dir.as_str(), "detrix.toml");
                    let command = make_serve_command(
                        self.binary.as_str(),
                        config.as_str(),
                        self.pid_path().as_str(),
                        self.root.as_str(),
                        "detrix_cli=debug,detrix_dap=debug,detrix_application=debug,detrix_api=debug,info",
                        self.log_path().as_str(),
                    );
                    self.act(StartPhase::Spawning, Deed::Spawn { command })
                },
                Err(e) => self.end(fail(e)),
            },
            _ => match outcome {
                Ok(_) => self.act(StartPhase::Timing, Deed::StartTimer),
                Err(e) => self.end(fail(cat2("Could not spawn daemon: ", e.as_str()))),
            },
        }
    }

    /// Takes the answer to the last deed, and goes on.
    pub fn resume(&mut self, reply: Reply) -> (r: StartStep)
        requires
            start_accepts(old(self)@.phase, reply@),
        ensures
            r.turn(final(self)@) == on_start_reply(old(self)@, reply@),
    {
        match reply {
            Reply::Truth(yes) => self.after_truth(yes),
            Reply::Text(text) => self.after_text(text),
            Reply::Outcome(outcome) => self.after_outcome(outcome),
            Reply::Seconds(secs) => {
                let time: Option<String> = match secs {
                    Some(n) => format_utc(n),
                    None => None,
                };
                let text: String = build_time_text(&time);
                let mut printed: Vec<String> = no_words();
                put_word(&mut printed, "=== DAEMON BINARY INFO ===");
                put_word(&mut printed, cat2("  Path: ", self.binary.as_str()).as_str());
                put_word(&mut printed, cat2("  Build time: ", text.as_str()).as_str());
                put_word(&mut printed, "==========================");
                let path: String = self.log_path();
                self.phase = StartPhase::Logging;
                StartStep {
                    printed,
                    warned: no_words(),
                    next: Move::Do(Deed::CreateLog { path }),
                }
            },
            _ => match self.phase {
                StartPhase::Registering => self.wait_http(),
                _ => self.act(
                    StartPhase::Polling,
                    Deed::TimeIsUp { millis: 30000, strictly: false },
                ),
            },
        }
    }
}

/// A deed that the start of a daemon asks for is answered with what it waits for, and it is over
/// exactly when it asks for nothing more.
pub proof fn law_start_proceeds(s: StartView, reply: ReplyView)
    requires
        start_accepts(s.phase, reply),
    ensures
        ({
            let turn = on_start_reply(s, reply);
            &&& turn.next is Finish <==> turn.state.phase == StartPhase::Over
            &&& turn.next matches MoveView::Do(deed) ==> forall|answer: ReplyView|
                deed.is_answered_by(answer) ==> #[trigger] start_accepts(turn.state.phase, answer)
        }),
{
}

/// The start of a daemon ends well only when both of its ports have been waited for in turn and
/// something listens on each.
pub proof fn law_started_means_listening(s: StartView, reply: ReplyView)
    requires
        start_accepts(s.phase, reply),
    ensures
        on_start_reply(s, reply).next == succeeds() <==> s.phase == StartPhase::WaitingGrpc
            && reply == ReplyView::Truth(true),
        on_start_reply(s, reply).state.phase == StartPhase::WaitingGrpc ==> s.phase
            == StartPhase::WaitingHttp && reply == ReplyView::Truth(true),
{
}

/// The ports of a daemon are those that were asked for, until its PID file names both: then they
/// are those, and nothing else changes them.
pub proof fn law_ports_come_from_pid_file(s: StartView, reply: ReplyView)
    requires
        start_accepts(s.phase, reply),
    ensures
        ({
            let after = on_start_reply(s, reply).state;
            let unchanged = after.http_port == s.http_port && after.grpc_port == s.grpc_port;
            if s.phase == StartPhase::Reading {
                match reply->Text_0 {
                    Some(content) => match ports_in(content) {
                        Some(ports) => (after.http_port, after.grpc_port) == ports,
                        None => unchanged,
                    },
                    None => unchanged,
                }
            } else {
                unchanged
            }
        }),
{
}

// ---------------------------------------------------------------------------
// Stopping
// ---------------------------------------------------------------------------

/// The processes that an executor starts itself.
#[derive(Debug, Clone, Copy, PartialEq, Eq, Structural)]
pub enum Role {
    DaemonSpawner,
    Debugpy,
    Delve,
    Lldb,
    CodeLldb,
}

/// A step on the way to stop what runs.
#[derive(Debug)]
pub enum StopStep {
    /// Kill a process that was started, and wait for its end.
    Kill(Role),
    /// Ask a daemon to end, and kill it if it does not.
    KillDaemon(u32),
    /// Find the children of a process, and kill them.
    KillChildren(u32),
    /// Kill a process and what it started.
    KillTree(u32),
    RemoveFile(String),
}

/// The mathematical counterpart of [`StopStep`].
pub enum StopView {
    Kill(Role),
    KillDaemon(u32),
    KillChildren(u32),
    KillTree(u32),
    RemoveFile(Seq<char>),
}

impl View for StopStep {
    type V = StopView;

    open spec fn view(&self) -> StopView {
        match self {
            StopStep::Kill(role) => StopView::Kill(*role),
            StopStep::KillDaemon(pid) => StopView::KillDaemon(*pid),
            StopStep::KillChildren(pid) => StopView::KillChildren(*pid),
            StopStep::KillTree(pid) => StopView::KillTree(*pid),
            StopStep::RemoveFile(path) => StopView::RemoveFile(path@),
        }
    }
}

/// The steps of a list.
pub open spec fn stop_views(steps: Seq<StopStep>) -> Seq<StopView> {
    steps.map_values(|s: StopStep| s@)
}

/// What runs: the processes that were started, by their numbers.
#[derive(Debug, Clone, Copy)]
pub struct Running {
    pub spawner: bool,
    pub debugpy: Option<u32>,
    /// The process of delve, and whether it is alive.
    pub delve: Option<(u32, bool)>,
    pub lldb: Option<u32>,
    pub codelldb: Option<u32>,
}

/// The PID file of a daemon, and what it holds if it can be read.
#[derive(Debug)]
pub struct PidFile {
    pub path: String,
    pub content: Option<String>,
}

/// The process that a PID file names.
pub open spec fn file_pid(file: PidFile) -> Option<u32> {
    match file.content {
        Some(c) => pid_in(c@),
        None => None,
    }
}

/// The steps that stop the daemon and leave the debuggers running.
pub open spec fn daemon_stops(spawner: bool, file: Option<PidFile>) -> Seq<StopView> {
    let first = if spawner {
        Seq::<StopView>::empty().push(StopView::Kill(Role::DaemonSpawner))
    } else {
        Seq::empty()
    };
    match file {
        Some(f) => (match file_pid(f) {
            Some(pid) => first.push(StopView::KillDaemon(pid)),
            None => first,
        }).push(StopView::RemoveFile(f.path@)),
        None => first,
    }
}

/// The steps that stop the daemon and forget its process.
pub open spec fn daemon_ends(spawner: bool, file: Option<PidFile>) -> Seq<StopView> {
    let first = if spawner {
        Seq::<StopView>::empty().push(StopView::Kill(Role::DaemonSpawner))
    } else {
        Seq::empty()
    };
    match file {
        Some(f) => (match file_pid(f) {
            Some(pid) => first.push(StopView::KillDaemon(pid)).push(
                StopView::RemoveFile(pid_file("daemon"@, pid)),
            ),
            None => first,
        }).push(StopView::RemoveFile(f.path@)),
        None => first,
    }
}

/// debugpy is stopped as well.
pub open spec fn debugpy_stops(steps: Seq<StopView>, pid: Option<u32>) -> Seq<StopView> {
    match pid {
        Some(p) => steps.push(StopView::Kill(Role::Debugpy)).push(
            StopView::RemoveFile(pid_file("debugpy"@, p)),
        ),
        None => steps,
    }
}

/// delve is stopped as well, with what it debugs.
pub open spec fn delve_stops(steps: Seq<StopView>, delve: Option<(u32, bool)>) -> Seq<StopView> {
    match delve {
        Some((p, alive)) => (if alive {
            steps.push(StopView::KillChildren(p)).push(StopView::KillTree(p)).push(
                StopView::Kill(Role::Delve),
            )
        } else {
            steps
        }).push(StopView::RemoveFile(pid_file("delve"@, p))),
        None => steps,
    }
}

/// lldb-serve is stopped as well, with what it debugs.
pub open spec fn lldb_stops(steps: Seq<StopView>, pid: Option<u32>) -> Seq<StopView> {
    match pid {
        Some(p) => steps.push(StopView::KillTree(p)).push(StopView::Kill(Role::Lldb)).push(
            StopView::RemoveFile(pid_file("lldb"@, p)),
        ),
        None => steps,
    }
}

/// lldb-serve with CodeLLDB is stopped as well, with what it debugs.
pub open spec fn codelldb_stops(steps: Seq<StopView>, pid: Option<u32>) -> Seq<StopView> {
    match pid {
        Some(p) => steps.push(StopView::KillTree(p)).push(StopView::Kill(Role::CodeLldb)).push(
            StopView::RemoveFile(pid_file("codelldb"@, p)),
        ),
        None => steps,
    }
}

/// The steps that stop everything.
pub open spec fn all_stops(running: Running, file: Option<PidFile>) -> Seq<StopView> {
    codelldb_stops(
        lldb_stops(
            delve_stops(
                debugpy_stops(daemon_ends(running.spawner, file), running.debugpy),
                running.delve,
            ),
            running.lldb,
        ),
        running.codelldb,
    )
}

fn put_stop(steps: &mut Vec<StopStep>, step: StopStep)
    ensures
        stop_views(final(steps)@) == stop_views(old(steps)@).push(step@),
{
    steps.push(step);
    assert(stop_views(steps@) =~= stop_views(old(steps)@).push(step@));
}

fn no_stops() -> (r: Vec<StopStep>)
    ensures
        stop_views(r@) == Seq::<StopView>::empty(),
{
    let r: Vec<StopStep> = Vec::new();
    assert(stop_views(r@) =~= Seq::<StopView>::empty());
    r
}

fn put_forget(steps: &mut Vec<StopStep>, name: &str, pid: u32)
    ensures
        stop_views(final(steps)@) == stop_views(old(steps)@).push(
            StopView::RemoveFile(pid_file(name@, pid)),
        ),
{
    put_stop(steps, StopStep::RemoveFile(unregister_e2e_process(name, pid)));
}

fn read_file_pid(file: &PidFile) -> (r: Option<u32>)
    ensures
        r == file_pid(*file),
{
    match &file.content {
        Some(c) => read_pid(c.as_str()),
        None => None,
    }
}

/// The steps that stop the daemon and leave the debuggers running.
pub fn stop_daemon(spawner: bool, file: &Option<PidFile>) -> (r: Vec<StopStep>)
    ensures
        stop_views(r@) == daemon_stops(spawner, *file),
{
    let mut steps: Vec<StopStep> = no_stops();
    if spawner {
        put_stop(&mut steps, StopStep::Kill(Role::DaemonSpawner));
    }
    match file {
        Some(f) => {
            match read_file_pid(f) {
                Some(pid) => put_stop(&mut steps, StopStep::KillDaemon(pid)),
                None => {},
            }
            put_stop(&mut steps, StopStep::RemoveFile(f.path.clone()));
        },
        None => {},
    }
    steps
}

/// The steps that stop debugpy.
pub fn kill_debugpy(pid: Option<u32>) -> (r: Vec<StopStep>)
    ensures
        stop_views(r@) == debugpy_stops(Seq::empty(), pid),
{
    let mut steps: Vec<StopStep> = no_stops();
    put_debugpy(&mut steps, pid);
    steps
}

fn put_debugpy(steps: &mut Vec<StopStep>, pid: Option<u32>)
    ensures
        stop_views(final(steps)@) == debugpy_stops(stop_views(old(steps)@), pid),
{
    match pid {
        Some(p) => {
            put_stop(steps, StopStep::Kill(Role::Debugpy));
            put_forget(steps, "debugpy", p);
        },
        None => {},
    }
}

/// The steps that stop delve; with the process comes whether it is alive.
pub fn kill_delve(delve: Option<(u32, bool)>) -> (r: Vec<StopStep>)
    ensures
        stop_views(r@) == delve_stops(Seq::empty(), delve),
{
    let mut steps: Vec<StopStep> = no_stops();
    put_delve(&mut steps, delve);
    steps
}

fn put_delve(steps: &mut Vec<StopStep>, delve: Option<(u32, bool)>)
    ensures
        stop_views(final(steps)@) == delve_stops(stop_views(old(steps)@), delve),
{
    match delve {
        Some((p, alive)) => {
            if alive {
                put_stop(steps, StopStep::KillChildren(p));
                put_stop(steps, StopStep::KillTree(p));
                put_stop(steps, StopStep::Kill(Role::Delve));
            }
            put_forget(steps, "delve", p);
        },
        None => {},
    }
}

/// The steps that stop lldb-serve.
pub fn kill_lldb(pid: Option<u32>) -> (r: Vec<StopStep>)
    ensures
        stop_views(r@) == lldb_stops(Seq::empty(), pid),
{
    let mut steps: Vec<StopStep> = no_stops();
    put_lldb(&mut steps, pid);
    steps
}

fn put_lldb(steps: &mut Vec<StopStep>, pid: Option<u32>)
    ensures
        stop_views(final(steps)@) == lldb_stops(stop_views(old(steps)@), pid),
{
    match pid {
        Some(p) => {
            put_stop(steps, StopStep::KillTree(p));
            put_stop(steps, StopStep::Kill(Role::Lldb));
            put_forget(steps, "lldb", p);
        },
        None => {},
    }
}

/// The steps that stop all processes that an executor started.
pub fn stop_all(running: &Running, file: &Option<PidFile>) -> (r: Vec<StopStep>)
    ensures
        stop_views(r@) == all_stops(*running, *file),
{
    let mut steps: Vec<StopStep> = no_stops();
    if running.spawner {
        put_stop(&mut steps, StopStep::Kill(Role::DaemonSpawner));
    }
    match file {
        Some(f) => {
            match read_file_pid(f) {
                Some(pid) => {
                    put_stop(&mut steps, StopStep::KillDaemon(pid));
                    put_forget(&mut steps, "daemon", pid);
                },
                None => {},
            }
            put_stop(&mut steps, StopStep::RemoveFile(f.path.clone()));
        },
        None => {},
    }
    put_debugpy(&mut steps, running.debugpy);
    put_delve(&mut steps, running.delve);
    put_lldb(&mut steps, running.lldb);
    match running.codelldb {
        Some(p) => {
            put_stop(&mut steps, StopStep::KillTree(p));
            put_stop(&mut steps, StopStep::Kill(Role::CodeLldb));
            put_forget(&mut steps, "codelldb", p);
        },
        None => {},
    }
    steps
}

proof fn lemma_push_contains(s: Seq<StopView>, x: StopView, y: StopView)
    ensures
        s.push(x).contains(x),
        s.contains(y) ==> s.push(x).contains(y),
{
    assert(s.push(x)[s.len() as int] == x);
    if s.contains(y) {
        let k = choose|k: int| 0 <= k < s.len() && s[k] == y;
        assert(s.push(x)[k] == y);
    }
}

proof fn lemma_push3(s: Seq<StopView>, a: StopView, b: StopView, c: StopView, y: StopView)
    ensures
        s.push(a).push(b).push(c).contains(a),
        s.push(a).push(b).push(c).contains(b),
        s.push(a).push(b).push(c).contains(c),
        s.contains(y) ==> s.push(a).push(b).push(c).contains(y),
        s.push(a).push(b).contains(a),
        s.push(a).push(b).contains(b),
        s.contains(y) ==> s.push(a).push(b).contains(y),
{
    lemma_push_contains(s, a, y);
    lemma_push_contains(s.push(a), b, a);
    lemma_push_contains(s.push(a), b, y);
    lemma_push_contains(s.push(a).push(b), c, a);
    lemma_push_contains(s.push(a).push(b), c, b);
    lemma_push_contains(s.push(a).push(b), c, y);
}

proof fn lemma_stops_keep(steps: Seq<StopView>, running: Running, y: StopView)
    requires
        steps.contains(y),
    ensures
        debugpy_stops(steps, running.debugpy).contains(y),
        delve_stops(steps, running.delve).contains(y),
        lldb_stops(steps, running.lldb).contains(y),
        codelldb_stops(steps, running.codelldb).contains(y),
{
    match running.debugpy {
        Some(p) => lemma_push3(
            steps,
            StopView::Kill(Role::Debugpy),
            StopView::RemoveFile(pid_file("debugpy"@, p)),
            y,
            y,
        ),
        None => {},
    }
    match running.delve {
        Some((p, alive)) => {
            lemma_push3(
                steps,
                StopView::KillChildren(p),
                StopView::KillTree(p),
                StopView::Kill(Role::Delve),
                y,
            );
            let killed = if alive {
                steps.push(StopView::KillChildren(p)).push(StopView::KillTree(p)).push(
                    StopView::Kill(Role::Delve),
                )
            } else {
                steps
            };
            lemma_push_contains(killed, StopView::RemoveFile(pid_file("delve"@, p)), y);
        },
        None => {},
    }
    match running.lldb {
        Some(p) => lemma_push3(
            steps,
            StopView::KillTree(p),
            StopView::Kill(Role::Lldb),
            StopView::RemoveFile(pid_file("lldb"@, p)),
            y,
        ),
        None => {},
    }
    match running.codelldb {
        Some(p) => lemma_push3(
            steps,
            StopView::KillTree(p),
            StopView::Kill(Role::CodeLldb),
            StopView::RemoveFile(pid_file("codelldb"@, p)),
            y,
        ),
        None => {},
    }
}

/// Whatever an executor started is killed when everything is stopped: the spawner of the daemon,
/// the daemon that its PID file names, and each debugger that runs.
pub proof fn law_stop_all_kills_everything(running: Running, file: Option<PidFile>)
    ensures
        ({
            let steps = all_stops(running, file);
            &&& running.spawner ==> steps.contains(StopView::Kill(Role::DaemonSpawner))
            &&& file matches Some(f) ==> (file_pid(f) matches Some(pid) ==> steps.contains(
                StopView::KillDaemon(pid),
            ))
            &&& running.debugpy is Some ==> steps.contains(StopView::Kill(Role::Debugpy))
            &&& running.delve matches Some((pid, alive)) ==> (alive ==> steps.contains(
                StopView::Kill(Role::Delve),
            ) && steps.contains(StopView::KillTree(pid)))
            &&& running.lldb matches Some(pid) ==> steps.contains(StopView::Kill(Role::Lldb))
                && steps.contains(StopView::KillTree(pid))
            &&& running.codelldb matches Some(pid) ==> steps.contains(
                StopView::Kill(Role::CodeLldb),
            ) && steps.contains(StopView::KillTree(pid))
        }),
{
    let a = daemon_ends(running.spawner, file);
    let b = debugpy_stops(a, running.debugpy);
    let c = delve_stops(b, running.delve);
    let d = lldb_stops(c, running.lldb);
    let spawner = StopView::Kill(Role::DaemonSpawner);
    let first = if running.spawner {
        Seq::<StopView>::empty().push(spawner)
    } else {
        Seq::empty()
    };
    lemma_push_contains(Seq::<StopView>::empty(), spawner, spawner);
    match file {
        Some(f) => {
            lemma_push_contains(first, StopView::RemoveFile(f.path@), spawner);
            match file_pid(f) {
                Some(pid) => {
                    let kill = StopView::KillDaemon(pid);
                    let forget = StopView::RemoveFile(pid_file("daemon"@, pid));
                    let remove = StopView::RemoveFile(f.path@);
                    lemma_push3(first, kill, forget, remove, spawner);
                    lemma_stops_keep(a, running, kill);
                    lemma_stops_keep(b, running, kill);
                    lemma_stops_keep(c, running, kill);
                    lemma_stops_keep(d, running, kill);
                },
                None => {},
            }
        },
        None => {},
    }
    if running.spawner {
        lemma_stops_keep(a, running, spawner);
        lemma_stops_keep(b, running, spawner);
        lemma_stops_keep(c, running, spawner);
        lemma_stops_keep(d, running, spawner);
    }
    match running.debugpy {
        Some(p) => {
            let kill = StopView::Kill(Role::Debugpy);
            let forget = StopView::RemoveFile(pid_file("debugpy"@, p));
            lemma_push3(a, kill, forget, forget, kill);
            lemma_stops_keep(b, running, kill);
            lemma_stops_keep(c, running, kill);
            lemma_stops_keep(d, running, kill);
        },
        None => {},
    }
    match running.delve {
        Some((p, alive)) => {
            let tree = StopView::KillTree(p);
            let kill = StopView::Kill(Role::Delve);
            let forget = StopView::RemoveFile(pid_file("delve"@, p));
            if alive {
                lemma_push3(b, StopView::KillChildren(p), tree, kill, kill);
                let killed = b.push(StopView::KillChildren(p)).push(tree).push(kill);
                lemma_push_contains(killed, forget, tree);
                lemma_push_contains(killed, forget, kill);
                lemma_stops_keep(c, running, tree);
                lemma_stops_keep(d, running, tree);
                lemma_stops_keep(c, running, kill);
                lemma_stops_keep(d, running, kill);
            }
        },
        None => {},
    }
    match running.lldb {
        Some(p) => {
            let tree = StopView::KillTree(p);
            let kill = StopView::Kill(Role::Lldb);
            lemma_push3(c, tree, kill, StopView::RemoveFile(pid_file("lldb"@, p)), kill);
            lemma_stops_keep(d, running, tree);
            lemma_stops_keep(d, running, kill);
        },
        None => {},
    }
    match running.codelldb {
        Some(p) => {
            let tree = StopView::KillTree(p);
            let kill = StopView::Kill(Role::CodeLldb);
            lemma_push3(d, tree, kill, StopView::RemoveFile(pid_file("codelldb"@, p)), kill);
        },
        None => {},
    }
}

/// What to do about a daemon that was asked to end.
#[derive(Debug, Clone, Copy, PartialEq, Eq, Structural)]
pub enum KillNext {
    /// Wait a while, and look whether it has ended.
    Poll,
    /// Nothing: it has ended.
    Nothing,
    /// Kill it.
    Kill,
}

/// What to do about a daemon that was asked to end and looked at a number of times; `gone` is
/// what the last look showed.
pub fn kill_daemon_pid(looks: u32, gone: bool) -> (r: KillNext)
    ensures
        r == (if looks > 0 && gone {
            KillNext::Nothing
        } else if looks < 2 {
            KillNext::Poll
        } else {
            KillNext::Kill
        }),
{
    if looks > 0 && gone {
        KillNext::Nothing
    } else if looks < 2 {
        KillNext::Poll
    } else {
        KillNext::Kill
    }
}

} // verus!
