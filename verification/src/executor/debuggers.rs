//! How the debuggers are started and restarted.
//!
//! Each procedure frees its port, builds what is to be debugged where that is needed, starts the
//! debugger, and waits until it listens.

use vstd::prelude::*;

use crate::executor::DebuggerLog;
use crate::paths::{
    debug_path, file_stem, format_path, join_path, parent_of, parent_path, path_joined, stem_of,
};
use crate::process::{
    fail, fails, make_command, no_words, plain_command, put_word, succeed, succeeds, CommandLine,
    CommandView, Deed, DeedView, Move, MoveView, Reply, ReplyView,
};
use crate::text::{cat2, cat3, cat4, decimal, num, opt_view, views};

verus! {

/// The debuggers.
#[derive(Debug, Clone, Copy, PartialEq, Eq, Structural)]
pub enum DebuggerKind {
    Debugpy,
    Delve,
    Lldb,
    CodeLldb,
}

impl DebuggerKind {
    /// The name that its process is recorded under.
    pub open spec fn record(self) -> Seq<char> {
        match self {
            DebuggerKind::Debugpy => "debugpy"@,
            DebuggerKind::Delve => "delve"@,
            DebuggerKind::Lldb => "lldb"@,
            DebuggerKind::CodeLldb => "codelldb"@,
        }
    }

    /// What could not be spawned.
    pub open spec fn spawned(self) -> Seq<char> {
        match self {
            DebuggerKind::Debugpy => "debugpy"@,
            DebuggerKind::Delve => "delve"@,
            DebuggerKind::Lldb => "lldb-serve"@,
            DebuggerKind::CodeLldb => "CodeLLDB"@,
        }
    }

    /// What does not listen.
    pub open spec fn listener(self) -> Seq<char> {
        match self {
            DebuggerKind::Debugpy => "debugpy"@,
            DebuggerKind::Delve => "delve"@,
            DebuggerKind::Lldb => "lldb-serve"@,
            DebuggerKind::CodeLldb => "lldb-serve (CodeLLDB)"@,
        }
    }

    /// How long it may take until it listens, in seconds.
    pub open spec fn patience(self) -> u64 {
        if self == DebuggerKind::Debugpy {
            10
        } else {
            15
        }
    }

    /// The name that its process is recorded under.
    pub fn record_name(&self) -> (r: &'static str)
        ensures
            r@ == self.record(),
    {
        match self {
            DebuggerKind::Debugpy => "debugpy",
            DebuggerKind::Delve => "delve",
            DebuggerKind::Lldb => "lldb",
            DebuggerKind::CodeLldb => "codelldb",
        }
    }

    fn spawned_name(&self) -> (r: &'static str)
        ensures
            r@ == self.spawned(),
    {
        match self {
            DebuggerKind::Debugpy => "debugpy",
            DebuggerKind::Delve => "delve",
            DebuggerKind::Lldb => "lldb-serve",
            DebuggerKind::CodeLldb => "CodeLLDB",
        }
    }

    fn listener_name(&self) -> (r: &'static str)
        ensures
            r@ == self.listener(),
    {
        match self {
            DebuggerKind::Debugpy => "debugpy",
            DebuggerKind::Delve => "delve",
            DebuggerKind::Lldb => "lldb-serve",
            DebuggerKind::CodeLldb => "lldb-serve (CodeLLDB)",
        }
    }

    fn get_patience(&self) -> (r: u64)
        ensures
            r == self.patience(),
    {
        match self {
            DebuggerKind::Debugpy => 10,
            _ => 15,
        }
    }
}

// ---------------------------------------------------------------------------
// Commands
// ---------------------------------------------------------------------------

/// The command that starts debugpy on a script.
pub open spec fn debugpy_command(port: u16, script: Seq<char>) -> CommandView {
    plain_command(
        "python"@,
        seq![
            "-Xfrozen_modules=off"@,
            "-m"@,
            "debugpy"@,
            "--listen"@,
            decimal(port as nat),
            "--wait-for-client"@,
            script,
        ],
        None,
        Some(DebuggerLog::Debugpy.path(port)),
    )
}

/// The command that starts debugpy on a script; it waits for a client.
pub fn start_debugpy_setsid(port: u16, script_path: &str) -> (r: CommandLine)
    ensures
        r@ == debugpy_command(port, script_path@),
{
    let mut args: Vec<String> = no_words();
    put_word(&mut args, "-Xfrozen_modules=off");
    put_word(&mut args, "-m");
    put_word(&mut args, "debugpy");
    put_word(&mut args, "--listen");
    put_word(&mut args, num(port as u64).as_str());
    put_word(&mut args, "--wait-for-client");
    put_word(&mut args, script_path);
    assert(views(args@) =~= debugpy_command(port, script_path@).args);
    make_command("python", args, None, Some(DebuggerLog::Debugpy.log_path(port)))
}

/// The command that starts delve on a binary; `dir` is the directory that the binary is in.
pub open spec fn delve_command(port: u16, binary: Seq<char>, dir: Option<Seq<char>>) -> CommandView {
    plain_command(
        "dlv"@,
        seq![
            "exec"@,
            binary,
            "--headless"@,
            "--listen=:"@ + decimal(port as nat),
            "--api-version=2"@,
            "--accept-multiclient"@,
        ],
        dir,
        Some(DebuggerLog::Delve.path(port)),
    )
}

/// The command that starts delve on a binary, in a directory.
pub fn delve_command_in(port: u16, binary_path: &str, dir: Option<String>) -> (r: CommandLine)
    ensures
        r@ == delve_command(port, binary_path@, opt_view(dir)),
{
    let mut args: Vec<String> = no_words();
    put_word(&mut args, "exec");
    put_word(&mut args, binary_path);
    put_word(&mut args, "--headless");
    put_word(&mut args, cat2("--listen=:", num(port as u64).as_str()).as_str());
    put_word(&mut args, "--api-version=2");
    put_word(&mut args, "--accept-multiclient");
    assert(views(args@) =~= delve_command(port, binary_path@, opt_view(dir)).args);
    make_command("dlv", args, dir, Some(DebuggerLog::Delve.log_path(port)))
}

/// The command that starts delve on a binary, in the directory of the binary.
pub fn start_delve_dap(port: u16, binary_path: &str) -> (r: CommandLine)
    ensures
        r@ == delve_command(port, binary_path@, parent_path(binary_path@)),
{
    let dir: Option<String> = parent_of(binary_path);
    delve_command_in(port, binary_path, dir)
}

/// The command that starts lldb-serve on a binary.
pub open spec fn lldb_command(port: u16, binary: Seq<char>, detrix: Seq<char>) -> CommandView {
    plain_command(
        detrix,
        seq!["lldb-serve"@, binary, "--listen"@, "127.0.0.1:"@ + decimal(port as nat)],
        None,
        Some(DebuggerLog::Lldb.path(port)),
    )
}

/// The command that starts lldb-serve on a binary.
pub fn start_lldb_serve(port: u16, binary_path: &str, detrix_binary: &str) -> (r: CommandLine)
    ensures
        r@ == lldb_command(port, binary_path@, detrix_binary@),
{
    let mut args: Vec<String> = no_words();
    put_word(&mut args, "lldb-serve");
    put_word(&mut args, binary_path);
    put_word(&mut args, "--listen");
    put_word(&mut args, cat2("127.0.0.1:", num(port as u64).as_str()).as_str());
    assert(views(args@) =~= lldb_command(port, binary_path@, detrix_binary@).args);
    make_command(detrix_binary, args, None, Some(DebuggerLog::Lldb.log_path(port)))
}

/// The command that starts lldb-serve on a binary, with CodeLLDB as the adapter.
pub open spec fn codelldb_command(
    port: u16,
    binary: Seq<char>,
    detrix: Seq<char>,
    adapter: Seq<char>,
) -> CommandView {
    plain_command(
        detrix,
        seq![
            "lldb-serve"@,
            binary,
            "--listen"@,
            "127.0.0.1:"@ + decimal(port as nat),
            "--lldb-dap-path"@,
            adapter,
        ],
        None,
        Some(DebuggerLog::CodeLldb.path(port)),
    )
}

/// The command that starts lldb-serve on a binary, with CodeLLDB as the adapter.
pub fn start_lldb_serve_with_codelldb(
    port: u16,
    binary_path: &str,
    detrix_binary: &str,
    adapter: &str,
) -> (r: CommandLine)
    ensures
        r@ == codelldb_command(port, binary_path@, detrix_binary@, adapter@),
{
    let mut args: Vec<String> = no_words();
    put_word(&mut args, "lldb-serve");
    put_word(&mut args, binary_path);
    put_word(&mut args, "--listen");
    put_word(&mut args, cat2("127.0.0.1:", num(port as u64).as_str()).as_str());
    put_word(&mut args, "--lldb-dap-path");
    put_word(&mut args, adapter);
    assert(views(args@) =~= codelldb_command(
        port,
        binary_path@,
        detrix_binary@,
        adapter@,
    ).args);
    make_command(detrix_binary, args, None, Some(DebuggerLog::CodeLldb.log_path(port)))
}

/// The command that builds a Go program with debug symbols.
pub open spec fn go_build_command(source: Seq<char>, binary: Seq<char>, dir: Seq<char>) -> CommandView {
    plain_command(
        "go"@,
        seq!["build"@, "-gcflags=all=-N -l"@, "-o"@, binary, source],
        Some(dir),
        None,
    )
}

/// The binary that a Go program is built to, given the directory and the stem of its source.
pub open spec fn go_binary(dir: Option<Seq<char>>, stem: Option<Seq<char>>) -> Result<
    Seq<char>,
    Seq<char>,
> {
    match dir {
        Some(d) => match stem {
            Some(s) => Ok(path_joined(d, s)),
            None => Err("Invalid file name"@),
        },
        None => Err("Invalid source path"@),
    }
}

/// A text or an error.
pub open spec fn text_or_error(r: Result<String, String>) -> Result<Seq<char>, Seq<char>> {
    match r {
        Ok(t) => Ok(t@),
        Err(e) => Err(e@),
    }
}

/// The binary that a Go program is built to, given the directory and the stem of its source.
pub fn go_binary_path(dir: &Option<String>, stem: &Option<String>) -> (r: Result<String, String>)
    ensures
        text_or_error(r) == go_binary(opt_view(*dir), opt_view(*stem)),
{
    match dir {
        Some(d) => match stem {
            Some(s) => Ok(join_path(d.as_str(), s.as_str())),
            None => Err("Invalid file name".to_owned()),
        },
        None => Err("Invalid source path".to_owned()),
    }
}

fn go_build(source: &str, binary: &str, dir: &str) -> (r: CommandLine)
    ensures
        r@ == go_build_command(source@, binary@, dir@),
{
    let mut args: Vec<String> = no_words();
    put_word(&mut args, "build");
    put_word(&mut args, "-gcflags=all=-N -l");
    put_word(&mut args, "-o");
    put_word(&mut args, binary);
    put_word(&mut args, source);
    assert(views(args@) =~= go_build_command(source@, binary@, dir@).args);
    make_command("go", args, Some(dir.to_owned()), None)
}

/// The command that builds the Rust fixture.
pub open spec fn rust_build_command(dir: Seq<char>) -> CommandView {
    plain_command("cargo"@, seq!["build"@], Some(dir), None)
}

fn rust_build(dir: &str) -> (r: CommandLine)
    ensures
        r@ == rust_build_command(dir@),
{
    let mut args: Vec<String> = no_words();
    put_word(&mut args, "build");
    assert(views(args@) =~= seq!["build"@]);
    make_command("cargo", args, Some(dir.to_owned()), None)
}

/// The directory of the Rust fixture: two levels above its source.
pub open spec fn fixture_dir(source: Seq<char>) -> Option<Seq<char>> {
    match parent_path(source) {
        Some(p) => parent_path(p),
        None => None,
    }
}

fn fixture_dir_of(source: &str) -> (r: Option<String>)
    ensures
        opt_view(r) == fixture_dir(source@),
{
    match parent_of(source) {
        Some(p) => parent_of(p.as_str()),
        None => None,
    }
}

/// The binary that the Rust fixture is built to.
pub open spec fn fixture_binary(dir: Seq<char>) -> Seq<char> {
    path_joined(dir, "target/debug/detrix_example_app"@)
}

// ---------------------------------------------------------------------------
// The procedure
// ---------------------------------------------------------------------------

/// How far a procedure is: what its last deed was.
#[derive(Debug, Clone, Copy, PartialEq, Eq, Structural)]
pub enum LaunchPhase {
    Freed,
    Paused,
    Checked,
    Building,
    Built,
    StillThere,
    Found,
    Adapter,
    Spawning,
    Registered,
    Waiting,
    Over,
}

/// A procedure that starts or restarts a debugger.
#[derive(Debug)]
pub struct Launch {
    pub kind: DebuggerKind,
    /// Whether the debugger ran before, on a binary that is built.
    pub restart: bool,
    pub port: u16,
    /// The script, the source or the binary to debug.
    pub path: String,
    pub phase: LaunchPhase,
    /// The binary to debug, once it is known.
    pub binary: String,
    /// The binary under test, once it is known.
    pub detrix: String,
    /// What the build printed.
    pub stdout: String,
    /// What came of building the Rust fixture, which is done once: its binary, or the error.
    pub built: Option<Result<String, String>>,
}

/// The mathematical counterpart of [`Launch`].
pub struct LaunchView {
    pub kind: DebuggerKind,
    pub restart: bool,
    pub port: u16,
    pub path: Seq<char>,
    pub phase: LaunchPhase,
    pub binary: Seq<char>,
    pub detrix: Seq<char>,
    pub stdout: Seq<char>,
    pub built: Option<Result<Seq<char>, Seq<char>>>,
}

/// What came of a build.
pub open spec fn built_view(b: Option<Result<String, String>>) -> Option<
    Result<Seq<char>, Seq<char>>,
> {
    match b {
        Some(r) => Some(text_or_error(r)),
        None => None,
    }
}

impl View for Launch {
    type V = LaunchView;

    open spec fn view(&self) -> LaunchView {
        LaunchView {
            kind: self.kind,
            restart: self.restart,
            port: self.port,
            path: self.path@,
            phase: self.phase,
            binary: self.binary@,
            detrix: self.detrix@,
            stdout: self.stdout@,
            built: built_view(self.built),
        }
    }
}

/// A turn of a procedure: the state that it leaves, what is said, and what comes next.
pub struct LaunchTurn {
    pub state: LaunchView,
    pub notices: Seq<Seq<char>>,
    pub next: MoveView,
}

/// A deed follows.
pub open spec fn then_do(s: LaunchView, phase: LaunchPhase, deed: DeedView) -> LaunchTurn {
    LaunchTurn {
        state: LaunchView { phase, ..s },
        notices: Seq::empty(),
        next: MoveView::Do(deed),
    }
}

/// The procedure fails.
pub open spec fn then_fail(s: LaunchView, message: Seq<char>) -> LaunchTurn {
    LaunchTurn {
        state: LaunchView { phase: LaunchPhase::Over, ..s },
        notices: Seq::empty(),
        next: fails(message),
    }
}

/// The build of the Rust fixture fails, once and for all.
pub open spec fn then_fail_build(s: LaunchView, message: Seq<char>) -> LaunchTurn {
    then_fail(LaunchView { built: Some(Err(message)), ..s }, message)
}

/// The port was checked.
pub open spec fn on_checked(s: LaunchView, free: bool) -> LaunchTurn {
    if !free {
        then_fail(
            s,
            "Port "@ + decimal(s.port as nat) + (if s.restart {
                " still in use after cleanup"@
            } else {
                " is still in use after cleanup"@
            }),
        )
    } else {
        match s.kind {
            DebuggerKind::Debugpy => then_do(
                s,
                LaunchPhase::Spawning,
                DeedView::Spawn { command: debugpy_command(s.port, s.path) },
            ),
            DebuggerKind::Delve => if s.restart {
                then_do(
                    s,
                    LaunchPhase::Spawning,
                    DeedView::Spawn {
                        command: delve_command(s.port, s.path, parent_path(s.path)),
                    },
                )
            } else {
                match go_binary(parent_path(s.path), file_stem(s.path)) {
                    Ok(binary) => then_do(
                        LaunchView { binary, ..s },
                        LaunchPhase::Building,
                        DeedView::Run {
                            command: go_build_command(
                                s.path,
                                binary,
                                parent_path(s.path).unwrap(),
                            ),
                        },
                    ),
                    Err(e) => then_fail(s, e),
                }
            },
            _ => if s.restart {
                then_do(
                    LaunchView { binary: s.path, ..s },
                    LaunchPhase::Found,
                    DeedView::FindBinary,
                )
            } else {
                match s.built {
                    Some(Ok(binary)) => then_do(
                        LaunchView { binary, ..s },
                        LaunchPhase::StillThere,
                        DeedView::CheckFile { path: binary },
                    ),
                    Some(Err(e)) => then_fail(s, e),
                    None => match fixture_dir(s.path) {
                        Some(dir) => LaunchTurn {
                            state: LaunchView {
                                binary: fixture_binary(dir),
                                phase: LaunchPhase::Building,
                                ..s
                            },
                            notices: Seq::<Seq<char>>::empty().push(
                                "Building Rust fixture at "@ + debug_path(dir),
                            ),
                            next: MoveView::Do(
                                DeedView::Run { command: rust_build_command(dir) },
                            ),
                        },
                        None => then_fail_build(s, "Invalid source path"@),
                    },
                }
            },
        }
    }
}

/// The build ran.
pub open spec fn on_ran(s: LaunchView, ran: Result<crate::process::RunView, Seq<char>>) -> LaunchTurn {
    if s.kind == DebuggerKind::Delve {
        match ran {
            Err(e) => then_fail(s, "Failed to build Go binary: "@ + e),
            Ok(o) => if !o.success {
                then_fail(s, "Go build failed: "@ + o.stderr)
            } else {
                then_do(
                    s,
                    LaunchPhase::Spawning,
                    DeedView::Spawn {
                        command: delve_command(s.port, s.binary, parent_path(s.binary)),
                    },
                )
            },
        }
    } else {
        match ran {
            Err(e) => then_fail_build(s, "Failed to build Rust binary: "@ + e),
            Ok(o) => if !o.success {
                then_fail_build(s, "Rust build failed: "@ + o.stderr)
            } else {
                then_do(
                    LaunchView { stdout: o.stdout, ..s },
                    LaunchPhase::Built,
                    DeedView::CheckFile { path: s.binary },
                )
            },
        }
    }
}

/// The procedure goes on.
pub open spec fn on_reply(s: LaunchView, reply: ReplyView) -> LaunchTurn {
    match s.phase {
        LaunchPhase::Freed => then_do(s, LaunchPhase::Paused, DeedView::Pause { millis: 300 }),
        LaunchPhase::Paused => then_do(
            s,
            LaunchPhase::Checked,
            DeedView::CheckPort { port: s.port },
        ),
        LaunchPhase::Checked => on_checked(s, reply->Truth_0),
        LaunchPhase::Building => on_ran(s, reply->Ran_0),
        LaunchPhase::Built => if reply->Truth_0 {
            LaunchTurn {
                state: LaunchView {
                    phase: LaunchPhase::StillThere,
                    built: Some(Ok(s.binary)),
                    ..s
                },
                notices: Seq::<Seq<char>>::empty().push(
                    "Rust fixture built successfully: "@ + debug_path(s.binary),
                ),
                next: MoveView::Do(DeedView::CheckFile { path: s.binary }),
            }
        } else {
            then_fail_build(
                s,
                "Rust build succeeded but binary not found at "@ + debug_path(s.binary)
                    + ". Stdout: "@ + s.stdout,
            )
        },
        LaunchPhase::StillThere => if reply->Truth_0 {
            then_do(s, LaunchPhase::Found, DeedView::FindBinary)
        } else {
            then_fail(
                s,
                "Rust binary not found at "@ + debug_path(s.binary)
                    + ". Run 'cargo build' in fixtures/rust/"@,
            )
        },
        LaunchPhase::Found => match reply->Text_0 {
            Some(detrix) => if s.kind == DebuggerKind::CodeLldb {
                then_do(LaunchView { detrix, ..s }, LaunchPhase::Adapter, DeedView::FindAdapter)
            } else {
                then_do(
                    s,
                    LaunchPhase::Spawning,
                    DeedView::Spawn { command: lldb_command(s.port, s.binary, detrix) },
                )
            },
            None => then_fail(s, "Failed to find detrix binary"@),
        },
        LaunchPhase::Adapter => match reply->Text_0 {
            Some(adapter) => then_do(
                s,
                LaunchPhase::Spawning,
                DeedView::Spawn { command: codelldb_command(s.port, s.binary, s.detrix, adapter) },
            ),
            None => then_fail(
                s,
                "Could not spawn CodeLLDB: CodeLLDB not found. Install the CodeLLDB VSCode extension or let Detrix auto-download it."@,
            ),
        },
        LaunchPhase::Spawning => match reply->Outcome_0 {
            Ok(_) => then_do(
                s,
                LaunchPhase::Registered,
                DeedView::Register { name: s.kind.record() },
            ),
            Err(e) => then_fail(
                s,
                (if s.restart {
                    "Failed to restart "@
                } else {
                    "Could not spawn "@
                }) + s.kind.spawned() + ": "@ + e,
            ),
        },
        LaunchPhase::Registered => then_do(
            s,
            LaunchPhase::Waiting,
            DeedView::WaitPort { port: s.port, secs: s.kind.patience() },
        ),
        _ => if reply->Truth_0 {
            LaunchTurn {
                state: LaunchView { phase: LaunchPhase::Over, ..s },
                notices: Seq::empty(),
                next: succeeds(),
            }
        } else {
            then_fail(
                s,
                s.kind.listener() + " not listening on port "@ + decimal(s.port as nat) + (
                if s.restart {
                    " after restart"@
                } else {
                    " after spawn"@
                }),
            )
        },
    }
}

/// A reply is of the kind that a procedure waits for.
pub open spec fn accepts(phase: LaunchPhase, reply: ReplyView) -> bool {
    match phase {
        LaunchPhase::Freed => reply is Done,
        LaunchPhase::Paused => reply is Done,
        LaunchPhase::Checked => reply is Truth,
        LaunchPhase::Building => reply is Ran,
        LaunchPhase::Built => reply is Truth,
        LaunchPhase::StillThere => reply is Truth,
        LaunchPhase::Found => reply is Text,
        LaunchPhase::Adapter => reply is Text,
        LaunchPhase::Spawning => reply is Outcome,
        LaunchPhase::Registered => reply is Done,
        LaunchPhase::Waiting => reply is Truth,
        LaunchPhase::Over => false,
    }
}

/// A procedure that has begun.
pub open spec fn begun(
    kind: DebuggerKind,
    restart: bool,
    port: u16,
    path: Seq<char>,
    built: Option<Result<Seq<char>, Seq<char>>>,
) -> LaunchView {
    LaunchView {
        kind,
        restart,
        port,
        path,
        phase: LaunchPhase::Freed,
        binary: Seq::empty(),
        detrix: Seq::empty(),
        stdout: Seq::empty(),
        built,
    }
}

/// What is said in a turn, and what comes next.
#[derive(Debug)]
pub struct LaunchStep {
    pub notices: Vec<String>,
    pub next: Move,
}

fn step(next: Move) -> (r: LaunchStep)
    ensures
        views(r.notices@) == Seq::<Seq<char>>::empty(),
        r.next@ == next@,
{
    LaunchStep { notices: no_words(), next }
}

impl Launch {
    fn begin(
        kind: DebuggerKind,
        restart: bool,
        port: u16,
        path: &str,
        built: Option<Result<String, String>>,
    ) -> (r: (Launch, Deed))
        ensures
            r.0@ == begun(kind, restart, port, path@, built_view(built)),
            r.1@ == (DeedView::FreePort { port, spare_self: !restart }),
    {
        proof {
            reveal_strlit("");
        }
        let launch = Launch {
            kind,
            restart,
            port,
            path: path.to_owned(),
            phase: LaunchPhase::Freed,
            binary: "".to_owned(),
            detrix: "".to_owned(),
            stdout: "".to_owned(),
            built,
        };
        assert(launch.binary@ =~= Seq::<char>::empty());
        (launch, Deed::FreePort { port, spare_self: !restart })
    }

    /// Starts debugpy on a script.
    pub fn start_debugpy(port: u16, script_path: &str) -> (r: (Launch, Deed))
        ensures
            r.0@ == begun(DebuggerKind::Debugpy, false, port, script_path@, None),
            r.1@ == (DeedView::FreePort { port, spare_self: true }),
    {
        Launch::begin(DebuggerKind::Debugpy, false, port, script_path, None)
    }

    /// Builds a Go program and starts delve on it.
    pub fn start_delve(port: u16, source_path: &str) -> (r: (Launch, Deed))
        ensures
            r.0@ == begun(DebuggerKind::Delve, false, port, source_path@, None),
            r.1@ == (DeedView::FreePort { port, spare_self: true }),
    {
        Launch::begin(DebuggerKind::Delve, false, port, source_path, None)
    }

    /// Builds the Rust fixture, unless that was done, and starts lldb-serve on it.
    pub fn start_lldb(
        port: u16,
        source_path: &str,
        built: Option<Result<String, String>>,
    ) -> (r: (Launch, Deed))
        ensures
            r.0@ == begun(DebuggerKind::Lldb, false, port, source_path@, built_view(built)),
            r.1@ == (DeedView::FreePort { port, spare_self: true }),
    {
        Launch::begin(DebuggerKind::Lldb, false, port, source_path, built)
    }

    /// Builds the Rust fixture, unless that was done, and starts lldb-serve with CodeLLDB on it.
    pub fn start_codelldb(
        port: u16,
        source_path: &str,
        built: Option<Result<String, String>>,
    ) -> (r: (Launch, Deed))
        ensures
            r.0@ == begun(DebuggerKind::CodeLldb, false, port, source_path@, built_view(built)),
            r.1@ == (DeedView::FreePort { port, spare_self: true }),
    {
        Launch::begin(DebuggerKind::CodeLldb, false, port, source_path, built)
    }

    /// Restarts delve on a binary.
    pub fn restart_delve(port: u16, binary_path: &str) -> (r: (Launch, Deed))
        ensures
            r.0@ == begun(DebuggerKind::Delve, true, port, binary_path@, None),
            r.1@ == (DeedView::FreePort { port, spare_self: false }),
    {
        Launch::begin(DebuggerKind::Delve, true, port, binary_path, None)
    }

    /// Restarts lldb-serve on a binary.
    pub fn restart_lldb(port: u16, binary_path: &str) -> (r: (Launch, Deed))
        ensures
            r.0@ == begun(DebuggerKind::Lldb, true, port, binary_path@, None),
            r.1@ == (DeedView::FreePort { port, spare_self: false }),
    {
        Launch::begin(DebuggerKind::Lldb, true, port, binary_path, None)
    }

    fn act(&mut self, phase: LaunchPhase, deed: Deed) -> (r: LaunchStep)
        ensures
            (LaunchTurn { state: final(self)@, notices: views(r.notices@), next: r.next@ })
                == then_do(old(self)@, phase, deed@),
    {
        self.phase = phase;
        step(Move::Do(deed))
    }

    fn give_up(&mut self, message: String) -> (r: LaunchStep)
        ensures
            (LaunchTurn { state: final(self)@, notices: views(r.notices@), next: r.next@ })
                == then_fail(old(self)@, message@),
    {
        self.phase = LaunchPhase::Over;
        step(fail(message))
    }

    fn give_up_build(&mut self, message: String) -> (r: LaunchStep)
        ensures
            (LaunchTurn { state: final(self)@, notices: views(r.notices@), next: r.next@ })
                == then_fail_build(old(self)@, message@),
    {
        self.built = Some(Err(message.clone()));
        self.give_up(message)
    }

    fn after_check(&mut self, free: bool) -> (r: LaunchStep)
        ensures
            (LaunchTurn { state: final(self)@, notices: views(r.notices@), next: r.next@ })
                == on_checked(old(self)@, free),
    {
        if !free {
            let port: String = num(self.port as u64);
            let message: String = if self.restart {
                cat3("Port ", port.as_str(), " still in use after cleanup")
            } else {
                cat3("Port ", port.as_str(), " is still in use after cleanup")
            };
            return self.give_up(message);
        }
        match self.kind {
            DebuggerKind::Debugpy => {
                let command = start_debugpy_setsid(self.port, self.path.as_str());
                self.act(LaunchPhase::Spawning, Deed::Spawn { command })
            },
            DebuggerKind::Delve => {
                if self.restart {
                    let command = start_delve_dap(self.port, self.path.as_str());
                    self.act(LaunchPhase::Spawning, Deed::Spawn { command })
                } else {
                    let dir: Option<String> = parent_of(self.path.as_str());
                    let stem: Option<String> = stem_of(self.path.as_str());
                    match go_binary_path(&dir, &stem) {
                        Ok(binary) => {
                            let parent: String = match dir {
                                Some(d) => d,
                                None => "".to_owned(),
                            };
                            let command = go_build(
                                self.path.as_str(),
                                binary.as_str(),
                                parent.as_str(),
                            );
                            self.binary = binary;
                            self.act(LaunchPhase::Building, Deed::Run { command })
                        },
                        Err(e) => self.give_up(e),
                    }
                }
            },
            _ => {
                if self.restart {
                    self.binary = self.path.clone();
                    return self.act(LaunchPhase::Found, Deed::FindBinary);
                }
                let known: Option<Result<String, String>> = match &self.built {
                    Some(Ok(b)) => Some(Ok(b.clone())),
                    Some(Err(e)) => Some(Err(e.clone())),
                    None => None,
                };
                match known {
                    Some(Ok(binary)) => {
                        self.binary = binary.clone();
                        self.act(LaunchPhase::StillThere, Deed::CheckFile { path: binary })
                    },
                    Some(Err(e)) => self.give_up(e),
                    None => match fixture_dir_of(self.path.as_str()) {
                        Some(dir) => {
                            let command = rust_build(dir.as_str());
                            self.binary = join_path(
                                dir.as_str(),
                                "target/debug/detrix_example_app",
                            );
                            self.phase = LaunchPhase::Building;
                            let mut notices: Vec<String> = no_words();
                            put_word(
                                &mut notices,
                                cat2(
                                    "Building Rust fixture at ",
                                    format_path(dir.as_str()).as_str(),
                                ).as_str(),
                            );
                            LaunchStep { notices, next: Move::Do(Deed::Run { command }) }
                        },
                        None => self.give_up_build("Invalid source path".to_owned()),
                    },
                }
            },
        }
    }

    fn after_build(&mut self, ran: Result<crate::process::RunOutput, String>) -> (r: LaunchStep)
        ensures
            (LaunchTurn { state: final(self)@, notices: views(r.notices@), next: r.next@ })
                == on_ran(old(self)@, Reply::Ran(ran)@->Ran_0),
    {
        if self.kind == DebuggerKind::Delve {
            match ran {
                Err(e) => self.give_up(cat2("Failed to build Go binary: ", e.as_str())),
                Ok(o) => {
                    if !o.success {
                        self.give_up(cat2("Go build failed: ", o.stderr.as_str()))
                    } else {
                        let command = start_delve_dap(self.port, self.binary.as_str());
                        self.act(LaunchPhase::Spawning, Deed::Spawn { command })
                    }
                },
            }
        } else {
            match ran {
                Err(e) => self.give_up_build(cat2("Failed to build Rust binary: ", e.as_str())),
                Ok(o) => {
                    if !o.success {
                        self.give_up_build(cat2("Rust build failed: ", o.stderr.as_str()))
                    } else {
                        self.stdout = o.stdout;
                        let path: String = self.binary.clone();
                        self.act(LaunchPhase::Built, Deed::CheckFile { path })
                    }
                },
            }
        }
    }

    /// Takes the answer to the last deed, and goes on.
    pub fn resume(&mut self, reply: Reply) -> (r: LaunchStep)
        requires
            accepts(old(self)@.phase, reply@),
        ensures
            (LaunchTurn { state: final(self)@, notices: views(r.notices@), next: r.next@ })
                == on_reply(old(self)@, reply@),
    {
        match self.phase {
            LaunchPhase::Freed => return self.act(
                LaunchPhase::Paused,
                Deed::Pause { millis: 300 },
            ),
            LaunchPhase::Paused => {
                let port: u16 = self.port;
                return self.act(LaunchPhase::Checked, Deed::CheckPort { port });
            },
            LaunchPhase::Registered => {
                let port: u16 = self.port;
                let secs: u64 = self.kind.get_patience();
                return self.act(LaunchPhase::Waiting, Deed::WaitPort { port, secs });
            },
            _ => {},
        }
        match reply {
            Reply::Truth(yes) => match self.phase {
                LaunchPhase::Checked => self.after_check(yes),
                LaunchPhase::Built => {
                    let shown: String = format_path(self.binary.as_str());
                    if yes {
                        let path: String = self.binary.clone();
                        self.built = Some(Ok(self.binary.clone()));
                        self.phase = LaunchPhase::StillThere;
                        let mut notices: Vec<String> = no_words();
                        put_word(
                            &mut notices,
                            cat2("Rust fixture built successfully: ", shown.as_str()).as_str(),
                        );
                        LaunchStep { notices, next: Move::Do(Deed::CheckFile { path }) }
                    } else {
                        let message: String = cat4(
                            "Rust build succeeded but binary not found at ",
                            shown.as_str(),
                            ". Stdout: ",
                            self.stdout.as_str(),
                        );
                        self.give_up_build(message)
                    }
                },
                LaunchPhase::StillThere => {
                    if yes {
                        self.act(LaunchPhase::Found, Deed::FindBinary)
                    } else {
                        let shown: String = format_path(self.binary.as_str());
                        self.give_up(
                            cat3(
                                "Rust binary not found at ",
                                shown.as_str(),
                                ". Run 'cargo build' in fixtures/rust/",
                            ),
                        )
                    }
                },
                _ => {
                    if yes {
                        self.phase = LaunchPhase::Over;
                        step(succeed())
                    } else {
                        let port: String = num(self.port as u64);
                        let when: &str = if self.restart {
                            " after restart"
                        } else {
                            " after spawn"
                        };
                        let message: String = cat4(
                            self.kind.listener_name(),
                            " not listening on port ",
                            port.as_str(),
                            when,
                        );
                        self.give_up(message)
                    }
                },
            },
            Reply::Ran(ran) => self.after_build(ran),
            Reply::Text(found) => match self.phase {
                LaunchPhase::Found => match found {
                    Some(detrix) => {
                        if self.kind == DebuggerKind::CodeLldb {
                            self.detrix = detrix;
                            self.act(LaunchPhase::Adapter, Deed::FindAdapter)
                        } else {
                            let command = start_lldb_serve(
                                self.port,
                                self.binary.as_str(),
                                detrix.as_str(),
                            );
                            self.act(LaunchPhase::Spawning, Deed::Spawn { command })
                        }
                    },
                    None => self.give_up("Failed to find detrix binary".to_owned()),
                },
                _ => match found {
                    Some(adapter) => {
                        let command = start_lldb_serve_with_codelldb(
                            self.port,
                            self.binary.as_str(),
                            self.detrix.as_str(),
                            adapter.as_str(),
                        );
                        self.act(LaunchPhase::Spawning, Deed::Spawn { command })
                    },
                    None => self.give_up(
                        "Could not spawn CodeLLDB: CodeLLDB not found. Install the CodeLLDB VSCode extension or let Detrix auto-download it.".to_owned(),
                    ),
                },
            },
            Reply::Outcome(spawned) => match spawned {
                Ok(_) => {
                    let name: String = self.kind.record_name().to_owned();
                    self.act(LaunchPhase::Registered, Deed::Register { name })
                },
                Err(e) => {
                    let what: &str = if self.restart {
                        "Failed to restart "
                    } else {
                        "Could not spawn "
                    };
                    let message: String = cat4(what, self.kind.spawned_name(), ": ", e.as_str());
                    self.give_up(message)
                },
            },
            _ => self.give_up("".to_owned()),
        }
    }
}

// ---------------------------------------------------------------------------
// Laws
// ---------------------------------------------------------------------------

/// How far a phase is from the end.
pub open spec fn distance(phase: LaunchPhase) -> nat {
    match phase {
        LaunchPhase::Freed => 11,
        LaunchPhase::Paused => 10,
        LaunchPhase::Checked => 9,
        LaunchPhase::Building => 8,
        LaunchPhase::Built => 7,
        LaunchPhase::StillThere => 6,
        LaunchPhase::Found => 5,
        LaunchPhase::Adapter => 4,
        LaunchPhase::Spawning => 3,
        LaunchPhase::Registered => 2,
        LaunchPhase::Waiting => 1,
        LaunchPhase::Over => 0,
    }
}

/// Every turn of a procedure leads nearer to its end. A deed that it asks for is answered with
/// what it waits for, and it is over exactly when it asks for nothing more.
pub proof fn law_launch_proceeds(s: LaunchView, reply: ReplyView)
    requires
        accepts(s.phase, reply),
    ensures
        ({
            let turn = on_reply(s, reply);
            &&& distance(turn.state.phase) < distance(s.phase)
            &&& turn.next is Finish <==> turn.state.phase == LaunchPhase::Over
            &&& turn.next matches MoveView::Do(deed) ==> forall|answer: ReplyView|
                deed.is_answered_by(answer) ==> #[trigger] accepts(turn.state.phase, answer)
        }),
{
}

/// A procedure ends well only when something listens on its port.
pub proof fn law_success_means_listening(s: LaunchView, reply: ReplyView)
    requires
        accepts(s.phase, reply),
    ensures
        on_reply(s, reply).next == succeeds() <==> s.phase == LaunchPhase::Waiting && reply
            == ReplyView::Truth(true),
{
}

/// The Rust fixture is built at most once: what came of it is kept, and a procedure that knows
/// it does not build again.
pub proof fn law_fixture_is_built_once(s: LaunchView, reply: ReplyView)
    requires
        accepts(s.phase, reply),
        s.phase == LaunchPhase::Checked,
        s.kind == DebuggerKind::Lldb || s.kind == DebuggerKind::CodeLldb,
        s.built is Some,
    ensures
        on_reply(s, reply).state.built == s.built,
        !(on_reply(s, reply).next matches MoveView::Do(deed) && deed is Run),
{
}

} // verus!
