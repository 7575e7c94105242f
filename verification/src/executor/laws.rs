//! What goes wrong when daemons and debuggers are started, and with which words they are started.

use vstd::prelude::*;

use crate::executor::daemon::{
    daemon_config, daemon_stops, file_pid, named_pid, named_ports, on_start_reply, start_accepts,
    PidFile, Role, StartPhase, StartView, StopView,
};
use crate::executor::debuggers::{
    accepts, debugpy_command, go_build_command, on_reply, DebuggerKind, LaunchPhase, LaunchView,
};
use crate::executor::kills::{tree_kill, KillStepView};
use crate::executor::waiting::{on_wait_input, PortWait, WaitInput, WaitNext};
use crate::executor::{
    is_our_command, log_lines, pids_in_lines, processes_to_kill, target_dirs, DebuggerLog,
};
use crate::json::{holds_number, JsonView};
use crate::paths::path_joined;
use crate::process::{DeedView, MoveView, ReplyView};
use crate::text::laws::law_found_texts;
use crate::text::{
    bool_text, decimal, has_text, lines, lowercase, parsed_signed, parsed_unsigned, trimmed, words,
};

verus! {

/// A command line has a word with another right behind it.
pub open spec fn has_pair(args: Seq<Seq<char>>, name: Seq<char>, value: Seq<char>) -> bool {
    exists|i: int|
        0 <= i && i + 1 < args.len() && #[trigger] args[i] == name && args[i + 1] == value
}

/// A reply reports that something did not go well.
pub open spec fn is_bad_news(reply: ReplyView) -> bool {
    match reply {
        ReplyView::Truth(truth) => !truth,
        ReplyView::Text(text) => text is None,
        ReplyView::Outcome(outcome) => outcome is Err,
        ReplyView::Ran(ran) => match ran {
            Ok(run) => !run.success,
            Err(_) => true,
        },
        _ => false,
    }
}

// ---------------------------------------------------------------------------
// Debuggers
// ---------------------------------------------------------------------------

/// Bad news ends the launch of a debugger with an error, at every step: a port that is not free,
/// a build that fails, a binary that is missing, a debugger that cannot be started, one that does
/// not listen.
pub proof fn law_bad_news_ends_a_launch(s: LaunchView, reply: ReplyView)
    requires
        accepts(s.phase, reply),
        is_bad_news(reply),
    ensures
        on_reply(s, reply).next matches MoveView::Finish(outcome) && outcome is Err,
{
}

/// Good news never ends a launch with an error, but where the file to launch names no place to
/// build in or its build failed before.
pub proof fn law_good_news_goes_on(s: LaunchView, reply: ReplyView)
    requires
        accepts(s.phase, reply),
        !is_bad_news(reply),
        s.phase != LaunchPhase::Checked || s.restart || s.kind == DebuggerKind::Debugpy,
    ensures
        !(on_reply(s, reply).next matches MoveView::Finish(outcome) && outcome is Err),
{
}

/// The detrix binary and its adapter are looked for only where the debugger needs them.
pub open spec fn phase_fits(s: LaunchView) -> bool {
    match s.phase {
        LaunchPhase::Building => s.kind != DebuggerKind::Debugpy,
        LaunchPhase::Built => s.kind == DebuggerKind::Lldb || s.kind == DebuggerKind::CodeLldb,
        LaunchPhase::StillThere => s.kind == DebuggerKind::Lldb || s.kind == DebuggerKind::CodeLldb,
        LaunchPhase::Found => s.kind == DebuggerKind::Lldb || s.kind == DebuggerKind::CodeLldb,
        LaunchPhase::Adapter => s.kind == DebuggerKind::CodeLldb,
        _ => true,
    }
}

/// A launch stays in phases that fit its debugger.
pub proof fn law_phases_fit(s: LaunchView, reply: ReplyView)
    requires
        accepts(s.phase, reply),
        phase_fits(s),
    ensures
        phase_fits(on_reply(s, reply).state),
{
}

/// A debugger that is started runs the file to launch, or what was built of it, on the port of
/// the launch, and writes the log of that port.
pub proof fn law_started_debuggers(s: LaunchView, reply: ReplyView)
    requires
        accepts(s.phase, reply),
        phase_fits(s),
    ensures
        on_reply(s, reply).next matches MoveView::Do(DeedView::Spawn { command }) ==> match s.kind {
            DebuggerKind::Debugpy => {
                &&& command.program == "python"@
                &&& has_pair(command.args, "-m"@, "debugpy"@)
                &&& has_pair(command.args, "--listen"@, decimal(s.port as nat))
                &&& command.args.contains("--wait-for-client"@)
                &&& command.args.last() == s.path
                &&& command.log == Some(DebuggerLog::Debugpy.path(s.port))
            },
            DebuggerKind::Delve => {
                &&& command.program == "dlv"@
                &&& command.args[0] == "exec"@
                &&& command.args[1] == (if s.phase == LaunchPhase::Checked {
                    s.path
                } else {
                    s.binary
                })
                &&& command.args.contains("--headless"@)
                &&& command.args.contains("--accept-multiclient"@)
                &&& command.args.contains("--listen=:"@ + decimal(s.port as nat))
                &&& command.log == Some(DebuggerLog::Delve.path(s.port))
            },
            DebuggerKind::Lldb => {
                &&& s.phase == LaunchPhase::Found && reply == ReplyView::Text(Some(command.program))
                &&& command.args[0] == "lldb-serve"@ && command.args[1] == s.binary
                &&& has_pair(command.args, "--listen"@, "127.0.0.1:"@ + decimal(s.port as nat))
                &&& command.log == Some(DebuggerLog::Lldb.path(s.port))
            },
            DebuggerKind::CodeLldb => {
                &&& command.program == s.detrix
                &&& command.args[0] == "lldb-serve"@ && command.args[1] == s.binary
                &&& has_pair(command.args, "--listen"@, "127.0.0.1:"@ + decimal(s.port as nat))
                &&& s.phase == LaunchPhase::Adapter && reply is Text && reply->Text_0 is Some
                    && has_pair(command.args, "--lldb-dap-path"@, reply->Text_0->0)
                &&& command.log == Some(DebuggerLog::CodeLldb.path(s.port))
            },
        },
{
    if let MoveView::Do(DeedView::Spawn { command }) = on_reply(s, reply).next {
        let args = command.args;
        let port = decimal(s.port as nat);
        match s.kind {
            DebuggerKind::Debugpy => {
                assert(args == debugpy_command(s.port, s.path).args);
                assert(args[1] == "-m"@ && args[2] == "debugpy"@);
                assert(args[3] == "--listen"@ && args[4] == port);
                assert(args[5] == "--wait-for-client"@);
            },
            DebuggerKind::Delve => {
                assert(args[2] == "--headless"@);
                assert(args[3] == "--listen=:"@ + port);
                assert(args[5] == "--accept-multiclient"@);
            },
            DebuggerKind::Lldb => {
                assert(args[2] == "--listen"@ && args[3] == "127.0.0.1:"@ + port);
            },
            DebuggerKind::CodeLldb => {
                assert(args[2] == "--listen"@ && args[3] == "127.0.0.1:"@ + port);
                assert(args[4] == "--lldb-dap-path"@ && args[5] == reply->Text_0->0);
            },
        }
    }
}

/// A launch keeps to its port: what it frees, checks and waits for is that one, and it waits for
/// the debugger that it has just registered.
pub proof fn law_launch_keeps_to_its_port(s: LaunchView, reply: ReplyView)
    requires
        accepts(s.phase, reply),
    ensures
        ({
            let turn = on_reply(s, reply);
            &&& turn.state.port == s.port && turn.state.kind == s.kind
            &&& turn.state.path == s.path && turn.state.restart == s.restart
            &&& turn.next matches MoveView::Do(DeedView::CheckPort { port }) ==> port == s.port
            &&& turn.next matches MoveView::Do(DeedView::WaitPort { port, secs }) ==> port == s.port
                && s.phase == LaunchPhase::Registered
            &&& turn.next matches MoveView::Do(DeedView::Register { name }) ==> s.phase
                == LaunchPhase::Spawning
        }),
{
}

/// A Go binary is built of the source without optimisations, in the directory that is given.
pub proof fn law_go_builds(source: Seq<char>, binary: Seq<char>, dir: Seq<char>)
    ensures
        ({
            let command = go_build_command(source, binary, dir);
            &&& command.program == "go"@ && command.args[0] == "build"@
            &&& command.args.contains("-gcflags=all=-N -l"@)
            &&& has_pair(command.args, "-o"@, binary)
            &&& command.args.last() == source
            &&& command.dir == Some(dir)
        }),
{
    let args = go_build_command(source, binary, dir).args;
    assert(args[1] == "-gcflags=all=-N -l"@);
    assert(args[2] == "-o"@ && args[3] == binary);
}

// ---------------------------------------------------------------------------
// The daemon
// ---------------------------------------------------------------------------

/// The start of a daemon fails exactly where its configuration or its log cannot be written, its
/// binary is not found, it cannot be started, or one of its two ports is waited for in vain.
pub proof fn law_failed_starts(s: StartView, reply: ReplyView)
    requires
        start_accepts(s.phase, reply),
    ensures
        (on_start_reply(s, reply).next matches MoveView::Finish(outcome) && outcome is Err)
            <==> is_bad_news(reply) && match s.phase {
            StartPhase::Writing => true,
            StartPhase::Finding => true,
            StartPhase::Logging => true,
            StartPhase::Spawning => true,
            StartPhase::WaitingHttp => true,
            StartPhase::WaitingGrpc => true,
            _ => false,
        },
{
}

/// The ports that are waited for are those of the daemon, the one for HTTP first; the process that
/// is registered is the one that its PID file names, and the file is looked for again until the
/// time is up.
pub proof fn law_start_deeds(s: StartView, reply: ReplyView)
    requires
        start_accepts(s.phase, reply),
    ensures
        ({
            let turn = on_start_reply(s, reply);
            &&& turn.next matches MoveView::Do(DeedView::WaitPort { port, secs }) ==> port == (
            if turn.state.phase == StartPhase::WaitingHttp {
                turn.state.http_port
            } else {
                turn.state.grpc_port
            })
            &&& turn.next matches MoveView::Do(DeedView::Spawn { command }) ==> command.program
                == s.binary && command.dir == Some(s.root) && command.log == Some(s.log_path())
                && command.args[0] == "serve"@ && has_pair(
                command.args,
                "--config"@,
                s.config_path(),
            ) && has_pair(command.args, "--pid-file"@, s.pid_path()) && command.args.contains(
                "--daemon"@,
            )
            &&& turn.next matches MoveView::Do(DeedView::ReadFile { path }) ==> path
                == s.pid_path()
            &&& turn.next matches MoveView::Do(DeedView::CheckFile { path }) ==> path
                == s.pid_path()
            &&& s.phase == StartPhase::Polling && reply == ReplyView::Truth(false)
                ==> turn.state.phase == StartPhase::Looking
            &&& turn.warned.len() > 0 <==> s.phase == StartPhase::Polling && reply
                == ReplyView::Truth(true)
        }),
{
    if let MoveView::Do(DeedView::Spawn { command }) = on_start_reply(s, reply).next {
        let args = command.args;
        assert(args[1] == "--config"@ && args[2] == s.config_path());
        assert(args[3] == "--daemon"@);
        assert(args[4] == "--pid-file"@ && args[5] == s.pid_path());
    }
}

/// A process id and ports that are written into a PID file as numbers are read back from it.
pub proof fn law_pid_files_are_read_back(info: JsonView, pid: u32, http: u16, grpc: u16)
    requires
        holds_number(info, "pid"@, Some(pid as int)),
        info.field("ports"@) is Some,
        holds_number(info.field("ports"@)->0, "http"@, Some(http as int)),
        holds_number(info.field("ports"@)->0, "grpc"@, Some(grpc as int)),
    ensures
        named_pid(info) == Some(pid),
        named_ports(info) == Some((http, grpc)),
{
    assert((pid as nat) % 0x1_0000_0000 == pid as nat);
    assert((http as nat) % 0x1_0000 == http as nat);
    assert((grpc as nat) % 0x1_0000 == grpc as nat);
}

/// A PID file without a whole number for the process, or for one of the two ports, names none.
pub proof fn law_incomplete_pid_files(info: JsonView)
    ensures
        !(info.field("pid"@) matches Some(v) && v is Number) ==> named_pid(info) is None,
        info.field("ports"@) is None ==> named_ports(info) is None,
        info.field("ports"@) matches Some(ports) ==> {
            &&& !(ports.field("http"@) matches Some(v) && v is Number) ==> named_ports(info) is None
            &&& !(ports.field("grpc"@) matches Some(v) && v is Number) ==> named_ports(info) is None
        },
{
}

// ---------------------------------------------------------------------------
// Waiting and killing
// ---------------------------------------------------------------------------

/// A port counts as listened on exactly where the listing succeeds and prints something.
pub proof fn law_listening(s: PortWait, input: WaitInput)
    requires
        input is Probed,
    ensures
        on_wait_input(s, input).1 == WaitNext::Over(true) <==> match input->outcome {
            Ok(output) => output.success && output.stdout@.len() > 0,
            Err(_) => false,
        },
        on_wait_input(s, input).1 != WaitNext::Over(true) ==> on_wait_input(s, input).1 is Pause,
{
}

/// While there is time, the port itself is looked at; when the time is up, nothing more is.
pub proof fn law_time_is_looked_at(s: PortWait, is_up: bool)
    ensures
        ({
            let next = on_wait_input(s, WaitInput::Time { is_up }).1;
            &&& is_up ==> next == WaitNext::Over(false)
            &&& !is_up ==> (next matches WaitNext::Probe(command) && has_pair(
                command.args,
                "-i"@,
                ":"@ + decimal(s.port as nat),
            ))
        }),
{
    if !is_up {
        let next = on_wait_input(s, WaitInput::Time { is_up }).1;
        assert(next->Probe_0.args[0] == "-i"@);
        assert(next->Probe_0.args[1] == ":"@ + decimal(s.port as nat));
    }
}

/// A process tree is asked to end before it is killed, with a pause between: its whole group, and
/// its children by the number of their parent.
pub proof fn law_trees_are_asked_first(pid: u32, poll_interval: u64)
    requires
        0 < pid <= i32::MAX,
    ensures
        ({
            let steps = tree_kill(pid, poll_interval);
            exists|asked: int, paused: int, killed: int|
                #![trigger steps[asked], steps[paused], steps[killed]]
                0 <= asked < paused < killed < steps.len() && steps[asked]
                    == KillStepView::Terminate((-pid) as i32) && steps[paused]
                    == KillStepView::Pause(poll_interval) && steps[killed] == KillStepView::Kill(
                    (-pid) as i32,
                )
        }),
        forall|i: int|
            0 <= i < tree_kill(pid, poll_interval).len() && (#[trigger] tree_kill(
                pid,
                poll_interval,
            )[i]) is Run ==> has_pair(
                tree_kill(pid, poll_interval)[i]->Run_0.args,
                "-P"@,
                decimal(pid as nat),
            ),
{
    let steps = tree_kill(pid, poll_interval);
    assert(steps[0] == KillStepView::Terminate((-pid) as i32));
    assert(steps[1] == KillStepView::Pause(poll_interval));
    assert(steps[4] == KillStepView::Kill((-pid) as i32));
    assert forall|i: int| 0 <= i < steps.len() && (#[trigger] steps[i]) is Run implies has_pair(
        steps[i]->Run_0.args,
        "-P"@,
        decimal(pid as nat),
    ) by {
        let args = steps[i]->Run_0.args;
        assert(i == 2 || i == 5);
        assert(args[1] == "-P"@ && args[2] == decimal(pid as nat));
    }
}

// ---------------------------------------------------------------------------
// What is found, and what is stopped
// ---------------------------------------------------------------------------

/// Every process of ours that is listed behind the heading is killed, but for the one that is
/// spared.
pub proof fn law_all_ours_are_killed(
    listed: Seq<Seq<char>>,
    own: Option<i32>,
    n: nat,
    i: int,
    pid: int,
)
    requires
        1 <= i < n <= listed.len(),
        words(listed[i]).len() >= 2,
        is_our_command(lowercase(words(listed[i])[0])),
        parsed_signed(words(listed[i])[1], i32::MIN as int, i32::MAX as int) == Some(pid),
        own matches Some(o) ==> o != pid,
    ensures
        processes_to_kill(listed, own, n).contains(pid),
    decreases n,
{
    let all = processes_to_kill(listed, own, n);
    let rest = processes_to_kill(listed, own, (n - 1) as nat);
    if i == n - 1 {
        assert(all[rest.len() as int] == pid);
    } else {
        law_all_ours_are_killed(listed, own, (n - 1) as nat, i, pid);
        let k = choose|k: int| 0 <= k < rest.len() && rest[k] == pid;
        assert(all[k] == pid);
    }
}

/// The numbers of processes come in the order of their lines: a line behind the others adds its
/// number, and nothing where it is none.
pub proof fn law_listed_pids(listed: Seq<Seq<char>>, line: Seq<char>)
    ensures
        pids_in_lines(Seq::empty(), 0).len() == 0,
        pids_in_lines(listed.push(line), listed.len() + 1) == (match parsed_unsigned(
            trimmed(line),
            u32::MAX as nat,
        ) {
            Some(pid) => pids_in_lines(listed, listed.len()).push(pid),
            None => pids_in_lines(listed, listed.len()),
        }),
{
    let longer = listed.push(line);
    assert(longer[longer.len() - 1] == line);
    lemma_pids_prefix(listed, longer, listed.len());
}

proof fn lemma_pids_prefix(listed: Seq<Seq<char>>, longer: Seq<Seq<char>>, n: nat)
    requires
        n <= listed.len() <= longer.len(),
        forall|i: int| 0 <= i < listed.len() ==> #[trigger] longer[i] == listed[i],
    ensures
        pids_in_lines(longer, n) == pids_in_lines(listed, n),
    decreases n,
{
    if n > 0 {
        lemma_pids_prefix(listed, longer, (n - 1) as nat);
        assert(longer[n - 1] == listed[n - 1]);
    }
}

/// A daemon is stopped whole: its spawner where there is one, the process that its PID file names,
/// and then the file itself goes; nothing else is touched.
pub proof fn law_stopped_daemons(spawner: bool, file: Option<PidFile>)
    ensures
        ({
            let steps = daemon_stops(spawner, file);
            &&& spawner <==> steps.contains(StopView::Kill(Role::DaemonSpawner))
            &&& file matches Some(f) ==> steps.last() == StopView::RemoveFile(f.path@)
            &&& file matches Some(f) ==> (file_pid(f) matches Some(pid) ==> steps.contains(
                StopView::KillDaemon(pid),
            ))
            &&& file is None ==> steps.len() <= 1
            &&& steps.len() == (if spawner {
                1int
            } else {
                0
            }) + (if file is Some {
                1int
            } else {
                0
            }) + (if file is Some && file_pid(file->0) is Some {
                1int
            } else {
                0
            })
        }),
{
    let steps = daemon_stops(spawner, file);
    if spawner {
        assert(steps[0] == StopView::Kill(Role::DaemonSpawner));
    }
    if let Some(f) = file {
        if let Some(pid) = file_pid(f) {
            assert(steps[steps.len() - 2] == StopView::KillDaemon(pid));
        }
    }
}

/// Of a log the last lines are shown, as many as are asked for and there are; of the log of a
/// daemon the first thirty too. A log that cannot be read is told to be missing.
pub proof fn law_shown_logs(
    header: Seq<char>,
    content: Option<Seq<char>>,
    missing: Seq<char>,
    footer: Seq<char>,
    n: nat,
)
    ensures
        ({
            let shown = log_lines(header, content, missing, footer, n);
            &&& shown.len() >= 2 && shown[0] == header && shown.last() == footer
            &&& content is None ==> shown.len() == 3 && shown[1] == missing
            &&& content matches Some(c) ==> {
                let all = lines(c);
                let m = if n >= all.len() {
                    all.len()
                } else {
                    n
                };
                &&& shown.len() == m + 2
                &&& forall|i: int|
                    0 <= i < m ==> #[trigger] shown[i + 1] == all[all.len() - m + i]
            }
        }),
{
}

/// What is built is looked for in the directory that is named outright, then in the home, then
/// below the workspace, which is always looked at.
pub proof fn law_target_dirs(
    target_dir: Option<Seq<char>>,
    home: Option<Seq<char>>,
    root: Seq<char>,
)
    ensures
        ({
            let dirs = target_dirs(target_dir, home, root);
            &&& dirs.len() > 0 && dirs.last() == path_joined(root, "target"@)
            &&& target_dir matches Some(t) ==> dirs[0] == t
            &&& home matches Some(h) ==> dirs.len() >= 2 && dirs[dirs.len() - 2] == path_joined(
                h,
                "detrix/target"@,
            )
            &&& target_dir is None && home is None ==> dirs.len() == 1
        }),
{
}

/// The configuration of a daemon names, each in its own section, the workspace, the database, the
/// PID file, whether another port may be taken, and the host with the port for REST and for gRPC.
pub proof fn law_daemon_configs(
    root: Seq<char>,
    db: Seq<char>,
    pid: Seq<char>,
    port_fallback: bool,
    host: Seq<char>,
    http_port: u16,
    grpc_port: u16,
)
    ensures
        ({
            let config = daemon_config(root, db, pid, port_fallback, host, http_port, grpc_port);
            &&& has_text(config, "\"\n\n[storage]\nstorage_type = \"sqlite\"\npath = \""@ + db)
            &&& has_text(config, "\"\n\n[daemon]\npid_file = \""@ + pid)
            &&& has_text(config, "\"\n\n[api]\nport_fallback = "@ + bool_text(port_fallback))
            &&& has_text(
                config,
                "\n\n[api.rest]\nenabled = true\nhost = \""@ + host + "\"\nport = "@ + decimal(
                    http_port as nat,
                ),
            )
            &&& has_text(
                config,
                "\n\n[api.grpc]\nenabled = true\nhost = \""@ + host + "\"\nport = "@ + decimal(
                    grpc_port as nat,
                ),
            )
        }),
{
    let start = "\n[metadata]\nversion = \"1.0\"\n\n[project]\nbase_path = \""@ + root;
    let storage = "\"\n\n[storage]\nstorage_type = \"sqlite\"\npath = \""@ + db;
    let daemon = "\"\n\n[daemon]\npid_file = \""@ + pid;
    let api = "\"\n\n[api]\nport_fallback = "@ + bool_text(port_fallback);
    let rest = "\n\n[api.rest]\nenabled = true\nhost = \""@ + host + "\"\nport = "@ + decimal(
        http_port as nat,
    );
    let grpc = "\n\n[api.grpc]\nenabled = true\nhost = \""@ + host + "\"\nport = "@ + decimal(
        grpc_port as nat,
    );
    let end = "\n\n[safety]\nenable_ast_analysis = false\n"@;
    let config = daemon_config(root, db, pid, port_fallback, host, http_port, grpc_port);
    assert(config =~= start + storage + daemon + api + rest + grpc + end);
    lemma_six_parts(start, storage, daemon, api, rest, grpc, end);
}

/// Each part of a text is found in it.
proof fn lemma_six_parts(
    a: Seq<char>,
    b: Seq<char>,
    c: Seq<char>,
    d: Seq<char>,
    e: Seq<char>,
    f: Seq<char>,
    g: Seq<char>,
)
    ensures
        ({
            let all = a + b + c + d + e + f + g;
            &&& has_text(all, b) && has_text(all, c) && has_text(all, d)
            &&& has_text(all, e) && has_text(all, f)
        }),
{
    let all = a + b + c + d + e + f + g;
    lemma_part(all, a, b, c + d + e + f + g);
    lemma_part(all, a + b, c, d + e + f + g);
    lemma_part(all, a + b + c, d, e + f + g);
    lemma_part(all, a + b + c + d, e, f + g);
    lemma_part(all, a + b + c + d + e, f, g);
}

proof fn lemma_part(all: Seq<char>, before: Seq<char>, part: Seq<char>, behind: Seq<char>)
    requires
        all =~= before + part + behind,
    ensures
        has_text(all, part),
{
    law_found_texts(all, part);
    assert(all == before + part + behind);
}

} // verus!
