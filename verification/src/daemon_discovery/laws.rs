//! What the discovery tests ask of a daemon, and what they make of its state.

use vstd::prelude::*;

use crate::daemon_discovery::{
    corrupted_pid_file_steps, missing_pid_file_steps, on_ready_reply, override_judged,
    override_steps, pid_file_json, ready_accepts, runs_after, stale_pid_file_steps, status_found,
    told_state, valid_pid_file_steps, wrong_ports_steps, HarnessView, Judgement, ReadyPhase,
    ReadyView, StatusView, StepView,
};
use crate::executor::daemon::{named_pid, named_ports};
use crate::executor::laws::{has_pair, is_bad_news, law_pid_files_are_read_back};
use crate::json::{json_of_text, lemma_field_at, number_view, JsonView};
use crate::process::{DeedView, MoveView, ReplyView};
use crate::text::{decimal, outline};

verus! {

/// What tells the names apart.
proof fn lemma_names()
    ensures
        outline("pid"@) == (3nat, 'p', 'd', 'i', 'd'),
        outline("ports"@) == (5nat, 'p', 's', 'r', 't'),
        outline("host"@) == (4nat, 'h', 't', 's', 't'),
        outline("http"@) == (4nat, 'h', 'p', 't', 'p'),
        outline("grpc"@) == (4nat, 'g', 'c', 'p', 'c'),
{
    reveal_strlit("pid");
    reveal_strlit("ports");
    reveal_strlit("host");
    reveal_strlit("http");
    reveal_strlit("grpc");
}

/// The PID file that a test writes names the process and the ports that it was written with; one
/// without a process names none.
pub proof fn law_written_pid_files(pid: Option<u32>, http: u16, grpc: u16, host: Seq<char>)
    ensures
        ({
            let info = pid_file_json(pid, http, grpc, host);
            &&& named_pid(info) == pid
            &&& named_ports(info) == Some((http, grpc))
            &&& info.field("host"@) == Some(JsonView::Str(host))
        }),
{
    lemma_names();
    let ports = seq![("http"@, number_view(http as int)), ("grpc"@, number_view(grpc as int))];
    lemma_field_at(ports, "http"@, 0);
    lemma_field_at(ports, "grpc"@, 1);
    let process = match pid {
        Some(p) => number_view(p as int),
        None => JsonView::Null,
    };
    let entries = seq![
        ("pid"@, process),
        ("ports"@, JsonView::Object(ports)),
        ("host"@, JsonView::Str(host)),
    ];
    lemma_field_at(entries, "pid"@, 0);
    lemma_field_at(entries, "ports"@, 1);
    lemma_field_at(entries, "host"@, 2);
    let info = pid_file_json(pid, http, grpc, host);
    assert(info->Object_0 =~= entries);
    match pid {
        Some(p) => law_pid_files_are_read_back(info, p, http, grpc),
        None => {
            assert((http as nat) % 0x1_0000 == http as nat);
            assert((grpc as nat) % 0x1_0000 == grpc as nat);
        },
    }
}

/// A daemon is found exactly where the command succeeds; what it printed is kept whole, and what
/// it printed as its error where it failed.
pub proof fn law_found_daemons(success: bool, stdout: Seq<char>, stderr: Seq<char>)
    ensures
        status_found(success, stdout, stderr) is Found <==> success,
        status_found(success, stdout, stderr) matches StatusView::Found { state, output } ==> output
            == stdout && state == told_state(json_of_text(stdout)),
        status_found(success, stdout, stderr) matches StatusView::NotFound { error } ==> error
            == stderr,
{
}

/// The state is the text that the output names as such; where it names none, it is unknown.
pub proof fn law_told_states(info: Result<JsonView, Seq<char>>)
    ensures
        told_state(info) == (match info {
            Ok(json) => match json.field("state"@) {
                Some(JsonView::Str(state)) => state,
                _ => "unknown"@,
            },
            Err(_) => "unknown"@,
        }),
{
}

/// The daemon is found on a port that is named outright exactly where the command succeeds.
pub proof fn law_overridden_ports(success: bool, stderr: Seq<char>)
    ensures
        override_judged(success, stderr) is Ok <==> success,
{
}

/// What a test asks for at a step.
pub open spec fn asks_for_daemon(step: StepView) -> bool {
    match step {
        StepView::Status(judgement) => judgement != Judgement::NotRunning,
        StepView::StatusOverride => true,
        StepView::NeedPort { open, .. } => open,
        _ => false,
    }
}

/// A test asks for no daemon at a step.
pub open spec fn asks_for_none(step: StepView) -> bool {
    match step {
        StepView::Status(judgement) => judgement == Judgement::NotRunning,
        StepView::NeedPort { open, .. } => !open,
        _ => false,
    }
}

/// A daemon runs wherever a test asks for one, and none runs where it asks for none.
pub open spec fn asks_rightly(steps: Seq<StepView>) -> bool {
    forall|i: int|
        0 <= i < steps.len() ==> {
            &&& asks_for_daemon(#[trigger] steps[i]) ==> runs_after(steps, i as nat)
            &&& asks_for_none(steps[i]) ==> !runs_after(steps, i as nat)
        }
}

/// In every test a daemon runs wherever one is asked for, and none where none is.
pub proof fn law_tests_ask_rightly(h: HarnessView)
    ensures
        asks_rightly(valid_pid_file_steps(h)),
        asks_rightly(corrupted_pid_file_steps(h)),
        asks_rightly(missing_pid_file_steps(h)),
        asks_rightly(stale_pid_file_steps(h)),
        asks_rightly(override_steps(h)),
        asks_rightly(wrong_ports_steps(h)),
{
    reveal_with_fuel(runs_after, 10);
}

/// The steps ask for the state of the daemon with this judgement, and behind a step that meets
/// the condition.
pub open spec fn is_judged_behind(
    steps: Seq<StepView>,
    asked: StepView,
    before: spec_fn(StepView) -> bool,
) -> bool {
    exists|i: int, j: int|
        0 <= i < j < steps.len() && before(#[trigger] steps[i]) && #[trigger] steps[j] == asked
}

/// Each test looks for the daemon by what it is about: by its own PID file, behind one with a
/// wrong process, behind the removal of the file, by a file without a daemon, past a file with
/// wrong ports on a port that is named outright, and with wrong ports alone.
pub proof fn law_tests_are_about(h: HarnessView)
    requires
        h.http_port + 1000 <= u16::MAX,
        h.grpc_port + 1000 <= u16::MAX,
    ensures
        is_judged_behind(
            valid_pid_file_steps(h),
            StepView::Status(Judgement::ByPidFile),
            |s: StepView| s matches StepView::NeedPidFile { exists, message } && exists,
        ),
        is_judged_behind(
            corrupted_pid_file_steps(h),
            StepView::Status(Judgement::DespiteCorruption),
            |s: StepView|
                s matches StepView::WritePidFile { pid, http, grpc } && pid is Some && http
                    == h.http_port && grpc == h.grpc_port,
        ),
        is_judged_behind(
            missing_pid_file_steps(h),
            StepView::Status(Judgement::WithoutPidFile),
            |s: StepView| s is DeletePidFile,
        ),
        is_judged_behind(
            stale_pid_file_steps(h),
            StepView::Status(Judgement::NotRunning),
            |s: StepView| s is WritePidFile,
        ),
        is_judged_behind(
            override_steps(h),
            StepView::StatusOverride,
            |s: StepView|
                s matches StepView::WritePidFile { pid, http, grpc } && pid is None && http
                    != h.http_port && grpc != h.grpc_port,
        ),
        is_judged_behind(
            wrong_ports_steps(h),
            StepView::Status(Judgement::Either),
            |s: StepView|
                s matches StepView::WritePidFile { pid, http, grpc } && pid is None && http
                    != h.http_port && grpc != h.grpc_port,
        ),
{
    let a = valid_pid_file_steps(h);
    assert(a[3] is NeedPidFile && a[4] == StepView::Status(Judgement::ByPidFile));
    let b = corrupted_pid_file_steps(h);
    assert(b[4] is WritePidFile && b[6] == StepView::Status(Judgement::DespiteCorruption));
    let c = missing_pid_file_steps(h);
    assert(c[3] is DeletePidFile && c[6] == StepView::Status(Judgement::WithoutPidFile));
    let d = stale_pid_file_steps(h);
    assert(d[1] is WritePidFile && d[4] == StepView::Status(Judgement::NotRunning));
    let e = override_steps(h);
    assert(e[3] is WritePidFile && e[5] == StepView::StatusOverride);
    let f = wrong_ports_steps(h);
    assert(f[3] is WritePidFile && f[5] == StepView::Status(Judgement::Either));
}

/// The commands that look for the daemon ask for its state as JSON: one by the configuration of
/// the test, the other by the port alone.
pub proof fn law_status_commands(h: HarnessView)
    ensures
        ({
            let by_config = h.status_command();
            let by_port = h.override_command();
            &&& by_config.program == h.binary_path && by_port.program == h.binary_path
            &&& by_config.args[0] == "status"@ && by_port.args[0] == "status"@
            &&& has_pair(by_config.args, "--config"@, h.config_path())
            &&& has_pair(by_config.args, "--format"@, "json"@)
            &&& has_pair(by_port.args, "--format"@, "json"@)
            &&& by_port.args.len() == 3
            &&& by_port.env.contains(("DETRIX_GRPC_PORT_OVERRIDE"@, decimal(h.grpc_port as nat)))
        }),
{
    let by_config = h.status_command().args;
    assert(by_config[1] == "--config"@ && by_config[2] == h.config_path());
    assert(by_config[3] == "--format"@ && by_config[4] == "json"@);
    let by_port = h.override_command();
    assert(by_port.args[1] == "--format"@ && by_port.args[2] == "json"@);
    assert(by_port.env[0] == ("DETRIX_GRPC_PORT_OVERRIDE"@, decimal(h.grpc_port as nat)));
}

/// The start of a daemon fails at once where something could not be done, and else only behind a
/// look at its log when the time is up.
pub proof fn law_failed_starts(s: ReadyView, reply: ReplyView)
    requires
        ready_accepts(s.phase, reply),
    ensures
        (on_ready_reply(s, reply).next matches MoveView::Finish(outcome) && outcome is Err) <==> (
        reply is Outcome && is_bad_news(reply) || s.phase == ReadyPhase::ReadingLog),
        on_ready_reply(s, reply).state.phase == ReadyPhase::ReadingLog <==> s.phase
            == ReadyPhase::Polling && reply == ReplyView::Truth(true),
{
}

/// A daemon is ready when its PID file is there and its own port takes a connection; until then
/// both are looked for again, in that order, behind a pause.
pub proof fn law_readiness(s: ReadyView, reply: ReplyView)
    requires
        ready_accepts(s.phase, reply),
    ensures
        ({
            let turn = on_ready_reply(s, reply);
            &&& turn.next matches MoveView::Do(DeedView::CheckFile { path }) ==> path == s.pid_path
                && s.phase == ReadyPhase::Polling
            &&& turn.next matches MoveView::Do(DeedView::Connect { port, millis }) ==> port
                == s.grpc_port && s.phase == ReadyPhase::Looking && reply == ReplyView::Truth(true)
            &&& turn.next matches MoveView::Do(DeedView::Pause { millis }) ==> reply
                == ReplyView::Truth(false) && (s.phase == ReadyPhase::Looking || s.phase
                == ReadyPhase::Connecting)
            &&& (s.phase == ReadyPhase::Looking || s.phase == ReadyPhase::Connecting) && reply
                == ReplyView::Truth(false) ==> turn.state.phase == ReadyPhase::Pausing
            &&& s.phase == ReadyPhase::Pausing ==> turn.state.phase == ReadyPhase::Polling
            &&& turn.next matches MoveView::Do(DeedView::Spawn { command }) ==> command == s.command
        }),
{
}

} // verus!
