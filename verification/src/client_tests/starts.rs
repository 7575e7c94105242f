//! What goes wrong when a client is started, with which words it is started, and where its
//! control plane is looked for.

use vstd::prelude::*;

use crate::client_tests::config::{
    law_env_insert, law_spawn_env, prebuild_args, spawn_args, spawn_env, var_value, vars_distinct,
    with_var, ClientLanguage, ConfigView,
};
use crate::client_tests::process_tester::{
    announced_port, on_spawn_reply, spawn_accepts, SpawnPhase, SpawnView,
};
use crate::client_tests::python_tester::{on_python_reply, python_accepts, PythonPhase, PythonView};
use crate::executor::laws::{has_pair, is_bad_news};
use crate::process::{DeedView, MoveView, ReplyView};
use crate::text::{decimal, has_prefix, law_decimal_round_trip};

verus! {

/// A client that is started fails at once where its fixture or its directory is missing, where
/// its log or its process cannot be had, when its time is up, where its output cannot be read, and
/// where it ends before it announces its port; else it does not fail.
pub proof fn law_failed_clients(s: SpawnView, reply: ReplyView)
    requires
        spawn_accepts(s.phase, reply),
    ensures
        (on_spawn_reply(s, reply).next matches MoveView::Finish(outcome) && outcome is Err) <==> (
        match s.phase {
            SpawnPhase::CheckingFixture => reply == ReplyView::Truth(false),
            SpawnPhase::CheckingDir => reply == ReplyView::Truth(false),
            SpawnPhase::Logging => is_bad_news(reply),
            SpawnPhase::Cloning => is_bad_news(reply),
            SpawnPhase::Spawning => is_bad_news(reply),
            SpawnPhase::CheckingTime => reply == ReplyView::Truth(true) || s.line is Err,
            SpawnPhase::CheckingExit => !is_bad_news(reply),
            _ => false,
        }),
{
}

/// A client is there exactly when it has announced its port, or when its output ends.
pub proof fn law_started_clients(s: SpawnView, reply: ReplyView)
    requires
        spawn_accepts(s.phase, reply),
    ensures
        (on_spawn_reply(s, reply).next matches MoveView::Finish(outcome) && outcome is Ok) <==> {
            ||| s.phase == SpawnPhase::LoggingLine && (s.line matches Ok(line) && announced_port(
                line,
            ) is Some)
            ||| s.phase == SpawnPhase::Reading && reply == ReplyView::Line(Ok(None))
        },
{
}

/// A client is started on the port that it was given, or on a free one where it was given none;
/// every line that it writes goes to its log and is looked at before the next is read.
pub proof fn law_client_deeds(s: SpawnView, reply: ReplyView)
    requires
        spawn_accepts(s.phase, reply),
    ensures
        ({
            let turn = on_spawn_reply(s, reply);
            &&& turn.next is Do && turn.next->Do_0 is AllocatePort <==> s.phase
                == SpawnPhase::CheckingFixture && reply == ReplyView::Truth(true) && s.port == 0
            &&& s.phase == SpawnPhase::Allocating ==> turn.state.port == reply->Port_0
                && turn.state.control_port == reply->Port_0
            &&& s.phase != SpawnPhase::Allocating ==> turn.state.port == s.port
            &&& s.phase == SpawnPhase::Reading ==> (reply->Line_0 matches Ok(Some(line))
                ==> turn.state.line == Ok::<Seq<char>, Seq<char>>(line))
            &&& turn.next matches MoveView::Do(DeedView::LogLine { path, line }) ==> path == s.log()
                && s.line == Ok::<Seq<char>, Seq<char>>(line)
            &&& turn.next matches MoveView::Do(DeedView::CheckFile { path }) ==> path == s.dir()
            &&& turn.next is Do && turn.next->Do_0 is ReadLine ==> s.phase == SpawnPhase::Timing
                || s.phase == SpawnPhase::CheckingExit && reply == ReplyView::Text(None)
        }),
{
}

/// A line announces a port where it names one behind the address of this machine, whichever way
/// the address is written; the port is the number that stands there.
pub proof fn law_announced_ports(port: u16)
    ensures
        announced_port("Control plane: http://127.0.0.1:"@ + decimal(port as nat)) == Some(
            port as nat,
        ),
        announced_port("Control plane: http://localhost:"@ + decimal(port as nat)) == Some(
            port as nat,
        ),
{
    law_decimal_round_trip(port as nat, u16::MAX as nat);
    let digits = decimal(port as nat);
    let a = "Control plane: http://127.0.0.1:"@;
    let b = "Control plane: http://localhost:"@;
    assert((a + digits).subrange(a.len() as int, (a + digits).len() as int) =~= digits);
    assert((a + digits).subrange(0, a.len() as int) =~= a);
    assert((b + digits).subrange(b.len() as int, (b + digits).len() as int) =~= digits);
    assert((b + digits).subrange(0, b.len() as int) =~= b);
    reveal_strlit("Control plane: http://127.0.0.1:");
    reveal_strlit("Control plane: http://localhost:");
    assert((b + digits)[22] == 'l');
    assert(a[22] == '1');
    assert((b + digits).subrange(0, a.len() as int)[22] == 'l');
}

/// A line that announces a port names the address of this machine at its beginning.
pub proof fn law_other_lines_announce_nothing(line: Seq<char>)
    requires
        !has_prefix(line, "Control plane: http://127.0.0.1:"@),
        !has_prefix(line, "Control plane: http://localhost:"@),
    ensures
        announced_port(line) is None,
{
}

/// A client is started in its directory with its own words, its output goes to its log, and it is
/// told the daemon, its port and its name; its output is not buffered.
pub proof fn law_client_processes(s: SpawnView, reply: ReplyView)
    requires
        spawn_accepts(s.phase, reply),
        vars_distinct(s.config.env),
    ensures
        on_spawn_reply(s, reply).next matches MoveView::Do(DeedView::SpawnPiped { command }) ==> {
            &&& (command.program, command.args) == spawn_args(s.config, s.fixture())
            &&& command.dir == Some(s.dir())
            &&& command.log == Some(s.log())
            &&& var_value(command.env, "DETRIX_DAEMON_URL"@) == Some(s.daemon_url)
            &&& var_value(command.env, "DETRIX_CONTROL_PORT"@) == Some(decimal(s.port as nat))
            &&& var_value(command.env, "DETRIX_CLIENT_NAME"@) == Some("test-client"@)
            &&& var_value(command.env, "PYTHONUNBUFFERED"@) == Some("1"@)
        },
{
    let env = spawn_env(s.config.env, s.daemon_url, s.port);
    let key = "PYTHONUNBUFFERED"@;
    law_spawn_env(s.config.env, s.daemon_url, s.port, key);
    reveal_strlit("DETRIX_DAEMON_URL");
    reveal_strlit("DETRIX_CONTROL_PORT");
    reveal_strlit("DETRIX_CLIENT_NAME");
    reveal_strlit("PYTHONUNBUFFERED");
    assert("DETRIX_DAEMON_URL"@.len() == 17 && "DETRIX_CONTROL_PORT"@.len() == 19);
    assert("DETRIX_CLIENT_NAME"@.len() == 18 && key.len() == 16);
    let a = with_var(s.config.env, "DETRIX_DAEMON_URL"@, s.daemon_url);
    let b = with_var(a, "DETRIX_CONTROL_PORT"@, decimal(s.port as nat));
    law_env_insert(s.config.env, "DETRIX_DAEMON_URL"@, s.daemon_url, key);
    law_env_insert(a, "DETRIX_CONTROL_PORT"@, decimal(s.port as nat), key);
    law_env_insert(b, "DETRIX_CLIENT_NAME"@, "test-client"@, key);
    law_env_insert(env, key, "1"@, "DETRIX_DAEMON_URL"@);
    law_env_insert(env, key, "1"@, "DETRIX_CONTROL_PORT"@);
    law_env_insert(env, key, "1"@, "DETRIX_CLIENT_NAME"@);
}

/// A client that is already built is run by itself; any other is run by the tool of its language,
/// with its fixture between its own words.
pub proof fn law_client_commands(c: ConfigView, fixture: Seq<char>)
    ensures
        c.compiled_binary matches Some(b) ==> spawn_args(c, fixture) == ("./"@ + b, Seq::<
            Seq<char>,
        >::empty()),
        c.compiled_binary is None ==> {
            let (program, args) = spawn_args(c, fixture);
            &&& program == c.language.command()
            &&& args.len() == c.before.len() + 1 + c.after.len()
            &&& args[c.before.len() as int] == fixture
            &&& forall|i: int| 0 <= i < c.before.len() ==> #[trigger] args[i] == c.before[i]
            &&& forall|i: int|
                0 <= i < c.after.len() ==> #[trigger] c.after[i] == args[c.before.len() + 1 + i]
        },
{
}

/// A Python client is not built before it runs. A Rust client is built from its manifest with its
/// own words behind; a Go client is built without optimisations, into its binary where it has one.
pub proof fn law_prebuild_commands(c: ConfigView, fixture: Seq<char>)
    ensures
        prebuild_args(c, fixture) is Some <==> c.language != ClientLanguage::Python,
        prebuild_args(c, fixture) matches Some((program, args)) ==> {
            &&& program == c.language.command()
            &&& args[0] == "build"@
            &&& c.language == ClientLanguage::Rust ==> has_pair(args, "--manifest-path"@, fixture)
            &&& c.language == ClientLanguage::Rust ==> args.subrange(3, args.len() as int)
                == c.after
            &&& c.language == ClientLanguage::Go ==> args.contains("-gcflags=all=-N -l"@)
                && args.last() == "."@
            &&& c.language == ClientLanguage::Go ==> (c.compiled_binary matches Some(b) ==> has_pair(
                args,
                "-o"@,
                b,
            ))
        },
{
    if let Some((program, args)) = prebuild_args(c, fixture) {
        if c.language == ClientLanguage::Rust {
            assert(args[1] == "--manifest-path"@ && args[2] == fixture);
            assert(args.subrange(3, args.len() as int) =~= c.after);
        } else {
            assert(args[1] == "-gcflags=all=-N -l"@);
            if c.compiled_binary is Some {
                assert(args[2] == "-o"@ && args[3] == c.compiled_binary->0);
            }
        }
    }
}

/// A Python client is started on the port that was allocated for it, with the daemon that it
/// reports to, and is there exactly when something listens on that port; bad news ends its start.
pub proof fn law_python_clients(s: PythonView, reply: ReplyView)
    requires
        python_accepts(s.phase, reply),
    ensures
        ({
            let turn = on_python_reply(s, reply);
            &&& (turn.next matches MoveView::Finish(outcome) && outcome is Err) <==> is_bad_news(
                reply,
            )
            &&& s.phase == PythonPhase::Allocating ==> turn.state.port == reply->Port_0
            &&& s.phase != PythonPhase::Allocating ==> turn.state.port == s.port
            &&& turn.next matches MoveView::Do(DeedView::WaitPort { port, secs }) ==> port == s.port
            &&& turn.next matches MoveView::Do(DeedView::Spawn { command }) ==> command.program
                == "python"@ && command.args.len() == 3 && command.args[0] == s.app_path
                && command.args[1] == s.daemon_url && command.args[2] == decimal(s.port as nat)
        }),
{
}

} // verus!
