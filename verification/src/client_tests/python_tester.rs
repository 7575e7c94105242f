//! A Python client under test that is started as a script of its own.

use vstd::prelude::*;

use crate::executor::{log_lines, show_log};
use crate::process::{
    fail, fails, make_command, no_words, plain_command, put_word, succeed, succeeds, CommandLine,
    CommandView, Deed, DeedView, Move, MoveView, Reply, ReplyView,
};
use crate::text::{cat2, cat3, cat4, decimal, num, num_usize, opt_str_view, views};

verus! {

/// How far the start is: what its last deed was.
#[derive(Debug, Clone, Copy, PartialEq, Eq, Structural)]
pub enum PythonPhase {
    Allocating,
    Logging,
    Cloning,
    Spawning,
    Registering,
    Waiting,
    Over,
}

/// The start of a Python client.
#[derive(Debug)]
pub struct PythonSpawn {
    /// The script.
    pub app_path: String,
    pub daemon_url: String,
    /// The port of the control plane; 0 while it is to be allocated.
    pub port: u16,
    pub phase: PythonPhase,
}

/// The mathematical counterpart of [`PythonSpawn`].
pub struct PythonView {
    pub app_path: Seq<char>,
    pub daemon_url: Seq<char>,
    pub port: u16,
    pub phase: PythonPhase,
}

impl View for PythonSpawn {
    type V = PythonView;

    open spec fn view(&self) -> PythonView {
        PythonView {
            app_path: self.app_path@,
            daemon_url: self.daemon_url@,
            port: self.port,
            phase: self.phase,
        }
    }
}

/// Where the log of a client with a control port is.
pub open spec fn python_log(port: u16) -> Seq<char> {
    "/tmp/python_client_e2e_"@ + decimal(port as nat) + ".log"@
}

fn log_of(port: u16) -> (r: String)
    ensures
        r@ == python_log(port),
{
    cat3("/tmp/python_client_e2e_", num(port as u64).as_str(), ".log")
}

/// The command that starts the client.
pub open spec fn python_command(s: PythonView) -> CommandView {
    plain_command(
        "python"@,
        seq![s.app_path, s.daemon_url, decimal(s.port as nat)],
        None,
        Some(python_log(s.port)),
    )
}

/// A turn of the start: the state that it leaves, and what comes next.
pub struct PythonTurn {
    pub state: PythonView,
    pub next: MoveView,
}

/// A deed follows.
pub open spec fn python_does(s: PythonView, phase: PythonPhase, deed: DeedView) -> PythonTurn {
    PythonTurn { state: PythonView { phase, ..s }, next: MoveView::Do(deed) }
}

/// The start ends.
pub open spec fn python_ends(s: PythonView, end: MoveView) -> PythonTurn {
    PythonTurn { state: PythonView { phase: PythonPhase::Over, ..s }, next: end }
}

/// The start goes on.
pub open spec fn on_python_reply(s: PythonView, reply: ReplyView) -> PythonTurn {
    match s.phase {
        PythonPhase::Allocating => python_does(
            PythonView { port: reply->Port_0, ..s },
            PythonPhase::Logging,
            DeedView::CreateLog { path: python_log(reply->Port_0) },
        ),
        PythonPhase::Logging => match reply->Outcome_0 {
            Ok(_) => python_does(
                s,
                PythonPhase::Cloning,
                DeedView::CloneLog { path: python_log(s.port) },
            ),
            Err(e) => python_ends(s, fails("Failed to create log: "@ + e)),
        },
        PythonPhase::Cloning => match reply->Outcome_0 {
            Ok(_) => python_does(
                s,
                PythonPhase::Spawning,
                DeedView::Spawn { command: python_command(s) },
            ),
            Err(e) => python_ends(s, fails("Failed to clone log: "@ + e)),
        },
        PythonPhase::Spawning => match reply->Outcome_0 {
            Ok(_) => python_does(
                s,
                PythonPhase::Registering,
                DeedView::Register { name: "python_client"@ },
            ),
            Err(e) => python_ends(s, fails("Failed to spawn Python client: "@ + e)),
        },
        PythonPhase::Registering => python_does(
            s,
            PythonPhase::Waiting,
            DeedView::WaitPort { port: s.port, secs: 10 },
        ),
        _ => if reply->Truth_0 {
            python_ends(s, succeeds())
        } else {
            python_ends(
                s,
                fails(
                    "Python client control plane not responding on port "@ + decimal(s.port as nat)
                        + " after spawn. Check log: "@ + python_log(s.port),
                ),
            )
        },
    }
}

/// A reply is of the kind that the start waits for.
pub open spec fn python_accepts(phase: PythonPhase, reply: ReplyView) -> bool {
    match phase {
        PythonPhase::Allocating => reply is Port,
        PythonPhase::Logging => reply is Outcome,
        PythonPhase::Cloning => reply is Outcome,
        PythonPhase::Spawning => reply is Outcome,
        PythonPhase::Registering => reply is Done,
        PythonPhase::Waiting => reply is Truth,
        PythonPhase::Over => false,
    }
}

/// How the start begins: a port is allocated where none was given, and else the log is created.
pub open spec fn python_begins(
    app_path: Seq<char>,
    daemon_url: Seq<char>,
    control_port: u16,
) -> PythonTurn {
    let s = PythonView {
        app_path,
        daemon_url,
        port: control_port,
        phase: PythonPhase::Allocating,
    };
    if control_port == 0 {
        python_does(s, PythonPhase::Allocating, DeedView::AllocatePort)
    } else {
        python_does(s, PythonPhase::Logging, DeedView::CreateLog { path: python_log(control_port) })
    }
}

impl PythonSpawn {
    /// Begins the start of a client. A control port of 0 asks for one to be allocated.
    pub fn spawn(app_path: &str, daemon_url: &str, control_port: u16) -> (r: (PythonSpawn, Move))
        ensures
            (PythonTurn { state: r.0@, next: r.1@ }) == python_begins(
                app_path@,
                daemon_url@,
                control_port,
            ),
    {
        let mut s = PythonSpawn {
            app_path: app_path.to_owned(),
            daemon_url: daemon_url.to_owned(),
            port: control_port,
            phase: PythonPhase::Allocating,
        };
        let next: Move = if control_port == 0 {
            Move::Do(Deed::AllocatePort)
        } else {
            s.act(PythonPhase::Logging, Deed::CreateLog { path: log_of(control_port) })
        };
        (s, next)
    }

    fn act(&mut self, phase: PythonPhase, deed: Deed) -> (r: Move)
        ensures
            (PythonTurn { state: final(self)@, next: r@ }) == python_does(
                old(self)@,
                phase,
                deed@,
            ),
    {
        self.phase = phase;
        Move::Do(deed)
    }

    fn end(&mut self, next: Move) -> (r: Move)
        ensures
            (PythonTurn { state: final(self)@, next: r@ }) == python_ends(old(self)@, next@),
    {
        self.phase = PythonPhase::Over;
        next
    }

    fn command(&self) -> (r: CommandLine)
        ensures
            r@ == python_command(self@),
    {
        let mut args: Vec<String> = no_words();
        put_word(&mut args, self.app_path.as_str());
        put_word(&mut args, self.daemon_url.as_str());
        put_word(&mut args, num(self.port as u64).as_str());
        assert(views(args@) =~= python_command(self@).args);
        make_command("python", args, None, Some(log_of(self.port)))
    }

    /// Takes the answer to the last deed, and goes on.
    pub fn resume(&mut self, reply: Reply) -> (r: Move)
        requires
            python_accepts(old(self)@.phase, reply@),
        ensures
            (PythonTurn { state: final(self)@, next: r@ }) == on_python_reply(old(self)@, reply@),
    {
        match reply {
            Reply::Port(port) => {
                self.port = port;
                self.act(PythonPhase::Logging, Deed::CreateLog { path: log_of(port) })
            },
            Reply::Outcome(outcome) => match self.phase {
                PythonPhase::Logging => match outcome {
                    Ok(_) => {
                        let path: String = log_of(self.port);
                        self.act(PythonPhase::Cloning, Deed::CloneLog { path })
                    },
                    Err(e) => self.end(fail(cat2("Failed to create log: ", e.as_str()))),
                },
                PythonPhase::Cloning => match outcome {
                    Ok(_) => {
                        let command = self.command();
                        self.act(PythonPhase::Spawning, Deed::Spawn { command })
                    },
                    Err(e) => self.end(fail(cat2("Failed to clone log: ", e.as_str()))),
                },
                _ => match outcome {
                    Ok(_) => self.act(
                        PythonPhase::Registering,
                        Deed::Register { name: "python_client".to_owned() },
                    ),
                    Err(e) => self.end(
                        fail(cat2("Failed to spawn Python client: ", e.as_str())),
                    ),
                },
            },
            Reply::Truth(yes) => {
                if yes {
                    self.end(succeed())
                } else {
                    let message: String = cat4(
                        "Python client control plane not responding on port ",
                        num(self.port as u64).as_str(),
                        " after spawn. Check log: ",
                        log_of(self.port).as_str(),
                    );
                    self.end(fail(message))
                }
            },
            _ => {
                let port: u16 = self.port;
                self.act(PythonPhase::Waiting, Deed::WaitPort { port, secs: 10 })
            },
        }
    }

    /// What is known of the client once it was started.
    pub fn into_tester(self) -> (r: PythonClientTester)
        ensures
            r.control_port == self.port,
            r.daemon_url == self.daemon_url,
    {
        PythonClientTester { control_port: self.port, daemon_url: self.daemon_url }
    }
}

/// A Python client that was started.
#[derive(Debug)]
pub struct PythonClientTester {
    pub control_port: u16,
    pub daemon_url: String,
}

impl PythonClientTester {
    /// Where the log is.
    pub fn log_path(&self) -> (r: String)
        ensures
            r@ == python_log(self.control_port),
    {
        log_of(self.control_port)
    }

    /// The lines that show the end of the log; `content` is what it holds, if it can be read.
    pub fn print_logs(&self, content: Option<&str>, last_n_lines: usize) -> (r: Vec<String>)
        ensures
            views(r@) == log_lines(
                "\n=== PYTHON CLIENT LOG (last "@ + decimal(last_n_lines as nat) + " lines) ==="@,
                opt_str_view(content),
                "   (could not read python client log)"@,
                "==========================================\n"@,
                last_n_lines as nat,
            ),
    {
        let header: String = cat3(
            "\n=== PYTHON CLIENT LOG (last ",
            num_usize(last_n_lines).as_str(),
            " lines) ===",
        );
        show_log(
            header.as_str(),
            content,
            "   (could not read python client log)",
            "==========================================\n",
            last_n_lines,
        )
    }
}

/// A deed that the start of a Python client asks for is answered with what it waits for, it is
/// over exactly when it asks for nothing more, and it ends well only when its control plane
/// listens.
pub proof fn law_python_spawn_proceeds(s: PythonView, reply: ReplyView)
    requires
        python_accepts(s.phase, reply),
    ensures
        ({
            let turn = on_python_reply(s, reply);
            &&& turn.next is Finish <==> turn.state.phase == PythonPhase::Over
            &&& turn.next == succeeds() <==> s.phase == PythonPhase::Waiting && reply
                == ReplyView::Truth(true)
            &&& turn.next matches MoveView::Do(deed) ==> forall|answer: ReplyView|
                deed.is_answered_by(answer) ==> #[trigger] python_accepts(turn.state.phase, answer)
        }),
{
}

} // verus!
