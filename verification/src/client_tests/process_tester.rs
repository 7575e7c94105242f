//! A client process under test: how it is started, and what is known of it.

use vstd::prelude::*;

use crate::client_tests::config::{spawn_args, spawn_env, with_var, ClientTestConfig, ConfigView, EnvVars};
use crate::executor::{log_lines, show_log};
use crate::process::{
    fail, fails, succeed, succeeds, CommandLine, CommandView, Deed, DeedView, Move, MoveView, Reply,
    ReplyView,
};
use crate::paths::{join_path, path_joined};
use crate::text::{
    cat2, cat3, cat4, cat5, decimal, num, num_usize, opt_str_view, parse_u16, parsed_unsigned,
    strip_prefix, views, without_prefix,
};

verus! {

/// The port that a line announces, if it announces the control plane.
pub open spec fn announced_port(line: Seq<char>) -> Option<nat> {
    let rest = match without_prefix(line, "Control plane: http://127.0.0.1:"@) {
        Some(r) => Some(r),
        None => without_prefix(line, "Control plane: http://localhost:"@),
    };
    match rest {
        Some(r) => parsed_unsigned(r, u16::MAX as nat),
        None => None,
    }
}

/// The port that a line announces, if it announces the control plane.
pub fn control_plane_port(line: &str) -> (r: Option<u16>)
    ensures
        r is Some <==> announced_port(line@) is Some,
        r matches Some(p) ==> announced_port(line@) == Some(p as nat),
{
    match strip_prefix(line, "Control plane: http://127.0.0.1:") {
        Some(rest) => parse_u16(rest.as_str()),
        None => match strip_prefix(line, "Control plane: http://localhost:") {
            Some(rest) => parse_u16(rest.as_str()),
            None => None,
        },
    }
}

/// How far the start of a client is: what its last deed was.
#[derive(Debug, Clone, Copy, PartialEq, Eq, Structural)]
pub enum SpawnPhase {
    CheckingFixture,
    Allocating,
    CheckingDir,
    Logging,
    Cloning,
    Spawning,
    Registering,
    Timing,
    Reading,
    CheckingTime,
    LoggingLine,
    CheckingExit,
    Over,
}

/// The start of a client.
#[derive(Debug)]
pub struct ClientSpawn {
    pub config: ClientTestConfig,
    /// The root of the workspace.
    pub root: String,
    pub daemon_url: String,
    /// The port of the control plane; 0 while it is to be allocated.
    pub port: u16,
    /// The port that the client announced, or else `port`.
    pub control_port: u16,
    pub phase: SpawnPhase,
    /// The last line that was read, or why it could not be read.
    pub line: Result<String, String>,
}

/// The mathematical counterpart of [`ClientSpawn`].
pub struct SpawnView {
    pub config: ConfigView,
    pub root: Seq<char>,
    pub daemon_url: Seq<char>,
    pub port: u16,
    pub control_port: u16,
    pub phase: SpawnPhase,
    pub line: Result<Seq<char>, Seq<char>>,
}

/// A line, or why it could not be read.
pub open spec fn line_view(line: Result<String, String>) -> Result<Seq<char>, Seq<char>> {
    match line {
        Ok(l) => Ok(l@),
        Err(e) => Err(e@),
    }
}

impl View for ClientSpawn {
    type V = SpawnView;

    open spec fn view(&self) -> SpawnView {
        SpawnView {
            config: self.config@,
            root: self.root@,
            daemon_url: self.daemon_url@,
            port: self.port,
            control_port: self.control_port,
            phase: self.phase,
            line: line_view(self.line),
        }
    }
}

impl SpawnView {
    /// Where the fixture is.
    pub open spec fn fixture(self) -> Seq<char> {
        path_joined(self.root, self.config.fixture_path)
    }

    /// Where the client runs.
    pub open spec fn dir(self) -> Seq<char> {
        path_joined(self.root, self.config.working_dir)
    }

    /// Where the log is.
    pub open spec fn log(self) -> Seq<char> {
        "/tmp/"@ + self.config.language.lower() + "_client_e2e_"@ + decimal(self.port as nat)
            + ".log"@
    }

    /// The command that starts the client.
    pub open spec fn command(self) -> CommandView {
        CommandView {
            program: spawn_args(self.config, self.fixture()).0,
            args: spawn_args(self.config, self.fixture()).1,
            dir: Some(self.dir()),
            env: with_var(
                spawn_env(self.config.env, self.daemon_url, self.port),
                "PYTHONUNBUFFERED"@,
                "1"@,
            ),
            log: Some(self.log()),
        }
    }
}

/// A turn of the start: the state that it leaves, and what comes next.
pub struct SpawnTurn {
    pub state: SpawnView,
    pub next: MoveView,
}

/// A deed follows.
pub open spec fn spawn_does(s: SpawnView, phase: SpawnPhase, deed: DeedView) -> SpawnTurn {
    SpawnTurn { state: SpawnView { phase, ..s }, next: MoveView::Do(deed) }
}

/// The start ends.
pub open spec fn spawn_ends(s: SpawnView, end: MoveView) -> SpawnTurn {
    SpawnTurn { state: SpawnView { phase: SpawnPhase::Over, ..s }, next: end }
}

/// The port of the control plane is known.
pub open spec fn port_is_known(s: SpawnView, port: u16) -> SpawnTurn {
    spawn_does(
        SpawnView { port, control_port: port, ..s },
        SpawnPhase::CheckingDir,
        DeedView::CheckFile { path: s.dir() },
    )
}

/// The start goes on.
pub open spec fn on_spawn_reply(s: SpawnView, reply: ReplyView) -> SpawnTurn {
    match s.phase {
        SpawnPhase::CheckingFixture => if !reply->Truth_0 {
            spawn_ends(s, fails("Test fixture not found at: "@ + s.fixture()))
        } else if s.port == 0 {
            spawn_does(s, SpawnPhase::Allocating, DeedView::AllocatePort)
        } else {
            port_is_known(s, s.port)
        },
        SpawnPhase::Allocating => port_is_known(s, reply->Port_0),
        SpawnPhase::CheckingDir => if reply->Truth_0 {
            spawn_does(s, SpawnPhase::Logging, DeedView::CreateLog { path: s.log() })
        } else {
            spawn_ends(s, fails("Working directory not found at: "@ + s.dir()))
        },
        SpawnPhase::Logging => match reply->Outcome_0 {
            Ok(_) => spawn_does(s, SpawnPhase::Cloning, DeedView::CloneLog { path: s.log() }),
            Err(e) => spawn_ends(s, fails("Failed to create log: "@ + e)),
        },
        SpawnPhase::Cloning => match reply->Outcome_0 {
            Ok(_) => spawn_does(
                s,
                SpawnPhase::Spawning,
                DeedView::SpawnPiped { command: s.command() },
            ),
            Err(e) => spawn_ends(s, fails("Failed to clone log: "@ + e)),
        },
        SpawnPhase::Spawning => match reply->Outcome_0 {
            Ok(_) => spawn_does(
                s,
                SpawnPhase::Registering,
                DeedView::Register { name: s.config.language.lower() + "_client"@ },
            ),
            Err(e) => spawn_ends(
                s,
                fails("Failed to spawn "@ + s.config.language.name() + " client: "@ + e),
            ),
        },
        SpawnPhase::Registering => spawn_does(s, SpawnPhase::Timing, DeedView::StartTimer),
        SpawnPhase::Timing => spawn_does(s, SpawnPhase::Reading, DeedView::ReadLine),
        SpawnPhase::Reading => match reply->Line_0 {
            Ok(None) => spawn_ends(s, succeeds()),
            Ok(Some(line)) => spawn_does(
                SpawnView { line: Ok(line), ..s },
                SpawnPhase::CheckingTime,
                DeedView::TimeIsUp { millis: 15000, strictly: true },
            ),
            Err(e) => spawn_does(
                SpawnView { line: Err(e), ..s },
                SpawnPhase::CheckingTime,
                DeedView::TimeIsUp { millis: 15000, strictly: true },
            ),
        },
        SpawnPhase::CheckingTime => if reply->Truth_0 {
            spawn_ends(
                s,
                fails(
                    s.config.language.name()
                        + " client did not output control plane URL within timeout. Check log: "@
                        + s.log(),
                ),
            )
        } else {
            match s.line {
                Ok(line) => spawn_does(
                    s,
                    SpawnPhase::LoggingLine,
                    DeedView::LogLine { path: s.log(), line },
                ),
                Err(e) => spawn_ends(s, fails("Failed to read stdout: "@ + e)),
            }
        },
        SpawnPhase::LoggingLine => match (match s.line {
            Ok(line) => announced_port(line),
            Err(_) => None,
        }) {
            Some(port) => spawn_ends(
                SpawnView { control_port: port as u16, ..s },
                succeeds(),
            ),
            None => spawn_does(s, SpawnPhase::CheckingExit, DeedView::TryWait),
        },
        _ => match reply->Text_0 {
            Some(status) => spawn_ends(
                s,
                fails(
                    s.config.language.name() + " client exited with "@ + status
                        + " before outputting control plane URL. Check log: "@ + s.log(),
                ),
            ),
            None => spawn_does(s, SpawnPhase::Reading, DeedView::ReadLine),
        },
    }
}

/// A reply is of the kind that the start waits for.
pub open spec fn spawn_accepts(phase: SpawnPhase, reply: ReplyView) -> bool {
    match phase {
        SpawnPhase::CheckingFixture => reply is Truth,
        SpawnPhase::Allocating => reply is Port,
        SpawnPhase::CheckingDir => reply is Truth,
        SpawnPhase::Logging => reply is Outcome,
        SpawnPhase::Cloning => reply is Outcome,
        SpawnPhase::Spawning => reply is Outcome,
        SpawnPhase::Registering => reply is Done,
        SpawnPhase::Timing => reply is Done,
        SpawnPhase::Reading => reply is Line,
        SpawnPhase::CheckingTime => reply is Truth,
        SpawnPhase::LoggingLine => reply is Done,
        SpawnPhase::CheckingExit => reply is Text,
        SpawnPhase::Over => false,
    }
}

impl ClientSpawn {
    /// Begins the start of a client. A control port of 0 asks for one to be allocated.
    pub fn spawn(config: ClientTestConfig, root: &str, daemon_url: &str, control_port: u16) -> (r: (
        ClientSpawn,
        Deed,
    ))
        requires
            config.wf(),
        ensures
            r.0.config.wf(),
            r.0@.config == config@,
            r.0@.root == root@,
            r.0@.daemon_url == daemon_url@,
            r.0@.port == control_port,
            r.0@.control_port == control_port,
            r.0@.phase == SpawnPhase::CheckingFixture,
            r.1@ == (DeedView::CheckFile { path: path_joined(root@, config@.fixture_path) }),
    {
        let path: String = join_path(root, config.fixture_path.as_str());
        let spawn = ClientSpawn {
            config,
            root: root.to_owned(),
            daemon_url: daemon_url.to_owned(),
            port: control_port,
            control_port,
            phase: SpawnPhase::CheckingFixture,
            line: Ok("".to_owned()),
        };
        (spawn, Deed::CheckFile { path })
    }

    fn fixture(&self) -> (r: String)
        ensures
            r@ == self@.fixture(),
    {
        join_path(self.root.as_str(), self.config.fixture_path.as_str())
    }

    fn dir(&self) -> (r: String)
        ensures
            r@ == self@.dir(),
    {
        join_path(self.root.as_str(), self.config.working_dir.as_str())
    }

    fn log(&self) -> (r: String)
        ensures
            r@ == self@.log(),
    {
        cat5(
            "/tmp/",
            self.config.language.lower_name(),
            "_client_e2e_",
            num(self.port as u64).as_str(),
            ".log",
        )
    }

    fn command(&self) -> (r: CommandLine)
        requires
            self.config.wf(),
        ensures
            r@ == self@.command(),
    {
        let (program, args) = self.config.build_spawn_args(self.fixture().as_str());
        let mut env: EnvVars = self.config.build_env_vars(self.daemon_url.as_str(), self.port);
        env.insert("PYTHONUNBUFFERED", "1");
        CommandLine {
            program,
            args,
            dir: Some(self.dir()),
            env: env.entries,
            log: Some(self.log()),
        }
    }

    fn act(&mut self, phase: SpawnPhase, deed: Deed) -> (r: Move)
        ensures
            final(self).config == old(self).config,
            (SpawnTurn { state: final(self)@, next: r@ }) == spawn_does(old(self)@, phase, deed@),
    {
        self.phase = phase;
        Move::Do(deed)
    }

    fn end(&mut self, next: Move) -> (r: Move)
        ensures
            final(self).config == old(self).config,
            (SpawnTurn { state: final(self)@, next: r@ }) == spawn_ends(old(self)@, next@),
    {
        self.phase = SpawnPhase::Over;
        next
    }

    fn set_port(&mut self, port: u16) -> (r: Move)
        ensures
            final(self).config == old(self).config,
            (SpawnTurn { state: final(self)@, next: r@ }) == port_is_known(old(self)@, port),
    {
        let path: String = self.dir();
        self.port = port;
        self.control_port = port;
        self.act(SpawnPhase::CheckingDir, Deed::CheckFile { path })
    }

    fn after_truth(&mut self, yes: bool) -> (r: Move)
        requires
            old(self).config.wf(),
            spawn_accepts(old(self)@.phase, ReplyView::Truth(yes)),
        ensures
            final(self).config == old(self).config,
            (SpawnTurn { state: final(self)@, next: r@ }) == on_spawn_reply(
                old(self)@,
                ReplyView::Truth(yes),
            ),
    {
        let log: String = self.log();
        match self.phase {
            SpawnPhase::CheckingFixture => {
                if !yes {
                    let fixture: String = self.fixture();
                    self.end(fail(cat2("Test fixture not found at: ", fixture.as_str())))
                } else if self.port == 0 {
                    self.act(SpawnPhase::Allocating, Deed::AllocatePort)
                } else {
                    let port: u16 = self.port;
                    self.set_port(port)
                }
            },
            SpawnPhase::CheckingDir => {
                if yes {
                    self.act(SpawnPhase::Logging, Deed::CreateLog { path: log })
                } else {
                    let dir: String = self.dir();
                    self.end(fail(cat2("Working directory not found at: ", dir.as_str())))
                }
            },
            _ => {
                if yes {
                    let message: String = cat3(
                        self.config.language.display_name(),
                        " client did not output control plane URL within timeout. Check log: ",
                        log.as_str(),
                    );
                    self.end(fail(message))
                } else {
                    let line: Result<String, String> = match &self.line {
                        Ok(l) => Ok(l.clone()),
                        Err(e) => Err(e.clone()),
                    };
                    match line {
                        Ok(l) => self.act(
                            SpawnPhase::LoggingLine,
                            Deed::LogLine { path: log, line: l },
                        ),
                        Err(e) => self.end(fail(cat2("Failed to read stdout: ", e.as_str()))),
                    }
                }
            },
        }
    }

    fn after_outcome(&mut self, outcome: Result<(), String>) -> (r: Move)
        requires
            old(self).config.wf(),
            spawn_accepts(old(self)@.phase, Reply::Outcome(outcome)@),
        ensures
            final(self).config == old(self).config,
            (SpawnTurn { state: final(self)@, next: r@ }) == on_spawn_reply(
                old(self)@,
                Reply::Outcome(outcome)@,
            ),
    {
        match self.phase {
            SpawnPhase::Logging => match outcome {
                Ok(_) => {
                    let path: String = self.log();
                    self.act(SpawnPhase::Cloning, Deed::CloneLog { path })
                },
                Err(e) => self.end(fail(cat2("Failed to create log: ", e.as_str()))),
            },
            SpawnPhase::Cloning => match outcome {
                Ok(_) => {
                    let command = self.command();
                    self.act(SpawnPhase::Spawning, Deed::SpawnPiped { command })
                },
                Err(e) => self.end(fail(cat2("Failed to clone log: ", e.as_str()))),
            },
            _ => match outcome {
                Ok(_) => {
                    let name: String = cat2(self.config.language.lower_name(), "_client");
                    self.act(SpawnPhase::Registering, Deed::Register { name })
                },
                Err(e) => {
                    let message: String = cat4(
                        "Failed to spawn ",
                        self.config.language.display_name(),
                        " client: ",
                        e.as_str(),
                    );
                    self.end(fail(message))
                },
            },
        }
    }

    fn after_line(&mut self, line: Result<Option<String>, String>) -> (r: Move)
        requires
            spawn_accepts(old(self)@.phase, Reply::Line(line)@),
        ensures
            final(self).config == old(self).config,
            (SpawnTurn { state: final(self)@, next: r@ }) == on_spawn_reply(
                old(self)@,
                Reply::Line(line)@,
            ),
    {
        match line {
            Ok(None) => return self.end(succeed()),
            Ok(Some(l)) => {
                self.line = Ok(l);
            },
            Err(e) => {
                self.line = Err(e);
            },
        }
        self.act(SpawnPhase::CheckingTime, Deed::TimeIsUp { millis: 15000, strictly: true })
    }

    /// Takes the answer to the last deed, and goes on.
    pub fn resume(&mut self, reply: Reply) -> (r: Move)
        requires
            old(self).config.wf(),
            spawn_accepts(old(self)@.phase, reply@),
        ensures
            final(self).config == old(self).config,
            (SpawnTurn { state: final(self)@, next: r@ }) == on_spawn_reply(old(self)@, reply@),
    {
        match reply {
            Reply::Truth(yes) => self.after_truth(yes),
            Reply::Outcome(outcome) => self.after_outcome(outcome),
            Reply::Port(port) => self.set_port(port),
            Reply::Line(line) => self.after_line(line),
            Reply::Text(status) => match status {
                Some(s) => {
                    let log: String = self.log();
                    let message: String = cat5(
                        self.config.language.display_name(),
                        " client exited with ",
                        s.as_str(),
                        " before outputting control plane URL. Check log: ",
                        log.as_str(),
                    );
                    self.end(fail(message))
                },
                None => self.act(SpawnPhase::Reading, Deed::ReadLine),
            },
            _ => match self.phase {
                SpawnPhase::Registering => self.act(SpawnPhase::Timing, Deed::StartTimer),
                SpawnPhase::Timing => self.act(SpawnPhase::Reading, Deed::ReadLine),
                _ => {
                    let port: Option<u16> = match &self.line {
                        Ok(l) => control_plane_port(l.as_str()),
                        Err(_) => None,
                    };
                    match port {
                        Some(p) => {
                            self.control_port = p;
                            self.end(succeed())
                        },
                        None => self.act(SpawnPhase::CheckingExit, Deed::TryWait),
                    }
                },
            },
        }
    }

    /// What is known of the client once it was started.
    pub fn into_tester(self) -> (r: ClientProcessTester)
        ensures
            r.config == self.config,
            r.control_port == self.control_port,
            r.daemon_url == self.daemon_url,
            r.log_path@ == self@.log(),
    {
        let log_path: String = self.log();
        ClientProcessTester {
            config: self.config,
            control_port: self.control_port,
            daemon_url: self.daemon_url,
            log_path,
        }
    }
}

/// A deed that the start of a client asks for is answered with what it waits for, and it is over
/// exactly when it asks for nothing more.
pub proof fn law_spawn_proceeds(s: SpawnView, reply: ReplyView)
    requires
        spawn_accepts(s.phase, reply),
    ensures
        ({
            let turn = on_spawn_reply(s, reply);
            &&& turn.next is Finish <==> turn.state.phase == SpawnPhase::Over
            &&& turn.next matches MoveView::Do(deed) ==> forall|answer: ReplyView|
                deed.is_answered_by(answer) ==> #[trigger] spawn_accepts(turn.state.phase, answer)
        }),
{
}

/// The port of a client that was started is the one that it announced; where its output ended
/// before it announced one, it is the one that it was given.
pub proof fn law_control_port(s: SpawnView, reply: ReplyView)
    requires
        spawn_accepts(s.phase, reply),
        on_spawn_reply(s, reply).next == succeeds(),
    ensures
        ({
            let port = on_spawn_reply(s, reply).state.control_port;
            ||| s.phase == SpawnPhase::LoggingLine && (s.line matches Ok(line) && announced_port(
                line,
            ) matches Some(p) && port == p as u16)
            ||| s.phase == SpawnPhase::Reading && port == s.control_port
        }),
{
}

/// A client process that was started.
#[derive(Debug)]
pub struct ClientProcessTester {
    pub config: ClientTestConfig,
    pub control_port: u16,
    pub daemon_url: String,
    pub log_path: String,
}

impl ClientProcessTester {
    /// How the client is tested.
    pub fn config(&self) -> (r: &ClientTestConfig)
        ensures
            *r == self.config,
    {
        &self.config
    }

    /// Where the log is.
    pub fn log_path(&self) -> (r: &str)
        ensures
            r@ == self.log_path@,
    {
        self.log_path.as_str()
    }

    /// The port of the control plane.
    pub fn control_port(&self) -> (r: u16)
        ensures
            r == self.control_port,
    {
        self.control_port
    }

    /// The daemon that the client registers with.
    pub fn daemon_url(&self) -> (r: &str)
        ensures
            r@ == self.daemon_url@,
    {
        self.daemon_url.as_str()
    }

    /// The name that the process is recorded under.
    pub fn process_name(&self) -> (r: String)
        ensures
            r@ == self.config.language.lower() + "_client"@,
    {
        cat2(self.config.language.lower_name(), "_client")
    }

    /// The lines that show the end of the log; `content` is what it holds, if it can be read.
    pub fn print_logs(&self, content: Option<&str>, last_n_lines: usize) -> (r: Vec<String>)
        ensures
            views(r@) == log_lines(
                "\n=== "@ + self.config.language.upper() + " CLIENT LOG (last "@ + decimal(
                    last_n_lines as nat,
                ) + " lines) ==="@,
                opt_str_view(content),
                "   (could not read client log)"@,
                "==========================================\n"@,
                last_n_lines as nat,
            ),
    {
        let header: String = cat5(
            "\n=== ",
            self.config.language.upper_name(),
            " CLIENT LOG (last ",
            num_usize(last_n_lines).as_str(),
            " lines) ===",
        );
        show_log(
            header.as_str(),
            content,
            "   (could not read client log)",
            "==========================================\n",
            last_n_lines,
        )
    }
}

} // verus!
