//! Work on processes, files and ports, as data: what a procedure asks to be done, and how that
//! is answered.

use vstd::prelude::*;

use crate::text::{clone_opt, clone_strings, opt_view, views};

verus! {

/// A command to run.
#[derive(Debug)]
pub struct CommandLine {
    pub program: String,
    pub args: Vec<String>,
    /// The directory that it runs in, where it is not the current one.
    pub dir: Option<String>,
    /// Variables that are set for it.
    pub env: Vec<(String, String)>,
    /// The file that its output goes to, where it is not captured.
    pub log: Option<String>,
}

/// The mathematical counterpart of [`CommandLine`].
pub struct CommandView {
    pub program: Seq<char>,
    pub args: Seq<Seq<char>>,
    pub dir: Option<Seq<char>>,
    pub env: Seq<(Seq<char>, Seq<char>)>,
    pub log: Option<Seq<char>>,
}

/// Variables and their values.
pub open spec fn env_views(env: Seq<(String, String)>) -> Seq<(Seq<char>, Seq<char>)> {
    env.map_values(|e: (String, String)| (e.0@, e.1@))
}

impl View for CommandLine {
    type V = CommandView;

    open spec fn view(&self) -> CommandView {
        CommandView {
            program: self.program@,
            args: views(self.args@),
            dir: opt_view(self.dir),
            env: env_views(self.env@),
            log: opt_view(self.log),
        }
    }
}

impl CommandLine {
    /// A copy of the command.
    pub fn duplicate(&self) -> (r: Self)
        ensures
            r@ == self@,
    {
        let mut env: Vec<(String, String)> = Vec::new();
        let mut i: usize = 0;
        while i < self.env.len()
            invariant
                i <= self.env.len(),
                env@.len() == i,
                forall|j: int|
                    0 <= j < i ==> (#[trigger] env@[j]).0@ == self.env@[j].0@ && env@[j].1@
                        == self.env@[j].1@,
            decreases self.env.len() - i,
        {
            env.push((self.env[i].0.clone(), self.env[i].1.clone()));
            i = i + 1;
        }
        let r = CommandLine {
            program: self.program.clone(),
            args: clone_strings(&self.args),
            dir: clone_opt(&self.dir),
            env,
            log: clone_opt(&self.log),
        };
        assert(r@.env =~= self@.env);
        r
    }
}

/// A command that only has a program, arguments, and places to run and to write in.
pub open spec fn plain_command(
    program: Seq<char>,
    args: Seq<Seq<char>>,
    dir: Option<Seq<char>>,
    log: Option<Seq<char>>,
) -> CommandView {
    CommandView { program, args, dir, env: Seq::empty(), log }
}

/// A command that only has a program, arguments, and places to run and to write in.
pub fn make_command(
    program: &str,
    args: Vec<String>,
    dir: Option<String>,
    log: Option<String>,
) -> (r: CommandLine)
    ensures
        r@ == plain_command(program@, views(args@), opt_view(dir), opt_view(log)),
{
    let r = CommandLine { program: program.to_owned(), args, dir, env: Vec::new(), log };
    assert(r@.env =~= Seq::<(Seq<char>, Seq<char>)>::empty());
    r
}

/// Adds a word to a list.
pub fn put_word(words: &mut Vec<String>, word: &str)
    ensures
        views(final(words)@) == views(old(words)@).push(word@),
{
    let w: String = word.to_owned();
    words.push(w);
    assert(views(words@) =~= views(old(words)@).push(word@));
}

/// No words.
pub fn no_words() -> (r: Vec<String>)
    ensures
        views(r@) == Seq::<Seq<char>>::empty(),
{
    let r: Vec<String> = Vec::new();
    assert(views(r@) =~= Seq::<Seq<char>>::empty());
    r
}

/// What is to be done next.
#[derive(Debug)]
pub enum Deed {
    /// Kill the test processes that listen on a port; with `spare_self`, not the current one.
    FreePort { port: u16, spare_self: bool },
    Pause { millis: u64 },
    /// Tell whether a port can be bound.
    CheckPort { port: u16 },
    /// Tell whether something on a port accepts a connection within a time.
    Connect { port: u16, millis: u64 },
    /// Tell whether a file exists.
    CheckFile { path: String },
    WriteFile { path: String, content: String },
    /// Read a file; there is no text where that fails.
    ReadFile { path: String },
    RemoveFile { path: String },
    CreateLog { path: String },
    /// Open a log that was created a second time.
    CloneLog { path: String },
    /// Look for the binary under test.
    FindBinary,
    /// Look for the CodeLLDB adapter.
    FindAdapter,
    /// Tell when a file was last modified, in seconds since 1970.
    ModifiedTime { path: String },
    /// Allocate a port.
    AllocatePort,
    /// Run a command to its end.
    Run { command: CommandLine },
    /// Start a command and keep its process.
    Spawn { command: CommandLine },
    /// Start a command and keep its process; what it prints is read, and only its errors go to
    /// the log.
    SpawnPiped { command: CommandLine },
    /// Record the process that was started, so that it is killed if it is left behind.
    Register { name: String },
    /// Record a process by its number.
    RegisterPid { name: String, pid: u32 },
    /// Wait until something listens on a port, and tell whether it does.
    WaitPort { port: u16, secs: u64 },
    /// Restart the timer.
    StartTimer,
    /// Tell whether a time has passed since the timer was restarted; with `strictly`, whether
    /// more than that has.
    TimeIsUp { millis: u64, strictly: bool },
    /// Read the next line that the process printed.
    ReadLine,
    /// Add a line to the log.
    LogLine { path: String, line: String },
    /// Tell whether the process has exited, and how.
    TryWait,
}

/// The mathematical counterpart of [`Deed`].
pub enum DeedView {
    FreePort { port: u16, spare_self: bool },
    Pause { millis: u64 },
    CheckPort { port: u16 },
    Connect { port: u16, millis: u64 },
    CheckFile { path: Seq<char> },
    WriteFile { path: Seq<char>, content: Seq<char> },
    ReadFile { path: Seq<char> },
    RemoveFile { path: Seq<char> },
    CreateLog { path: Seq<char> },
    CloneLog { path: Seq<char> },
    FindBinary,
    FindAdapter,
    ModifiedTime { path: Seq<char> },
    AllocatePort,
    Run { command: CommandView },
    Spawn { command: CommandView },
    SpawnPiped { command: CommandView },
    Register { name: Seq<char> },
    RegisterPid { name: Seq<char>, pid: u32 },
    WaitPort { port: u16, secs: u64 },
    StartTimer,
    TimeIsUp { millis: u64, strictly: bool },
    ReadLine,
    LogLine { path: Seq<char>, line: Seq<char> },
    TryWait,
}

impl View for Deed {
    type V = DeedView;

    open spec fn view(&self) -> DeedView {
        match self {
            Deed::FreePort { port, spare_self } => DeedView::FreePort {
                port: *port,
                spare_self: *spare_self,
            },
            Deed::Pause { millis } => DeedView::Pause { millis: *millis },
            Deed::CheckPort { port } => DeedView::CheckPort { port: *port },
            Deed::Connect { port, millis } => DeedView::Connect { port: *port, millis: *millis },
            Deed::CheckFile { path } => DeedView::CheckFile { path: path@ },
            Deed::WriteFile { path, content } => DeedView::WriteFile {
                path: path@,
                content: content@,
            },
            Deed::ReadFile { path } => DeedView::ReadFile { path: path@ },
            Deed::RemoveFile { path } => DeedView::RemoveFile { path: path@ },
            Deed::CreateLog { path } => DeedView::CreateLog { path: path@ },
            Deed::CloneLog { path } => DeedView::CloneLog { path: path@ },
            Deed::FindBinary => DeedView::FindBinary,
            Deed::FindAdapter => DeedView::FindAdapter,
            Deed::ModifiedTime { path } => DeedView::ModifiedTime { path: path@ },
            Deed::AllocatePort => DeedView::AllocatePort,
            Deed::Run { command } => DeedView::Run { command: command@ },
            Deed::Spawn { command } => DeedView::Spawn { command: command@ },
            Deed::SpawnPiped { command } => DeedView::SpawnPiped { command: command@ },
            Deed::Register { name } => DeedView::Register { name: name@ },
            Deed::RegisterPid { name, pid } => DeedView::RegisterPid { name: name@, pid: *pid },
            Deed::WaitPort { port, secs } => DeedView::WaitPort { port: *port, secs: *secs },
            Deed::StartTimer => DeedView::StartTimer,
            Deed::TimeIsUp { millis, strictly } => DeedView::TimeIsUp {
                millis: *millis,
                strictly: *strictly,
            },
            Deed::ReadLine => DeedView::ReadLine,
            Deed::LogLine { path, line } => DeedView::LogLine { path: path@, line: line@ },
            Deed::TryWait => DeedView::TryWait,
        }
    }
}

/// What a command that ran to its end left behind.
#[derive(Debug)]
pub struct RunOutput {
    pub success: bool,
    pub stdout: String,
    pub stderr: String,
}

/// How a deed is answered.
#[derive(Debug)]
pub enum Reply {
    Done,
    Truth(bool),
    Text(Option<String>),
    Outcome(Result<(), String>),
    Ran(Result<RunOutput, String>),
    Seconds(Option<i64>),
    Port(u16),
    /// The next line, if there is one.
    Line(Result<Option<String>, String>),
}

/// The mathematical counterpart of [`RunOutput`].
pub struct RunView {
    pub success: bool,
    pub stdout: Seq<char>,
    pub stderr: Seq<char>,
}

/// The mathematical counterpart of [`Reply`].
pub enum ReplyView {
    Done,
    Truth(bool),
    Text(Option<Seq<char>>),
    Outcome(Result<(), Seq<char>>),
    Ran(Result<RunView, Seq<char>>),
    Seconds(Option<i64>),
    Port(u16),
    Line(Result<Option<Seq<char>>, Seq<char>>),
}

/// An outcome.
pub open spec fn outcome_view(r: Result<(), String>) -> Result<(), Seq<char>> {
    match r {
        Ok(_) => Ok(()),
        Err(e) => Err(e@),
    }
}

impl View for Reply {
    type V = ReplyView;

    open spec fn view(&self) -> ReplyView {
        match self {
            Reply::Done => ReplyView::Done,
            Reply::Truth(b) => ReplyView::Truth(*b),
            Reply::Text(t) => ReplyView::Text(opt_view(*t)),
            Reply::Outcome(o) => ReplyView::Outcome(outcome_view(*o)),
            Reply::Ran(r) => ReplyView::Ran(
                match r {
                    Ok(o) => Ok(
                        (RunView { success: o.success, stdout: o.stdout@, stderr: o.stderr@ }),
                    ),
                    Err(e) => Err(e@),
                },
            ),
            Reply::Seconds(s) => ReplyView::Seconds(*s),
            Reply::Port(p) => ReplyView::Port(*p),
            Reply::Line(l) => ReplyView::Line(
                match l {
                    Ok(t) => Ok(opt_view(*t)),
                    Err(e) => Err(e@),
                },
            ),
        }
    }
}

impl DeedView {
    /// A reply is of the kind that the deed is answered with.
    pub open spec fn is_answered_by(self, reply: ReplyView) -> bool {
        match self {
            DeedView::FreePort { .. } => reply is Done,
            DeedView::Pause { .. } => reply is Done,
            DeedView::CheckPort { .. } => reply is Truth,
            DeedView::Connect { .. } => reply is Truth,
            DeedView::CheckFile { .. } => reply is Truth,
            DeedView::WriteFile { .. } => reply is Outcome,
            DeedView::ReadFile { .. } => reply is Text,
            DeedView::RemoveFile { .. } => reply is Done,
            DeedView::CreateLog { .. } => reply is Outcome,
            DeedView::CloneLog { .. } => reply is Outcome,
            DeedView::FindBinary => reply is Text,
            DeedView::FindAdapter => reply is Text,
            DeedView::ModifiedTime { .. } => reply is Seconds,
            DeedView::AllocatePort => reply is Port,
            DeedView::Run { .. } => reply is Ran,
            DeedView::Spawn { .. } => reply is Outcome,
            DeedView::SpawnPiped { .. } => reply is Outcome,
            DeedView::Register { .. } => reply is Done,
            DeedView::RegisterPid { .. } => reply is Done,
            DeedView::WaitPort { .. } => reply is Truth,
            DeedView::StartTimer => reply is Done,
            DeedView::TimeIsUp { .. } => reply is Truth,
            DeedView::ReadLine => reply is Line,
            DeedView::LogLine { .. } => reply is Done,
            DeedView::TryWait => reply is Text,
        }
    }
}

impl Deed {
    /// Whether a reply is of the kind that the deed is answered with.
    pub fn answered_by(&self, reply: &Reply) -> (r: bool)
        ensures
            r == self@.is_answered_by(reply@),
    {
        match self {
            Deed::FreePort { .. } | Deed::Pause { .. } | Deed::RemoveFile { .. }
            | Deed::Register { .. } | Deed::RegisterPid { .. } | Deed::StartTimer
            | Deed::LogLine { .. } => matches!(reply, Reply::Done),
            Deed::CheckPort { .. } | Deed::Connect { .. } | Deed::CheckFile { .. }
            | Deed::WaitPort { .. } | Deed::TimeIsUp { .. } => matches!(reply, Reply::Truth(_)),
            Deed::WriteFile { .. } | Deed::CreateLog { .. } | Deed::CloneLog { .. }
            | Deed::Spawn { .. } | Deed::SpawnPiped { .. } => matches!(reply, Reply::Outcome(_)),
            Deed::ReadFile { .. } | Deed::FindBinary | Deed::FindAdapter | Deed::TryWait => {
                matches!(reply, Reply::Text(_))
            },
            Deed::ModifiedTime { .. } => matches!(reply, Reply::Seconds(_)),
            Deed::AllocatePort => matches!(reply, Reply::Port(_)),
            Deed::Run { .. } => matches!(reply, Reply::Ran(_)),
            Deed::ReadLine => matches!(reply, Reply::Line(_)),
        }
    }
}

/// How a procedure goes on.
#[derive(Debug)]
pub enum Move {
    Do(Deed),
    Finish(Result<(), String>),
}

/// The mathematical counterpart of [`Move`].
pub enum MoveView {
    Do(DeedView),
    Finish(Result<(), Seq<char>>),
}

impl View for Move {
    type V = MoveView;

    open spec fn view(&self) -> MoveView {
        match self {
            Move::Do(d) => MoveView::Do(d@),
            Move::Finish(r) => MoveView::Finish(outcome_view(*r)),
        }
    }
}

/// The procedure ends with an error.
pub open spec fn fails(message: Seq<char>) -> MoveView {
    MoveView::Finish(Err(message))
}

/// The procedure ends well.
pub open spec fn succeeds() -> MoveView {
    MoveView::Finish(Ok(()))
}

/// Ends a procedure with an error.
pub fn fail(message: String) -> (r: Move)
    ensures
        r@ == fails(message@),
{
    Move::Finish(Err(message))
}

/// Ends a procedure well.
pub fn succeed() -> (r: Move)
    ensures
        r@ == succeeds(),
{
    Move::Finish(Ok(()))
}

} // verus!
