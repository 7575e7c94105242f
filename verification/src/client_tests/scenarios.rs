//! The scenarios that every client has to pass, whatever its language.
//!
//! A scenario asks the client and the daemon one thing after another, and judges each answer.

use vstd::prelude::*;

use crate::client::{ConnectionInfo, ConnectionInfoView};
use crate::client_tests::{
    ClientStatus, ClientStatusView, HealthResponse, SleepResponse, WakeResponse, WakeView,
};
use crate::mcp::connection_views;
use crate::report::{failed, start, success, Log, ReportView};
use crate::text::{
    cat2, cat3, cat5, cat6, clone_opt, contains, decimal, has_text, lowercase, num,
    num_usize, opt_view, same_text, to_lowercase,
};

verus! {

// ---------------------------------------------------------------------------
// Questions and answers
// ---------------------------------------------------------------------------

/// What a scenario asks.
#[derive(Debug)]
pub enum ClientAsk {
    Status,
    Wake { daemon_url: Option<String> },
    Sleep,
    Health,
    /// The connections that the daemon knows.
    ListConnections,
    Pause { millis: u64 },
    /// Wake the client a number of times at once.
    WakeAtOnce { count: usize },
}

/// The mathematical counterpart of [`ClientAsk`].
pub enum AskView {
    Status,
    Wake { daemon_url: Option<Seq<char>> },
    Sleep,
    Health,
    ListConnections,
    Pause { millis: u64 },
    WakeAtOnce { count: usize },
}

impl View for ClientAsk {
    type V = AskView;

    open spec fn view(&self) -> AskView {
        match self {
            ClientAsk::Status => AskView::Status,
            ClientAsk::Wake { daemon_url } => AskView::Wake { daemon_url: opt_view(*daemon_url) },
            ClientAsk::Sleep => AskView::Sleep,
            ClientAsk::Health => AskView::Health,
            ClientAsk::ListConnections => AskView::ListConnections,
            ClientAsk::Pause { millis } => AskView::Pause { millis: *millis },
            ClientAsk::WakeAtOnce { count } => AskView::WakeAtOnce { count: *count },
        }
    }
}

/// What is answered.
#[derive(Debug)]
pub enum ClientAnswer {
    Status(Result<ClientStatus, String>),
    Wake(Result<WakeResponse, String>),
    Sleep(Result<SleepResponse, String>),
    Health(Result<HealthResponse, String>),
    Connections(Result<Vec<ConnectionInfo>, String>),
    Done,
    /// The status in each answer to a wake, where there was one.
    Wakes(Vec<Option<String>>),
}

/// The mathematical counterpart of [`ClientAnswer`].
pub enum AnswerView {
    Status(Result<ClientStatusView, Seq<char>>),
    Wake(Result<WakeView, Seq<char>>),
    /// The status.
    Sleep(Result<Seq<char>, Seq<char>>),
    /// The status and the service.
    Health(Result<(Seq<char>, Seq<char>), Seq<char>>),
    Connections(Result<Seq<ConnectionInfoView>, Seq<char>>),
    Done,
    Wakes(Seq<Option<Seq<char>>>),
}

/// The statuses of a list.
pub open spec fn wake_views(list: Seq<Option<String>>) -> Seq<Option<Seq<char>>> {
    list.map_values(|s: Option<String>| opt_view(s))
}

impl View for ClientAnswer {
    type V = AnswerView;

    open spec fn view(&self) -> AnswerView {
        match self {
            ClientAnswer::Status(r) => AnswerView::Status(
                match r {
                    Ok(s) => Ok(s@),
                    Err(e) => Err(e@),
                },
            ),
            ClientAnswer::Wake(r) => AnswerView::Wake(
                match r {
                    Ok(w) => Ok(w@),
                    Err(e) => Err(e@),
                },
            ),
            ClientAnswer::Sleep(r) => AnswerView::Sleep(
                match r {
                    Ok(s) => Ok(s.status@),
                    Err(e) => Err(e@),
                },
            ),
            ClientAnswer::Health(r) => AnswerView::Health(
                match r {
                    Ok(h) => Ok((h.status@, h.service@)),
                    Err(e) => Err(e@),
                },
            ),
            ClientAnswer::Connections(r) => AnswerView::Connections(
                match r {
                    Ok(c) => Ok(connection_views(c@)),
                    Err(e) => Err(e@),
                },
            ),
            ClientAnswer::Done => AnswerView::Done,
            ClientAnswer::Wakes(list) => AnswerView::Wakes(wake_views(list@)),
        }
    }
}

impl AskView {
    /// An answer is of the kind that answers the question.
    pub open spec fn is_answered_by(self, answer: AnswerView) -> bool {
        match self {
            AskView::Status => answer is Status,
            AskView::Wake { .. } => answer is Wake,
            AskView::Sleep => answer is Sleep,
            AskView::Health => answer is Health,
            AskView::ListConnections => answer is Connections,
            AskView::Pause { .. } => answer is Done,
            AskView::WakeAtOnce { .. } => answer is Wakes,
        }
    }
}

impl ClientAsk {
    /// Whether an answer is of the kind that answers the question.
    pub fn answered_by(&self, answer: &ClientAnswer) -> (r: bool)
        ensures
            r == self@.is_answered_by(answer@),
    {
        match self {
            ClientAsk::Status => matches!(answer, ClientAnswer::Status(_)),
            ClientAsk::Wake { .. } => matches!(answer, ClientAnswer::Wake(_)),
            ClientAsk::Sleep => matches!(answer, ClientAnswer::Sleep(_)),
            ClientAsk::Health => matches!(answer, ClientAnswer::Health(_)),
            ClientAsk::ListConnections => matches!(answer, ClientAnswer::Connections(_)),
            ClientAsk::Pause { .. } => matches!(answer, ClientAnswer::Done),
            ClientAsk::WakeAtOnce { .. } => matches!(answer, ClientAnswer::Wakes(_)),
        }
    }
}

/// How a scenario goes on.
#[derive(Debug)]
pub enum ClientNext {
    Ask(ClientAsk),
    Finish(Result<(), String>),
}

/// The mathematical counterpart of [`ClientNext`].
pub enum ClientNextView {
    Ask(AskView),
    Finish(Result<(), Seq<char>>),
}

impl View for ClientNext {
    type V = ClientNextView;

    open spec fn view(&self) -> ClientNextView {
        match self {
            ClientNext::Ask(a) => ClientNextView::Ask(a@),
            ClientNext::Finish(r) => ClientNextView::Finish(
                match r {
                    Ok(_) => Ok(()),
                    Err(e) => Err(e@),
                },
            ),
        }
    }
}

// ---------------------------------------------------------------------------
// Scenarios
// ---------------------------------------------------------------------------

/// The scenarios.
#[derive(Debug, Clone, Copy, PartialEq, Eq, Structural)]
pub enum ClientCase {
    /// A client sleeps at first.
    InitialStateSleeping,
    /// A client that sleeps can be woken.
    WakeTransitionsToAwake,
    /// A client that is awake can be put to sleep.
    SleepTransitionsToSleeping,
    /// Waking a client that is awake changes nothing.
    WakeIsIdempotent,
    /// Putting a client to sleep that sleeps changes nothing.
    SleepIsIdempotent,
    /// The health of a client is told in the agreed form.
    HealthEndpointFormat,
    /// The status of a client is told in the agreed form.
    StatusEndpointFormat,
    /// A client cannot be woken without a daemon.
    WakeWithoutDaemonFails,
    /// Waking a client several times at once registers it once.
    ConcurrentWakeIsSafe,
}

/// The name and the description of a scenario.
pub open spec fn case_title(case: ClientCase) -> (Seq<char>, Seq<char>) {
    match case {
        ClientCase::InitialStateSleeping => ("ST001"@, "Initial state is SLEEPING"@),
        ClientCase::WakeTransitionsToAwake => ("ST002"@, "Wake transitions to AWAKE"@),
        ClientCase::SleepTransitionsToSleeping => ("ST003"@, "Sleep transitions to SLEEPING"@),
        ClientCase::WakeIsIdempotent => ("ST004"@, "Wake is idempotent"@),
        ClientCase::SleepIsIdempotent => ("ST005"@, "Sleep is idempotent"@),
        ClientCase::HealthEndpointFormat => ("EP001"@, "Health endpoint format"@),
        ClientCase::StatusEndpointFormat => ("EP002"@, "Status endpoint format"@),
        ClientCase::WakeWithoutDaemonFails => ("EH001"@, "Wake without daemon fails"@),
        ClientCase::ConcurrentWakeIsSafe => ("CC001"@, "Concurrent wake is safe"@),
    }
}

/// What a scenario asks first.
pub open spec fn first_ask(case: ClientCase) -> AskView {
    match case {
        ClientCase::InitialStateSleeping => AskView::Status,
        ClientCase::WakeTransitionsToAwake => AskView::Wake { daemon_url: None },
        ClientCase::SleepTransitionsToSleeping => AskView::Status,
        ClientCase::WakeIsIdempotent => AskView::Wake { daemon_url: None },
        ClientCase::SleepIsIdempotent => AskView::Sleep,
        ClientCase::HealthEndpointFormat => AskView::Health,
        ClientCase::StatusEndpointFormat => AskView::Status,
        ClientCase::WakeWithoutDaemonFails => AskView::Wake {
            daemon_url: Some("http://127.0.0.1:1"@),
        },
        ClientCase::ConcurrentWakeIsSafe => AskView::WakeAtOnce { count: 5 },
    }
}

/// What a scenario waits for.
#[derive(Debug, Clone, Copy, PartialEq, Eq, Structural)]
pub enum Awaited {
    /// The status before anything was changed.
    FirstStatus,
    Wake,
    Sleep,
    Health,
    Wakes,
    /// The status after a change.
    Status,
    Pause,
    Connections,
    Nothing,
}

/// A scenario that runs.
#[derive(Debug)]
pub struct ClientScenario {
    pub case: ClientCase,
    pub awaited: Awaited,
    /// The port of the debug adapter, once the client was woken.
    pub debug_port: u16,
    /// What the client is registered as, once it is known.
    pub connection_id: Option<String>,
    /// How many clients said that they were awake already.
    pub already_awake: usize,
}

/// The mathematical counterpart of [`ClientScenario`].
pub struct ScenarioView {
    pub case: ClientCase,
    pub awaited: Awaited,
    pub debug_port: u16,
    pub connection_id: Option<Seq<char>>,
    pub already_awake: usize,
}

impl View for ClientScenario {
    type V = ScenarioView;

    open spec fn view(&self) -> ScenarioView {
        ScenarioView {
            case: self.case,
            awaited: self.awaited,
            debug_port: self.debug_port,
            connection_id: opt_view(self.connection_id),
            already_awake: self.already_awake,
        }
    }
}

/// A turn of a scenario: the state that it leaves, what is reported, and what comes next.
pub struct ClientTurn {
    pub state: ScenarioView,
    pub log: Seq<ReportView>,
    pub next: ClientNextView,
}

/// A question follows.
pub open spec fn asks(s: ScenarioView, awaited: Awaited, ask: AskView) -> ClientTurn {
    ClientTurn {
        state: ScenarioView { awaited, ..s },
        log: Seq::empty(),
        next: ClientNextView::Ask(ask),
    }
}

/// An answer is not what it has to be: the step fails, and the scenario with it.
pub open spec fn refuses(s: ScenarioView, message: Seq<char>) -> ClientTurn {
    ClientTurn {
        state: ScenarioView { awaited: Awaited::Nothing, ..s },
        log: Seq::<ReportView>::empty().push(failed(message)),
        next: ClientNextView::Finish(Err(message)),
    }
}

/// There is no answer: the scenario fails, and nothing is reported.
pub open spec fn breaks(s: ScenarioView, error: Seq<char>) -> ClientTurn {
    ClientTurn {
        state: ScenarioView { awaited: Awaited::Nothing, ..s },
        log: Seq::empty(),
        next: ClientNextView::Finish(Err(error)),
    }
}

/// The scenario is passed.
pub open spec fn passes(s: ScenarioView, details: Seq<char>) -> ClientTurn {
    ClientTurn {
        state: ScenarioView { awaited: Awaited::Nothing, ..s },
        log: Seq::<ReportView>::empty().push(success(details)),
        next: ClientNextView::Finish(Ok(())),
    }
}

/// Another value was expected.
pub open spec fn expected(what: Seq<char>, value: Seq<char>, got: Seq<char>) -> Seq<char> {
    what + value + "', got '"@ + got + "'"@
}

/// The scenario goes on with the status of the client after a change.
pub open spec fn on_status(s: ScenarioView, status: ClientStatusView) -> ClientTurn {
    match s.case {
        ClientCase::InitialStateSleeping => if status.state != "sleeping"@ {
            refuses(s, expected("Expected '"@, "sleeping"@, status.state))
        } else if status.connection_id is Some {
            refuses(s, "Expected connection_id to be null"@)
        } else {
            passes(s, "State is 'sleeping', connection_id is null"@)
        },
        ClientCase::WakeTransitionsToAwake => if status.state != "awake"@ {
            refuses(s, expected("Status state should be '"@, "awake"@, status.state))
        } else if status.connection_id is None {
            refuses(s, "connection_id should be present after wake"@)
        } else {
            asks(
                ScenarioView { connection_id: status.connection_id, ..s },
                Awaited::Connections,
                AskView::ListConnections,
            )
        },
        ClientCase::SleepTransitionsToSleeping => if status.state != "sleeping"@ {
            refuses(s, expected("Status state should be '"@, "sleeping"@, status.state))
        } else if status.connection_id is Some {
            refuses(s, "connection_id should be null after sleep"@)
        } else if s.connection_id is Some {
            asks(s, Awaited::Pause, AskView::Pause { millis: 100 })
        } else {
            passes(s, "State is 'sleeping', connection unregistered"@)
        },
        ClientCase::WakeIsIdempotent => if status.state != "awake"@ {
            refuses(s, expected("State should remain '"@, "awake"@, status.state))
        } else {
            passes(s, "Second wake returned 'already_awake'"@)
        },
        ClientCase::SleepIsIdempotent => if status.state != "sleeping"@ {
            refuses(s, expected("State should remain '"@, "sleeping"@, status.state))
        } else {
            passes(s, "Second sleep returned 'already_sleeping'"@)
        },
        ClientCase::WakeWithoutDaemonFails => if status.state != "sleeping"@ {
            refuses(s, expected("State should revert to '"@, "sleeping"@, status.state))
        } else {
            passes(s, "Wake failed as expected, state reverted to sleeping"@)
        },
        _ => if status.name.len() == 0 {
            refuses(s, "name should not be empty"@)
        } else if status.state != "sleeping"@ && status.state != "waking"@ && status.state
            != "awake"@ {
            refuses(s, "Invalid state: '"@ + status.state + "'"@)
        } else if status.control_port == 0 {
            refuses(s, "control_port should be > 0"@)
        } else {
            passes(
                s,
                "Status has all fields: state="@ + status.state + ", name="@ + status.name
                    + ", control_port="@ + decimal(status.control_port as nat),
            )
        },
    }
}

/// The scenario goes on with the answer of a client that was to wake.
pub open spec fn on_wake(s: ScenarioView, woken: Result<WakeView, Seq<char>>) -> ClientTurn {
    match s.case {
        ClientCase::WakeWithoutDaemonFails => match woken {
            Ok(_) => refuses(s, "Wake should fail with unreachable daemon"@),
            Err(_) => asks(s, Awaited::Status, AskView::Status),
        },
        ClientCase::WakeIsIdempotent => match woken {
            Ok(w) => if w.status != "already_awake"@ {
                refuses(s, expected("Expected '"@, "already_awake"@, w.status))
            } else {
                asks(s, Awaited::Status, AskView::Status)
            },
            Err(e) => breaks(s, e),
        },
        _ => match woken {
            Ok(w) => if w.status != "awake"@ {
                refuses(s, expected("Expected '"@, "awake"@, w.status))
            } else if w.debug_port == 0 {
                refuses(s, "debug_port should be > 0"@)
            } else {
                asks(
                    ScenarioView { debug_port: w.debug_port, ..s },
                    Awaited::Status,
                    AskView::Status,
                )
            },
            Err(e) => breaks(s, e),
        },
    }
}

/// The scenario goes on with the answer of a client that was to sleep.
pub open spec fn on_sleep(s: ScenarioView, slept: Result<Seq<char>, Seq<char>>) -> ClientTurn {
    let wanted = if s.case == ClientCase::SleepIsIdempotent {
        "already_sleeping"@
    } else {
        "sleeping"@
    };
    match slept {
        Ok(status) => if status != wanted {
            refuses(s, expected("Expected '"@, wanted, status))
        } else {
            asks(s, Awaited::Status, AskView::Status)
        },
        Err(e) => breaks(s, e),
    }
}

/// The scenario goes on with the health of the client.
pub open spec fn on_health(s: ScenarioView, health: Result<(Seq<char>, Seq<char>), Seq<char>>) -> ClientTurn {
    match health {
        Ok(h) => if h.0 != "ok"@ {
            refuses(s, expected("Expected status '"@, "ok"@, h.0))
        } else if h.1 != "detrix-client"@ {
            refuses(s, expected("Expected service '"@, "detrix-client"@, h.1))
        } else {
            passes(s, "Health response format correct"@)
        },
        Err(e) => breaks(s, e),
    }
}

/// The position of a connection, from `i` on.
pub open spec fn connection_index(list: Seq<ConnectionInfoView>, id: Seq<char>, i: nat) -> Option<nat>
    decreases list.len() - i,
{
    if i >= list.len() {
        None
    } else if list[i as int].connection_id == id {
        Some(i)
    } else {
        connection_index(list, id, i + 1)
    }
}

/// A connection is closed, by the lowercase form of its status.
pub open spec fn says_closed(status: Seq<char>) -> bool {
    has_text(status, "disconnected"@) || has_text(status, "closed"@)
}

/// A connection is open, by the lowercase form of its status.
pub open spec fn says_connected(status: Seq<char>) -> bool {
    has_text(status, "connected"@) && !has_text(status, "disconnected"@)
}

/// How many of the first `n` connections are open.
pub open spec fn count_connected(list: Seq<ConnectionInfoView>, n: nat) -> nat
    decreases n,
{
    if n == 0 {
        0
    } else {
        count_connected(list, (n - 1) as nat) + if says_connected(lowercase(list[n - 1].status)) {
            1nat
        } else {
            0nat
        }
    }
}

/// The scenario goes on with the connections that the daemon knows.
pub open spec fn on_connections(s: ScenarioView, list: Seq<ConnectionInfoView>) -> ClientTurn {
    match s.case {
        ClientCase::WakeTransitionsToAwake => match (match s.connection_id {
            Some(id) => connection_index(list, id, 0),
            None => None,
        }) {
            Some(_) => passes(
                s,
                "State is 'awake', debug_port="@ + decimal(s.debug_port as nat)
                    + ", connection registered"@,
            ),
            None => refuses(s, "Daemon should have the registered connection"@),
        },
        ClientCase::SleepTransitionsToSleeping => match s.connection_id {
            Some(id) => match connection_index(list, id, 0) {
                Some(k) => if says_closed(lowercase(list[k as int].status)) {
                    passes(s, "State is 'sleeping', connection unregistered"@)
                } else {
                    refuses(
                        s,
                        "Connection '"@ + id + "' should be disconnected but status is '"@
                            + list[k as int].status + "'"@,
                    )
                },
                None => passes(s, "State is 'sleeping', connection unregistered"@),
            },
            None => passes(s, "State is 'sleeping', connection unregistered"@),
        },
        _ => {
            let n = count_connected(list, list.len());
            if n != 1 {
                refuses(s, "Expected exactly 1 connected connection in daemon, got "@ + decimal(n))
            } else {
                passes(
                    s,
                    "1 'awake' + "@ + decimal(s.already_awake as nat)
                        + " 'already_awake', 1 daemon connection"@,
                )
            }
        },
    }
}

/// How many of the first `n` answers have a status.
pub open spec fn count_wakes(list: Seq<Option<Seq<char>>>, status: Seq<char>, n: nat) -> nat
    decreases n,
{
    if n == 0 {
        0
    } else {
        count_wakes(list, status, (n - 1) as nat) + if list[n - 1] == Some(status) {
            1nat
        } else {
            0nat
        }
    }
}

/// The scenario goes on with the answers to several wakes at once.
pub open spec fn on_wakes(s: ScenarioView, list: Seq<Option<Seq<char>>>) -> ClientTurn {
    let awake = count_wakes(list, "awake"@, list.len());
    if awake != 1 {
        refuses(s, "Expected exactly 1 'awake', got "@ + decimal(awake))
    } else {
        asks(
            ScenarioView {
                already_awake: count_wakes(list, "already_awake"@, list.len()) as usize,
                ..s
            },
            Awaited::Connections,
            AskView::ListConnections,
        )
    }
}

/// The scenario goes on.
pub open spec fn on_answer(s: ScenarioView, answer: AnswerView) -> ClientTurn {
    match answer {
        AnswerView::Status(r) => match r {
            Ok(status) => if s.awaited == Awaited::FirstStatus {
                asks(
                    ScenarioView { connection_id: status.connection_id, ..s },
                    Awaited::Sleep,
                    AskView::Sleep,
                )
            } else {
                on_status(s, status)
            },
            Err(e) => breaks(s, e),
        },
        AnswerView::Wake(r) => on_wake(s, r),
        AnswerView::Sleep(r) => on_sleep(s, r),
        AnswerView::Health(r) => on_health(s, r),
        AnswerView::Connections(r) => match r {
            Ok(list) => on_connections(s, list),
            Err(e) => breaks(s, e),
        },
        AnswerView::Done => asks(s, Awaited::Connections, AskView::ListConnections),
        AnswerView::Wakes(list) => on_wakes(s, list),
    }
}

/// An answer is of the kind that is waited for.
pub open spec fn awaits(awaited: Awaited, answer: AnswerView) -> bool {
    match awaited {
        Awaited::FirstStatus => answer is Status,
        Awaited::Status => answer is Status,
        Awaited::Wake => answer is Wake,
        Awaited::Sleep => answer is Sleep,
        Awaited::Health => answer is Health,
        Awaited::Wakes => answer is Wakes,
        Awaited::Pause => answer is Done,
        Awaited::Connections => answer is Connections,
        Awaited::Nothing => false,
    }
}

/// What a scenario waits for first.
pub open spec fn first_awaited(case: ClientCase) -> Awaited {
    match case {
        ClientCase::InitialStateSleeping => Awaited::Status,
        ClientCase::WakeTransitionsToAwake => Awaited::Wake,
        ClientCase::SleepTransitionsToSleeping => Awaited::FirstStatus,
        ClientCase::WakeIsIdempotent => Awaited::Wake,
        ClientCase::SleepIsIdempotent => Awaited::Sleep,
        ClientCase::HealthEndpointFormat => Awaited::Health,
        ClientCase::StatusEndpointFormat => Awaited::Status,
        ClientCase::WakeWithoutDaemonFails => Awaited::Wake,
        ClientCase::ConcurrentWakeIsSafe => Awaited::Wakes,
    }
}

/// How a scenario begins: its step is started, and the first question asked.
pub open spec fn begins(case: ClientCase) -> ClientTurn {
    ClientTurn {
        state: ScenarioView {
            case,
            awaited: first_awaited(case),
            debug_port: 0,
            connection_id: None,
            already_awake: 0,
        },
        log: Seq::<ReportView>::empty().push(start(case_title(case).0, case_title(case).1)),
        next: ClientNextView::Ask(first_ask(case)),
    }
}

/// A step of a scenario: what is reported, and what comes next.
#[derive(Debug)]
pub struct ClientStep {
    pub log: Log,
    pub next: ClientNext,
}

impl ClientStep {
    /// The step together with the state that it leaves.
    pub open spec fn turn(self, state: ScenarioView) -> ClientTurn {
        ClientTurn { state, log: self.log@, next: self.next@ }
    }
}

fn expected_text(what: &str, value: &str, got: &str) -> (r: String)
    ensures
        r@ == expected(what@, value@, got@),
{
    cat5(what, value, "', got '", got, "'")
}

fn find_connection(list: &Vec<ConnectionInfo>, id: &str) -> (r: Option<usize>)
    ensures
        match r {
            Some(k) => connection_index(connection_views(list@), id@, 0) == Some(k as nat) && k
                < list.len(),
            None => connection_index(connection_views(list@), id@, 0) is None,
        },
{
    let mut i: usize = 0;
    while i < list.len()
        invariant
            i <= list.len(),
            connection_index(connection_views(list@), id@, i as nat) == connection_index(
                connection_views(list@),
                id@,
                0,
            ),
        decreases list.len() - i,
    {
        assert(connection_views(list@)[i as int] == list@[i as int]@);
        if same_text(list[i].connection_id.as_str(), id) {
            return Some(i);
        }
        i = i + 1;
    }
    None
}

/// Whether a connection is open, by the lowercase form of its status.
pub fn is_connected(status: &str) -> (r: bool)
    ensures
        r == says_connected(status@),
{
    contains(status, "connected") && !contains(status, "disconnected")
}

/// Whether a connection is closed, by the lowercase form of its status.
pub fn is_closed(status: &str) -> (r: bool)
    ensures
        r == says_closed(status@),
{
    contains(status, "disconnected") || contains(status, "closed")
}

fn connected_count(list: &Vec<ConnectionInfo>) -> (r: usize)
    ensures
        r == count_connected(connection_views(list@), list@.len()),
{
    let mut n: usize = 0;
    let mut i: usize = 0;
    while i < list.len()
        invariant
            i <= list.len(),
            n <= i,
            n == count_connected(connection_views(list@), i as nat),
        decreases list.len() - i,
    {
        assert(connection_views(list@)[i as int] == list@[i as int]@);
        let status: String = to_lowercase(list[i].status.as_str());
        if is_connected(status.as_str()) {
            n = n + 1;
        }
        i = i + 1;
    }
    n
}

fn wakes_with(list: &Vec<Option<String>>, status: &str) -> (r: usize)
    ensures
        r == count_wakes(wake_views(list@), status@, list@.len()),
{
    let mut n: usize = 0;
    let mut i: usize = 0;
    while i < list.len()
        invariant
            i <= list.len(),
            n <= i,
            n == count_wakes(wake_views(list@), status@, i as nat),
        decreases list.len() - i,
    {
        assert(wake_views(list@)[i as int] == opt_view(list@[i as int]));
        match &list[i] {
            Some(s) => {
                if same_text(s.as_str(), status) {
                    n = n + 1;
                }
            },
            None => {},
        }
        i = i + 1;
    }
    n
}

/// The scenarios, by their names.
#[derive(Debug)]
pub struct ClientTestScenarios;

impl ClientTestScenarios {
    fn begin(case: ClientCase, awaited: Awaited) -> (r: ClientScenario)
        ensures
            r@ == (ScenarioView {
                case,
                awaited,
                debug_port: 0,
                connection_id: None,
                already_awake: 0,
            }),
    {
        ClientScenario { case, awaited, debug_port: 0, connection_id: None, already_awake: 0 }
    }

    /// Begins a scenario: its step is started, and the first question asked.
    pub fn start(case: ClientCase) -> (r: (ClientScenario, ClientStep))
        ensures
            r.1.turn(r.0@) == begins(case),
    {
        let mut log = Log::new();
        match case {
            ClientCase::InitialStateSleeping => {
                log.start("ST001", "Initial state is SLEEPING");
                let s = ClientTestScenarios::begin(case, Awaited::Status);
                (s, ClientStep { log, next: ClientNext::Ask(ClientAsk::Status) })
            },
            ClientCase::WakeTransitionsToAwake => {
                log.start("ST002", "Wake transitions to AWAKE");
                let s = ClientTestScenarios::begin(case, Awaited::Wake);
                let next = ClientNext::Ask(ClientAsk::Wake { daemon_url: None });
                (s, ClientStep { log, next })
            },
            ClientCase::SleepTransitionsToSleeping => {
                log.start("ST003", "Sleep transitions to SLEEPING");
                let s = ClientTestScenarios::begin(case, Awaited::FirstStatus);
                (s, ClientStep { log, next: ClientNext::Ask(ClientAsk::Status) })
            },
            ClientCase::WakeIsIdempotent => {
                log.start("ST004", "Wake is idempotent");
                let s = ClientTestScenarios::begin(case, Awaited::Wake);
                let next = ClientNext::Ask(ClientAsk::Wake { daemon_url: None });
                (s, ClientStep { log, next })
            },
            ClientCase::SleepIsIdempotent => {
                log.start("ST005", "Sleep is idempotent");
                let s = ClientTestScenarios::begin(case, Awaited::Sleep);
                (s, ClientStep { log, next: ClientNext::Ask(ClientAsk::Sleep) })
            },
            ClientCase::HealthEndpointFormat => {
                log.start("EP001", "Health endpoint format");
                let s = ClientTestScenarios::begin(case, Awaited::Health);
                (s, ClientStep { log, next: ClientNext::Ask(ClientAsk::Health) })
            },
            ClientCase::StatusEndpointFormat => {
                log.start("EP002", "Status endpoint format");
                let s = ClientTestScenarios::begin(case, Awaited::Status);
                (s, ClientStep { log, next: ClientNext::Ask(ClientAsk::Status) })
            },
            ClientCase::WakeWithoutDaemonFails => {
                log.start("EH001", "Wake without daemon fails");
                let s = ClientTestScenarios::begin(case, Awaited::Wake);
                let daemon_url: Option<String> = Some("http://127.0.0.1:1".to_owned());
                (s, ClientStep { log, next: ClientNext::Ask(ClientAsk::Wake { daemon_url }) })
            },
            ClientCase::ConcurrentWakeIsSafe => {
                log.start("CC001", "Concurrent wake is safe");
                let s = ClientTestScenarios::begin(case, Awaited::Wakes);
                (s, ClientStep { log, next: ClientNext::Ask(ClientAsk::WakeAtOnce { count: 5 }) })
            },
        }
    }

    /// A client sleeps at first, and is not registered.
    pub fn initial_state_sleeping() -> (r: (ClientScenario, ClientStep))
        ensures
            r.1.turn(r.0@) == begins(ClientCase::InitialStateSleeping),
    {
        ClientTestScenarios::start(ClientCase::InitialStateSleeping)
    }

    /// A client that sleeps can be woken, and the daemon then knows it.
    pub fn wake_transitions_to_awake() -> (r: (ClientScenario, ClientStep))
        ensures
            r.1.turn(r.0@) == begins(ClientCase::WakeTransitionsToAwake),
    {
        ClientTestScenarios::start(ClientCase::WakeTransitionsToAwake)
    }

    /// A client that is awake can be put to sleep, and the daemon then knows it no longer or as
    /// disconnected.
    pub fn sleep_transitions_to_sleeping() -> (r: (ClientScenario, ClientStep))
        ensures
            r.1.turn(r.0@) == begins(ClientCase::SleepTransitionsToSleeping),
    {
        ClientTestScenarios::start(ClientCase::SleepTransitionsToSleeping)
    }

    /// Waking a client that is awake changes nothing.
    pub fn wake_is_idempotent() -> (r: (ClientScenario, ClientStep))
        ensures
            r.1.turn(r.0@) == begins(ClientCase::WakeIsIdempotent),
    {
        ClientTestScenarios::start(ClientCase::WakeIsIdempotent)
    }

    /// Putting a client to sleep that sleeps changes nothing.
    pub fn sleep_is_idempotent() -> (r: (ClientScenario, ClientStep))
        ensures
            r.1.turn(r.0@) == begins(ClientCase::SleepIsIdempotent),
    {
        ClientTestScenarios::start(ClientCase::SleepIsIdempotent)
    }

    /// The health of a client is told in the agreed form.
    pub fn health_endpoint_format() -> (r: (ClientScenario, ClientStep))
        ensures
            r.1.turn(r.0@) == begins(ClientCase::HealthEndpointFormat),
    {
        ClientTestScenarios::start(ClientCase::HealthEndpointFormat)
    }

    /// The status of a client is told in the agreed form.
    pub fn status_endpoint_format() -> (r: (ClientScenario, ClientStep))
        ensures
            r.1.turn(r.0@) == begins(ClientCase::StatusEndpointFormat),
    {
        ClientTestScenarios::start(ClientCase::StatusEndpointFormat)
    }

    /// A client cannot be woken without a daemon, and sleeps on.
    pub fn wake_without_daemon_fails() -> (r: (ClientScenario, ClientStep))
        ensures
            r.1.turn(r.0@) == begins(ClientCase::WakeWithoutDaemonFails),
    {
        ClientTestScenarios::start(ClientCase::WakeWithoutDaemonFails)
    }

    /// Waking a client several times at once registers it once.
    pub fn concurrent_wake_is_safe() -> (r: (ClientScenario, ClientStep))
        ensures
            r.1.turn(r.0@) == begins(ClientCase::ConcurrentWakeIsSafe),
    {
        ClientTestScenarios::start(ClientCase::ConcurrentWakeIsSafe)
    }

    /// The scenarios of the full suite, in order. They bring a client that sleeps to wake, to
    /// sleep again, and to refuse what it has to refuse.
    pub fn run_full_suite() -> (r: Vec<ClientCase>)
        ensures
            r@ == full_suite(),
    {
        let r: Vec<ClientCase> = vec![
            ClientCase::InitialStateSleeping,
            ClientCase::HealthEndpointFormat,
            ClientCase::StatusEndpointFormat,
            ClientCase::SleepIsIdempotent,
            ClientCase::WakeTransitionsToAwake,
            ClientCase::WakeIsIdempotent,
            ClientCase::SleepTransitionsToSleeping,
            ClientCase::SleepIsIdempotent,
            ClientCase::WakeWithoutDaemonFails,
            ClientCase::ConcurrentWakeIsSafe,
        ];
        assert(r@ =~= full_suite());
        r
    }
}

/// The scenarios of the full suite, in order.
pub open spec fn full_suite() -> Seq<ClientCase> {
    seq![
        ClientCase::InitialStateSleeping,
        ClientCase::HealthEndpointFormat,
        ClientCase::StatusEndpointFormat,
        ClientCase::SleepIsIdempotent,
        ClientCase::WakeTransitionsToAwake,
        ClientCase::WakeIsIdempotent,
        ClientCase::SleepTransitionsToSleeping,
        ClientCase::SleepIsIdempotent,
        ClientCase::WakeWithoutDaemonFails,
        ClientCase::ConcurrentWakeIsSafe,
    ]
}

// ---------------------------------------------------------------------------
// The full suite
// ---------------------------------------------------------------------------

/// How the full suite goes on.
#[derive(Debug)]
pub enum SuiteNext {
    /// Run a scenario.
    Run(ClientCase),
    Finish(Result<(), String>),
}

/// What the full suite prints, and how it goes on.
#[derive(Debug)]
pub struct SuiteStep {
    /// Whether the header is printed first.
    pub header: bool,
    /// Whether the footer is printed, with success.
    pub footer: bool,
    pub next: SuiteNext,
}

/// The full suite, at the scenario that it runs.
#[derive(Debug)]
pub struct FullSuite {
    pub position: usize,
}

/// The mathematical counterpart of [`SuiteNext`].
pub enum SuiteNextView {
    Run(ClientCase),
    Finish(Result<(), Seq<char>>),
}

/// One turn of the full suite: the position of its scenario, what it prints, and how it goes on.
pub struct SuiteTurn {
    pub position: int,
    pub header: bool,
    pub footer: bool,
    pub next: SuiteNextView,
}

/// An outcome.
pub open spec fn outcome_text(outcome: Result<(), String>) -> Result<(), Seq<char>> {
    match outcome {
        Ok(_) => Ok(()),
        Err(e) => Err(e@),
    }
}

impl SuiteStep {
    /// The step as a turn of the suite.
    pub open spec fn turn(&self, suite: FullSuite) -> SuiteTurn {
        SuiteTurn {
            position: suite.position as int,
            header: self.header,
            footer: self.footer,
            next: match self.next {
                SuiteNext::Run(case) => SuiteNextView::Run(case),
                SuiteNext::Finish(outcome) => SuiteNextView::Finish(outcome_text(outcome)),
            },
        }
    }
}

/// The suite begins with its header and its first scenario.
pub open spec fn suite_begins() -> SuiteTurn {
    SuiteTurn {
        position: 0,
        header: true,
        footer: false,
        next: SuiteNextView::Run(full_suite()[0]),
    }
}

/// How the suite goes on with what came of its scenario: a failure ends it, and the next scenario
/// follows on a success, or the footer on that of the last one.
pub open spec fn suite_goes_on(position: int, outcome: Result<(), Seq<char>>) -> SuiteTurn {
    match outcome {
        Err(_) => SuiteTurn {
            position,
            header: false,
            footer: false,
            next: SuiteNextView::Finish(outcome),
        },
        Ok(_) => if position + 1 < full_suite().len() {
            SuiteTurn {
                position: position + 1,
                header: false,
                footer: false,
                next: SuiteNextView::Run(full_suite()[position + 1]),
            }
        } else {
            SuiteTurn {
                position,
                header: false,
                footer: true,
                next: SuiteNextView::Finish(outcome),
            }
        },
    }
}

impl FullSuite {
    /// Begins the full suite.
    pub fn start() -> (r: (FullSuite, SuiteStep))
        ensures
            r.1.turn(r.0) == suite_begins(),
    {
        (
            FullSuite { position: 0 },
            SuiteStep {
                header: true,
                footer: false,
                next: SuiteNext::Run(ClientCase::InitialStateSleeping),
            },
        )
    }

    /// Takes what came of the scenario.
    pub fn resume(&mut self, outcome: Result<(), String>) -> (r: SuiteStep)
        requires
            old(self).position < full_suite().len(),
        ensures
            r.turn(*final(self)) == suite_goes_on(old(self).position as int, outcome_text(outcome)),
            final(self).position < full_suite().len(),
    {
        match outcome {
            Err(e) => SuiteStep { header: false, footer: false, next: SuiteNext::Finish(Err(e)) },
            Ok(_) => {
                let cases: Vec<ClientCase> = ClientTestScenarios::run_full_suite();
                if self.position + 1 < cases.len() {
                    self.position = self.position + 1;
                    SuiteStep {
                        header: false,
                        footer: false,
                        next: SuiteNext::Run(cases[self.position]),
                    }
                } else {
                    SuiteStep { header: false, footer: true, next: SuiteNext::Finish(Ok(())) }
                }
            },
        }
    }
}

/// The turns of a whole suite and what came of its scenarios.
pub open spec fn is_whole_suite(
    turns: Seq<SuiteTurn>,
    outcomes: Seq<Result<(), Seq<char>>>,
) -> bool {
    &&& turns.len() == outcomes.len() + 1
    &&& turns[0] == suite_begins()
    &&& forall|i: int| 0 <= i < outcomes.len() ==> #[trigger] suite_leads_on(turns, outcomes, i)
    &&& turns.last().next is Finish
}

/// The turn at `i` runs a scenario, and the one behind it is what the outcome asks for.
pub open spec fn suite_leads_on(
    turns: Seq<SuiteTurn>,
    outcomes: Seq<Result<(), Seq<char>>>,
    i: int,
) -> bool {
    turns[i].next is Run && turns[i + 1] == suite_goes_on(turns[i].position, outcomes[i])
}

proof fn lemma_suite_so_far(
    turns: Seq<SuiteTurn>,
    outcomes: Seq<Result<(), Seq<char>>>,
    i: int,
)
    requires
        is_whole_suite(turns, outcomes),
        0 <= i < outcomes.len(),
    ensures
        i < full_suite().len(),
        turns[i].position == i,
        turns[i].next == SuiteNextView::Run(full_suite()[i]),
        turns[i].header <==> i == 0,
        !turns[i].footer,
        forall|j: int| 0 <= j < i ==> #[trigger] outcomes[j] is Ok,
    decreases i,
{
    if i > 0 {
        lemma_suite_so_far(turns, outcomes, i - 1);
        assert(suite_leads_on(turns, outcomes, i - 1));
        assert(suite_leads_on(turns, outcomes, i));
    }
}

/// The full suite runs its scenarios in their order and stops at the first failure, which is its
/// outcome. The header comes first and only there; the footer comes last, and only after every
/// scenario was passed.
pub proof fn law_suite_stops_at_first_failure(
    turns: Seq<SuiteTurn>,
    outcomes: Seq<Result<(), Seq<char>>>,
)
    requires
        is_whole_suite(turns, outcomes),
    ensures
        outcomes.len() > 0,
        forall|i: int|
            0 <= i < outcomes.len() ==> (#[trigger] turns[i]).next == SuiteNextView::Run(
                full_suite()[i],
            ) && (turns[i].header <==> i == 0) && !turns[i].footer,
        forall|i: int| 0 <= i < outcomes.len() - 1 ==> #[trigger] outcomes[i] is Ok,
        !turns.last().header,
        turns.last().next == SuiteNextView::Finish(outcomes.last()),
        turns.last().footer <==> outcomes.last() is Ok,
        outcomes.last() is Ok ==> outcomes.len() == full_suite().len(),
{
    if outcomes.len() == 0 {
        assert(turns[0].next is Run);
    }
    assert forall|i: int| 0 <= i < outcomes.len() implies (#[trigger] turns[i]).next
        == SuiteNextView::Run(full_suite()[i]) && (turns[i].header <==> i == 0)
        && !turns[i].footer by {
        lemma_suite_so_far(turns, outcomes, i);
    }
    let last = outcomes.len() - 1;
    lemma_suite_so_far(turns, outcomes, last);
    assert(suite_leads_on(turns, outcomes, last));
}

impl ClientScenario {
    fn ask(&mut self, awaited: Awaited, ask: ClientAsk) -> (r: ClientStep)
        ensures
            r.turn(final(self)@) == asks(old(self)@, awaited, ask@),
    {
        self.awaited = awaited;
        ClientStep { log: Log::new(), next: ClientNext::Ask(ask) }
    }

    fn refuse(&mut self, message: String) -> (r: ClientStep)
        ensures
            r.turn(final(self)@) == refuses(old(self)@, message@),
    {
        self.awaited = Awaited::Nothing;
        let mut log = Log::new();
        log.failed(message.as_str());
        ClientStep { log, next: ClientNext::Finish(Err(message)) }
    }

    fn give_up(&mut self, error: String) -> (r: ClientStep)
        ensures
            r.turn(final(self)@) == breaks(old(self)@, error@),
    {
        self.awaited = Awaited::Nothing;
        ClientStep { log: Log::new(), next: ClientNext::Finish(Err(error)) }
    }

    fn pass(&mut self, details: &str) -> (r: ClientStep)
        ensures
            r.turn(final(self)@) == passes(old(self)@, details@),
    {
        self.awaited = Awaited::Nothing;
        let mut log = Log::new();
        log.success(details);
        ClientStep { log, next: ClientNext::Finish(Ok(())) }
    }

    fn after_status(&mut self, status: ClientStatus) -> (r: ClientStep)
        ensures
            r.turn(final(self)@) == on_status(old(self)@, status@),
    {
        let state: &str = status.state.as_str();
        let sleeping: bool = same_text(state, "sleeping");
        let awake: bool = same_text(state, "awake");
        match self.case {
            ClientCase::InitialStateSleeping => {
                if !sleeping {
                    self.refuse(expected_text("Expected '", "sleeping", state))
                } else if status.connection_id.is_some() {
                    self.refuse("Expected connection_id to be null".to_owned())
                } else {
                    self.pass("State is 'sleeping', connection_id is null")
                }
            },
            ClientCase::WakeTransitionsToAwake => {
                if !awake {
                    self.refuse(expected_text("Status state should be '", "awake", state))
                } else if status.connection_id.is_none() {
                    self.refuse("connection_id should be present after wake".to_owned())
                } else {
                    self.connection_id = status.connection_id;
                    self.ask(Awaited::Connections, ClientAsk::ListConnections)
                }
            },
            ClientCase::SleepTransitionsToSleeping => {
                if !sleeping {
                    self.refuse(expected_text("Status state should be '", "sleeping", state))
                } else if status.connection_id.is_some() {
                    self.refuse("connection_id should be null after sleep".to_owned())
                } else if self.connection_id.is_some() {
                    self.ask(Awaited::Pause, ClientAsk::Pause { millis: 100 })
                } else {
                    self.pass("State is 'sleeping', connection unregistered")
                }
            },
            ClientCase::WakeIsIdempotent => {
                if !awake {
                    self.refuse(expected_text("State should remain '", "awake", state))
                } else {
                    self.pass("Second wake returned 'already_awake'")
                }
            },
            ClientCase::SleepIsIdempotent => {
                if !sleeping {
                    self.refuse(expected_text("State should remain '", "sleeping", state))
                } else {
                    self.pass("Second sleep returned 'already_sleeping'")
                }
            },
            ClientCase::WakeWithoutDaemonFails => {
                if !sleeping {
                    self.refuse(expected_text("State should revert to '", "sleeping", state))
                } else {
                    self.pass("Wake failed as expected, state reverted to sleeping")
                }
            },
            _ => {
                proof {
                    reveal_strlit("");
                }
                if same_text(status.name.as_str(), "") {
                    assert(status.name@.len() == 0);
                    self.refuse("name should not be empty".to_owned())
                } else {
                    assert(status.name@.len() != 0) by {
                        if status.name@.len() == 0 {
                            assert(status.name@ =~= ""@);
                        }
                    }
                    if !sleeping && !awake && !same_text(state, "waking") {
                        self.refuse(cat3("Invalid state: '", state, "'"))
                    } else if status.control_port == 0 {
                        self.refuse("control_port should be > 0".to_owned())
                    } else {
                        let details: String = cat6(
                            "Status has all fields: state=",
                            state,
                            ", name=",
                            status.name.as_str(),
                            ", control_port=",
                            num(status.control_port as u64).as_str(),
                        );
                        self.pass(details.as_str())
                    }
                }
            },
        }
    }

    fn after_wake(&mut self, woken: Result<WakeResponse, String>) -> (r: ClientStep)
        ensures
            r.turn(final(self)@) == on_wake(old(self)@, ClientAnswer::Wake(woken)@->Wake_0),
    {
        match self.case {
            ClientCase::WakeWithoutDaemonFails => match woken {
                Ok(_) => self.refuse("Wake should fail with unreachable daemon".to_owned()),
                Err(_) => self.ask(Awaited::Status, ClientAsk::Status),
            },
            ClientCase::WakeIsIdempotent => match woken {
                Ok(w) => {
                    if !same_text(w.status.as_str(), "already_awake") {
                        self.refuse(
                            expected_text("Expected '", "already_awake", w.status.as_str()),
                        )
                    } else {
                        self.ask(Awaited::Status, ClientAsk::Status)
                    }
                },
                Err(e) => self.give_up(e),
            },
            _ => match woken {
                Ok(w) => {
                    if !same_text(w.status.as_str(), "awake") {
                        self.refuse(expected_text("Expected '", "awake", w.status.as_str()))
                    } else if w.debug_port == 0 {
                        self.refuse("debug_port should be > 0".to_owned())
                    } else {
                        self.debug_port = w.debug_port;
                        self.ask(Awaited::Status, ClientAsk::Status)
                    }
                },
                Err(e) => self.give_up(e),
            },
        }
    }

    fn after_sleep(&mut self, slept: Result<SleepResponse, String>) -> (r: ClientStep)
        ensures
            r.turn(final(self)@) == on_sleep(old(self)@, ClientAnswer::Sleep(slept)@->Sleep_0),
    {
        let wanted: &str = match self.case {
            ClientCase::SleepIsIdempotent => "already_sleeping",
            _ => "sleeping",
        };
        match slept {
            Ok(s) => {
                if !same_text(s.status.as_str(), wanted) {
                    self.refuse(expected_text("Expected '", wanted, s.status.as_str()))
                } else {
                    self.ask(Awaited::Status, ClientAsk::Status)
                }
            },
            Err(e) => self.give_up(e),
        }
    }

    fn after_health(&mut self, health: Result<HealthResponse, String>) -> (r: ClientStep)
        ensures
            r.turn(final(self)@) == on_health(old(self)@, ClientAnswer::Health(health)@->Health_0),
    {
        match health {
            Ok(h) => {
                if !same_text(h.status.as_str(), "ok") {
                    self.refuse(expected_text("Expected status '", "ok", h.status.as_str()))
                } else if !same_text(h.service.as_str(), "detrix-client") {
                    self.refuse(
                        expected_text("Expected service '", "detrix-client", h.service.as_str()),
                    )
                } else {
                    self.pass("Health response format correct")
                }
            },
            Err(e) => self.give_up(e),
        }
    }

    fn after_connections(&mut self, list: Vec<ConnectionInfo>) -> (r: ClientStep)
        ensures
            r.turn(final(self)@) == on_connections(old(self)@, connection_views(list@)),
    {
        let id: Option<String> = clone_opt(&self.connection_id);
        match self.case {
            ClientCase::WakeTransitionsToAwake => {
                let found: Option<usize> = match &id {
                    Some(i) => find_connection(&list, i.as_str()),
                    None => None,
                };
                match found {
                    Some(_) => {
                        let details: String = cat3(
                            "State is 'awake', debug_port=",
                            num(self.debug_port as u64).as_str(),
                            ", connection registered",
                        );
                        self.pass(details.as_str())
                    },
                    None => self.refuse("Daemon should have the registered connection".to_owned()),
                }
            },
            ClientCase::SleepTransitionsToSleeping => {
                match &id {
                    Some(i) => match find_connection(&list, i.as_str()) {
                        Some(k) => {
                            assert(connection_views(list@)[k as int] == list@[k as int]@);
                            let status: String = to_lowercase(list[k].status.as_str());
                            if is_closed(status.as_str()) {
                                self.pass("State is 'sleeping', connection unregistered")
                            } else {
                                let message: String = cat5(
                                    "Connection '",
                                    i.as_str(),
                                    "' should be disconnected but status is '",
                                    list[k].status.as_str(),
                                    "'",
                                );
                                self.refuse(message)
                            }
                        },
                        None => self.pass("State is 'sleeping', connection unregistered"),
                    },
                    None => self.pass("State is 'sleeping', connection unregistered"),
                }
            },
            _ => {
                let n: usize = connected_count(&list);
                if n != 1 {
                    self.refuse(
                        cat2(
                            "Expected exactly 1 connected connection in daemon, got ",
                            num_usize(n).as_str(),
                        ),
                    )
                } else {
                    let details: String = cat3(
                        "1 'awake' + ",
                        num_usize(self.already_awake).as_str(),
                        " 'already_awake', 1 daemon connection",
                    );
                    self.pass(details.as_str())
                }
            },
        }
    }

    fn after_wakes(&mut self, list: Vec<Option<String>>) -> (r: ClientStep)
        ensures
            r.turn(final(self)@) == on_wakes(old(self)@, wake_views(list@)),
    {
        let awake: usize = wakes_with(&list, "awake");
        let already: usize = wakes_with(&list, "already_awake");
        if awake != 1 {
            self.refuse(cat2("Expected exactly 1 'awake', got ", num_usize(awake).as_str()))
        } else {
            self.already_awake = already;
            self.ask(Awaited::Connections, ClientAsk::ListConnections)
        }
    }

    /// Takes the answer to the last question, and goes on.
    pub fn resume(&mut self, answer: ClientAnswer) -> (r: ClientStep)
        requires
            awaits(old(self)@.awaited, answer@),
        ensures
            r.turn(final(self)@) == on_answer(old(self)@, answer@),
    {
        match answer {
            ClientAnswer::Status(r) => match r {
                Ok(status) => {
                    if self.awaited == Awaited::FirstStatus {
                        self.connection_id = status.connection_id;
                        self.ask(Awaited::Sleep, ClientAsk::Sleep)
                    } else {
                        self.after_status(status)
                    }
                },
                Err(e) => self.give_up(e),
            },
            ClientAnswer::Wake(r) => self.after_wake(r),
            ClientAnswer::Sleep(r) => self.after_sleep(r),
            ClientAnswer::Health(r) => self.after_health(r),
            ClientAnswer::Connections(r) => match r {
                Ok(list) => self.after_connections(list),
                Err(e) => self.give_up(e),
            },
            ClientAnswer::Done => self.ask(Awaited::Connections, ClientAsk::ListConnections),
            ClientAnswer::Wakes(list) => self.after_wakes(list),
        }
    }
}

// ---------------------------------------------------------------------------
// Laws
// ---------------------------------------------------------------------------

/// The question that a scenario asks first is answered with what it waits for.
pub proof fn law_scenario_begins(case: ClientCase, answer: AnswerView)
    requires
        first_ask(case).is_answered_by(answer),
    ensures
        awaits(first_awaited(case), answer),
{
}

/// Every question that a scenario asks is answered with what it waits for, and it is over
/// exactly when it asks nothing more.
pub proof fn law_scenario_proceeds(s: ScenarioView, answer: AnswerView)
    requires
        awaits(s.awaited, answer),
    ensures
        ({
            let turn = on_answer(s, answer);
            &&& turn.next is Finish <==> turn.state.awaited == Awaited::Nothing
            &&& turn.next matches ClientNextView::Ask(ask) ==> forall|next: AnswerView|
                ask.is_answered_by(next) ==> #[trigger] awaits(turn.state.awaited, next)
        }),
{
}

/// What is reported is how the scenario ends: a success where it is passed, and a failure with
/// the message of the error where an answer was refused. Where there was no answer, the error is
/// handed on and nothing is reported.
pub proof fn law_reports_agree_with_outcome(s: ScenarioView, answer: AnswerView)
    requires
        awaits(s.awaited, answer),
    ensures
        ({
            let turn = on_answer(s, answer);
            match turn.next {
                ClientNextView::Ask(_) => turn.log.len() == 0,
                ClientNextView::Finish(Ok(_)) => turn.log.len() == 1 && turn.log[0] matches
                    ReportView::Success(_, _),
                ClientNextView::Finish(Err(e)) => turn.log.len() == 0 || turn.log.len() == 1
                    && turn.log[0] == failed(e),
            }
        }),
{
}

/// Waking a client several times at once passes only where exactly one wake did it.
pub proof fn law_concurrent_wake(s: ScenarioView, list: Seq<Option<Seq<char>>>)
    requires
        s.case == ClientCase::ConcurrentWakeIsSafe,
        s.awaited == Awaited::Wakes,
    ensures
        on_answer(s, AnswerView::Wakes(list)).next is Ask <==> count_wakes(
            list,
            "awake"@,
            list.len(),
        ) == 1,
{
}

/// The full suite runs every scenario.
pub proof fn law_suite_is_complete(case: ClientCase)
    ensures
        full_suite().contains(case),
{
    let all = full_suite();
    assert(all[0] == ClientCase::InitialStateSleeping);
    assert(all[1] == ClientCase::HealthEndpointFormat);
    assert(all[2] == ClientCase::StatusEndpointFormat);
    assert(all[3] == ClientCase::SleepIsIdempotent);
    assert(all[4] == ClientCase::WakeTransitionsToAwake);
    assert(all[5] == ClientCase::WakeIsIdempotent);
    assert(all[6] == ClientCase::SleepTransitionsToSleeping);
    assert(all[8] == ClientCase::WakeWithoutDaemonFails);
    assert(all[9] == ClientCase::ConcurrentWakeIsSafe);
}

} // verus!
