//! When a client passes a scenario: what the answers have to be, and what was asked for them.

use vstd::prelude::*;

use crate::client::ConnectionInfoView;
use crate::client_tests::scenarios::{
    begins, connection_index, count_connected, count_wakes, on_answer, AnswerView, AskView,
    ClientCase, ClientNextView, ClientTurn,
};
use crate::client_tests::ClientStatusView;
use crate::report::ReportView;
use crate::text::{has_text, lowercase};

verus! {

/// The turns of a whole scenario and the answers to its questions.
pub open spec fn is_whole_scenario(
    case: ClientCase,
    turns: Seq<ClientTurn>,
    answers: Seq<AnswerView>,
) -> bool {
    &&& turns.len() == answers.len() + 1
    &&& turns[0] == begins(case)
    &&& forall|i: int| 0 <= i < answers.len() ==> #[trigger] answer_leads_on(turns, answers, i)
    &&& turns.last().next is Finish
}

/// The turn at `i` asks a question, the answer is one to it, and the next turn follows from it.
pub open spec fn answer_leads_on(
    turns: Seq<ClientTurn>,
    answers: Seq<AnswerView>,
    i: int,
) -> bool {
    &&& turns[i].next is Ask
    &&& turns[i].next->Ask_0.is_answered_by(answers[i])
    &&& turns[i + 1] == on_answer(turns[i].state, answers[i])
}

/// The scenario is passed.
pub open spec fn is_passed(turns: Seq<ClientTurn>) -> bool {
    turns.last().next == ClientNextView::Finish(Ok(()))
}

/// The question of a turn.
pub open spec fn questions(turns: Seq<ClientTurn>, i: int, ask: AskView) -> bool {
    turns[i].next == ClientNextView::Ask(ask)
}

/// The status that an answer gives, with a state.
pub open spec fn gives_state(answer: AnswerView, state: Seq<char>) -> bool {
    match answer {
        AnswerView::Status(Ok(status)) => status.state == state,
        _ => false,
    }
}

/// The connection that the status in an answer names.
pub open spec fn named_connection(answer: AnswerView) -> Option<Seq<char>> {
    match answer {
        AnswerView::Status(Ok(status)) => status.connection_id,
        _ => None,
    }
}

/// An answer lists a connection with an id.
pub open spec fn lists_connection(answer: AnswerView, id: Seq<char>) -> bool {
    match answer {
        AnswerView::Connections(Ok(list)) => exists|k: int|
            0 <= k < list.len() && (#[trigger] list[k]).connection_id == id,
        _ => false,
    }
}

proof fn lemma_connection_index(list: Seq<ConnectionInfoView>, id: Seq<char>, i: nat)
    ensures
        match connection_index(list, id, i) {
            Some(k) => i <= k < list.len() && list[k as int].connection_id == id && forall|j: int|
                i <= j < k ==> (#[trigger] list[j]).connection_id != id,
            None => forall|j: int| i <= j < list.len() ==> (#[trigger] list[j]).connection_id != id,
        },
    decreases list.len() - i,
{
    if i < list.len() && list[i as int].connection_id != id {
        lemma_connection_index(list, id, i + 1);
    }
}

/// A client passes as one that sleeps at first exactly where its status says that it sleeps and
/// that it is not registered.
pub proof fn law_initial_state(turns: Seq<ClientTurn>, answers: Seq<AnswerView>)
    requires
        is_whole_scenario(ClientCase::InitialStateSleeping, turns, answers),
    ensures
        questions(turns, 0, AskView::Status),
        is_passed(turns) <==> gives_state(answers[0], "sleeping"@) && named_connection(answers[0])
            is None,
{
    if answers.len() > 0 {
        assert(answer_leads_on(turns, answers, 0));
    }
    if answers.len() > 1 {
        assert(answer_leads_on(turns, answers, 1));
    }
}

/// A client passes as one that can be woken exactly where waking it gives the status `awake` and
/// a port, where its status is `awake` then and names a connection, and where the daemon lists a
/// connection with that very id.
pub proof fn law_wake(turns: Seq<ClientTurn>, answers: Seq<AnswerView>)
    requires
        is_whole_scenario(ClientCase::WakeTransitionsToAwake, turns, answers),
    ensures
        questions(turns, 0, AskView::Wake { daemon_url: None }),
        answers.len() > 1 ==> questions(turns, 1, AskView::Status),
        answers.len() > 2 ==> questions(turns, 2, AskView::ListConnections),
        is_passed(turns) <==> {
            &&& answers.len() == 3
            &&& answers[0] matches AnswerView::Wake(Ok(w)) && w.status == "awake"@ && w.debug_port
                > 0
            &&& gives_state(answers[1], "awake"@)
            &&& named_connection(answers[1]) matches Some(id) && lists_connection(answers[2], id)
        },
{
    if answers.len() > 0 {
        assert(answer_leads_on(turns, answers, 0));
    }
    if answers.len() > 1 {
        assert(answer_leads_on(turns, answers, 1));
    }
    if answers.len() > 2 {
        assert(answer_leads_on(turns, answers, 2));
        if let AnswerView::Connections(Ok(list)) = answers[2] {
            if let Some(id) = named_connection(answers[1]) {
                lemma_connection_index(list, id, 0);
            }
        }
    }
    if answers.len() > 3 {
        assert(answer_leads_on(turns, answers, 3));
    }
}

/// In the answer the first connection with the id, if there is one, is disconnected or closed.
pub open spec fn connection_is_gone(answer: AnswerView, id: Seq<char>) -> bool {
    match answer {
        AnswerView::Connections(Ok(list)) => forall|k: int|
            0 <= k < list.len() && (#[trigger] list[k]).connection_id == id && (forall|j: int|
                0 <= j < k ==> (#[trigger] list[j]).connection_id != id) ==> has_text(
                lowercase(list[k].status),
                "disconnected"@,
            ) || has_text(lowercase(list[k].status), "closed"@),
        _ => false,
    }
}

/// A client passes as one that can be put to sleep exactly where putting it to sleep gives the
/// status `sleeping`, where its status is `sleeping` then and names no connection, and where the
/// connection that it named before, if any, is gone from the daemon a moment later.
pub proof fn law_sleep(turns: Seq<ClientTurn>, answers: Seq<AnswerView>)
    requires
        is_whole_scenario(ClientCase::SleepTransitionsToSleeping, turns, answers),
    ensures
        questions(turns, 0, AskView::Status),
        answers.len() > 1 ==> questions(turns, 1, AskView::Sleep),
        answers.len() > 2 ==> questions(turns, 2, AskView::Status),
        answers.len() > 3 ==> questions(turns, 3, AskView::Pause { millis: 100 }),
        answers.len() > 4 ==> questions(turns, 4, AskView::ListConnections),
        is_passed(turns) <==> {
            &&& answers.len() >= 3
            &&& answers[1] == AnswerView::Sleep(Ok("sleeping"@))
            &&& gives_state(answers[2], "sleeping"@)
            &&& named_connection(answers[2]) is None
            &&& match named_connection(answers[0]) {
                Some(id) => answers.len() == 5 && connection_is_gone(answers[4], id),
                None => answers.len() == 3,
            }
        },
{
    if answers.len() > 0 {
        assert(answer_leads_on(turns, answers, 0));
    }
    if answers.len() > 1 {
        assert(answer_leads_on(turns, answers, 1));
    }
    if answers.len() > 2 {
        assert(answer_leads_on(turns, answers, 2));
    }
    if answers.len() > 3 {
        assert(answer_leads_on(turns, answers, 3));
    }
    if answers.len() > 4 {
        assert(answer_leads_on(turns, answers, 4));
        if let AnswerView::Connections(Ok(list)) = answers[4] {
            if let Some(id) = named_connection(answers[0]) {
                lemma_connection_index(list, id, 0);
                if let Some(k) = connection_index(list, id, 0) {
                    assert forall|i: int|
                        0 <= i < list.len() && (#[trigger] list[i]).connection_id == id && (forall|
                            j: int,
                        |
                            0 <= j < i ==> (#[trigger] list[j]).connection_id != id) implies i
                        == k by {
                        if k < i {
                            assert(list[k as int].connection_id != id);
                        }
                    }
                }
            }
        }
    }
    if answers.len() > 5 {
        assert(answer_leads_on(turns, answers, 5));
    }
}

/// A client passes as one that waking again does not change exactly where waking it gives the
/// status `already_awake` and its status is still `awake`.
pub proof fn law_wake_again(turns: Seq<ClientTurn>, answers: Seq<AnswerView>)
    requires
        is_whole_scenario(ClientCase::WakeIsIdempotent, turns, answers),
    ensures
        questions(turns, 0, AskView::Wake { daemon_url: None }),
        answers.len() > 1 ==> questions(turns, 1, AskView::Status),
        is_passed(turns) <==> {
            &&& answers.len() == 2
            &&& answers[0] matches AnswerView::Wake(Ok(w)) && w.status == "already_awake"@
            &&& gives_state(answers[1], "awake"@)
        },
{
    if answers.len() > 0 {
        assert(answer_leads_on(turns, answers, 0));
    }
    if answers.len() > 1 {
        assert(answer_leads_on(turns, answers, 1));
    }
    if answers.len() > 2 {
        assert(answer_leads_on(turns, answers, 2));
    }
}

/// A client passes as one that putting to sleep again does not change exactly where putting it to
/// sleep gives the status `already_sleeping` and its status is still `sleeping`.
pub proof fn law_sleep_again(turns: Seq<ClientTurn>, answers: Seq<AnswerView>)
    requires
        is_whole_scenario(ClientCase::SleepIsIdempotent, turns, answers),
    ensures
        questions(turns, 0, AskView::Sleep),
        answers.len() > 1 ==> questions(turns, 1, AskView::Status),
        is_passed(turns) <==> {
            &&& answers.len() == 2
            &&& answers[0] == AnswerView::Sleep(Ok("already_sleeping"@))
            &&& gives_state(answers[1], "sleeping"@)
        },
{
    if answers.len() > 0 {
        assert(answer_leads_on(turns, answers, 0));
    }
    if answers.len() > 1 {
        assert(answer_leads_on(turns, answers, 1));
    }
    if answers.len() > 2 {
        assert(answer_leads_on(turns, answers, 2));
    }
}

/// A client passes for its health exactly where the status is `ok` and the service
/// `detrix-client`.
pub proof fn law_health_format(turns: Seq<ClientTurn>, answers: Seq<AnswerView>)
    requires
        is_whole_scenario(ClientCase::HealthEndpointFormat, turns, answers),
    ensures
        questions(turns, 0, AskView::Health),
        is_passed(turns) <==> answers[0] == AnswerView::Health(Ok(("ok"@, "detrix-client"@))),
{
    if answers.len() > 0 {
        assert(answer_leads_on(turns, answers, 0));
    }
    if answers.len() > 1 {
        assert(answer_leads_on(turns, answers, 1));
    }
}

/// A status has a name, one of the three states, and the port of its control plane.
pub open spec fn status_is_complete(status: ClientStatusView) -> bool {
    &&& status.name.len() > 0
    &&& status.state == "sleeping"@ || status.state == "waking"@ || status.state == "awake"@
    &&& status.control_port > 0
}

/// A client passes for its status exactly where the status is complete.
pub proof fn law_status_format(turns: Seq<ClientTurn>, answers: Seq<AnswerView>)
    requires
        is_whole_scenario(ClientCase::StatusEndpointFormat, turns, answers),
    ensures
        questions(turns, 0, AskView::Status),
        is_passed(turns) <==> (answers[0] matches AnswerView::Status(Ok(status))
            && status_is_complete(status)),
{
    if answers.len() > 0 {
        assert(answer_leads_on(turns, answers, 0));
    }
    if answers.len() > 1 {
        assert(answer_leads_on(turns, answers, 1));
    }
}

/// A client passes as one that cannot be woken without a daemon exactly where waking it with an
/// address that nobody listens at is an error and its status is `sleeping` after that.
pub proof fn law_wake_without_daemon(turns: Seq<ClientTurn>, answers: Seq<AnswerView>)
    requires
        is_whole_scenario(ClientCase::WakeWithoutDaemonFails, turns, answers),
    ensures
        questions(turns, 0, AskView::Wake { daemon_url: Some("http://127.0.0.1:1"@) }),
        answers.len() > 1 ==> questions(turns, 1, AskView::Status),
        is_passed(turns) <==> {
            &&& answers.len() == 2
            &&& answers[0] matches AnswerView::Wake(Err(_))
            &&& gives_state(answers[1], "sleeping"@)
        },
{
    if answers.len() > 0 {
        assert(answer_leads_on(turns, answers, 0));
    }
    if answers.len() > 1 {
        assert(answer_leads_on(turns, answers, 1));
    }
    if answers.len() > 2 {
        assert(answer_leads_on(turns, answers, 2));
    }
}

/// A connection is open: its status says `connected` and not `disconnected`, in any case of the
/// letters.
pub open spec fn is_open(connection: ConnectionInfoView) -> bool {
    has_text(lowercase(connection.status), "connected"@) && !has_text(
        lowercase(connection.status),
        "disconnected"@,
    )
}

/// The connection at `i` is open, and it alone.
pub open spec fn only_open(list: Seq<ConnectionInfoView>, i: int) -> bool {
    &&& 0 <= i < list.len()
    &&& is_open(list[i])
    &&& forall|j: int| 0 <= j < list.len() && j != i ==> !is_open(#[trigger] list[j])
}

/// The answer at `i` has the status, and it alone.
pub open spec fn only_with(list: Seq<Option<Seq<char>>>, status: Seq<char>, i: int) -> bool {
    &&& 0 <= i < list.len()
    &&& list[i] == Some(status)
    &&& forall|j: int| 0 <= j < list.len() && j != i ==> #[trigger] list[j] != Some(status)
}

proof fn lemma_count_wakes(list: Seq<Option<Seq<char>>>, status: Seq<char>, n: nat) -> (i: int)
    requires
        n <= list.len(),
    ensures
        count_wakes(list, status, n) == 0 <==> forall|j: int|
            0 <= j < n ==> #[trigger] list[j] != Some(status),
        count_wakes(list, status, n) == 1 ==> 0 <= i < n && list[i] == Some(status) && forall|
            j: int,
        |
            0 <= j < n && j != i ==> #[trigger] list[j] != Some(status),
        count_wakes(list, status, n) > 1 ==> exists|a: int, b: int|
            0 <= a < b < n && #[trigger] list[a] == Some(status) && #[trigger] list[b] == Some(
                status,
            ),
    decreases n,
{
    if n == 0 {
        0
    } else {
        let i = lemma_count_wakes(list, status, (n - 1) as nat);
        if list[n - 1] == Some(status) {
            if count_wakes(list, status, (n - 1) as nat) == 1 {
                assert(list[i] == Some(status) && list[n - 1] == Some(status));
            }
            if count_wakes(list, status, n) == 1 {
                n - 1
            } else {
                i
            }
        } else {
            i
        }
    }
}

proof fn lemma_count_connected(list: Seq<ConnectionInfoView>, n: nat) -> (i: int)
    requires
        n <= list.len(),
    ensures
        count_connected(list, n) == 0 <==> forall|j: int|
            0 <= j < n ==> !is_open(#[trigger] list[j]),
        count_connected(list, n) == 1 ==> 0 <= i < n && is_open(list[i]) && forall|j: int|
            0 <= j < n && j != i ==> !is_open(#[trigger] list[j]),
        count_connected(list, n) > 1 ==> exists|a: int, b: int|
            0 <= a < b < n && is_open(#[trigger] list[a]) && is_open(#[trigger] list[b]),
    decreases n,
{
    if n == 0 {
        0
    } else {
        let i = lemma_count_connected(list, (n - 1) as nat);
        if is_open(list[n - 1]) {
            if count_connected(list, (n - 1) as nat) == 1 {
                assert(is_open(list[i]) && is_open(list[n - 1]));
            }
            if count_connected(list, n) == 1 {
                n - 1
            } else {
                i
            }
        } else {
            i
        }
    }
}

/// A client passes as one that can be woken five times at once exactly where one answer, and no
/// other, has the status `awake`, and where the daemon has one open connection, and no other.
pub proof fn law_wake_at_once(turns: Seq<ClientTurn>, answers: Seq<AnswerView>)
    requires
        is_whole_scenario(ClientCase::ConcurrentWakeIsSafe, turns, answers),
    ensures
        questions(turns, 0, AskView::WakeAtOnce { count: 5 }),
        answers.len() > 1 ==> questions(turns, 1, AskView::ListConnections),
        is_passed(turns) <==> {
            &&& answers.len() == 2
            &&& answers[0] matches AnswerView::Wakes(list) && exists|i: int|
                #[trigger] only_with(list, "awake"@, i)
            &&& answers[1] matches AnswerView::Connections(Ok(list)) && exists|i: int|
                #[trigger] only_open(list, i)
        },
{
    if answers.len() > 0 {
        assert(answer_leads_on(turns, answers, 0));
        if let AnswerView::Wakes(list) = answers[0] {
            let i = lemma_count_wakes(list, "awake"@, list.len());
            if count_wakes(list, "awake"@, list.len()) == 1 {
                assert(only_with(list, "awake"@, i));
            } else {
                assert forall|j: int| !#[trigger] only_with(list, "awake"@, j) by {}
            }
        }
    }
    if answers.len() > 1 {
        assert(answer_leads_on(turns, answers, 1));
        if let AnswerView::Connections(Ok(list)) = answers[1] {
            let i = lemma_count_connected(list, list.len());
            if count_connected(list, list.len()) == 1 {
                assert(only_open(list, i));
            } else {
                assert forall|j: int| !#[trigger] only_open(list, j) by {}
            }
        }
    }
    if answers.len() > 2 {
        assert(answer_leads_on(turns, answers, 2));
    }
}

/// Where there is no answer a scenario ends with that very error and reports nothing, except that
/// a wake without a daemon is to fail.
pub proof fn law_missing_answers_end_a_scenario(
    case: ClientCase,
    turns: Seq<ClientTurn>,
    answers: Seq<AnswerView>,
    i: int,
    error: Seq<char>,
)
    requires
        is_whole_scenario(case, turns, answers),
        0 <= i < answers.len(),
        answers[i] == AnswerView::Status(Err(error)) || answers[i] == AnswerView::Wake(Err(error))
            && case != ClientCase::WakeWithoutDaemonFails || answers[i] == AnswerView::Sleep(
            Err(error),
        ) || answers[i] == AnswerView::Health(Err(error)) || answers[i]
            == AnswerView::Connections(Err(error)),
    ensures
        i == answers.len() - 1,
        turns.last().next == ClientNextView::Finish(Err(error)),
        turns.last().log == Seq::<ReportView>::empty(),
{
    lemma_case_is_kept(case, turns, answers, i);
    assert(answer_leads_on(turns, answers, i));
    if i < answers.len() - 1 {
        assert(answer_leads_on(turns, answers, i + 1));
    }
}

proof fn lemma_case_is_kept(
    case: ClientCase,
    turns: Seq<ClientTurn>,
    answers: Seq<AnswerView>,
    i: int,
)
    requires
        is_whole_scenario(case, turns, answers),
        0 <= i < turns.len(),
    ensures
        turns[i].state.case == case,
    decreases i,
{
    if i > 0 {
        lemma_case_is_kept(case, turns, answers, i - 1);
        assert(answer_leads_on(turns, answers, i - 1));
    }
}

} // verus!
