//! What ends the scenarios with a debugger in an error, and what does not.

use vstd::prelude::*;

use super::reconnection;
use super::reconnection::{ReconnectionSetup, ReconnectionState};
use super::workflow;
use super::workflow::{WorkflowSetup, WorkflowState};
use crate::exchange::{Event, NextView};
use crate::report::ReportView;

verus! {

/// No events came in.
pub open spec fn is_empty_answer(event: Event) -> bool {
    !(event matches Event::Events(Ok(r)) && r.data@.len() > 0)
}

/// An event that the workflow cannot go on with.
pub open spec fn stops_workflow(setup: WorkflowSetup, s: WorkflowState, event: Event) -> bool {
    match s.phase {
        workflow::Phase::Health => event != Event::Health(Ok(true)),
        workflow::Phase::Connect => event matches Event::Connection(Err(_)),
        workflow::Phase::AddMetric { .. } => event matches Event::Text(Err(_)),
        workflow::Phase::AddInvalid => setup.scope_validation && event matches Event::Text(Ok(_)),
        workflow::Phase::EnableGroup => !(event matches Event::Count(Ok(r)) && r.data
            == setup.metrics().len()),
        workflow::Phase::WaitMissing { index } => index + 1 == setup.metrics().len() && (
        s.missing.len() > 0 || is_empty_answer(event)),
        _ => false,
    }
}

/// The workflow ends in an error exactly where the daemon is not healthy, a connection or a metric
/// is refused, an invalid metric is taken though its scope can be checked, another number of
/// metrics is enabled than were added, or a metric is still without events when its time is up.
/// Otherwise only the counts behind a switch can end it so.
pub proof fn law_workflow_failures(setup: WorkflowSetup, s: WorkflowState, event: Event)
    requires
        s.phase is Health ==> event is Health,
        s.phase is Connect ==> event is Connection,
        s.phase is AddMetric ==> event is Text,
        s.phase is AddInvalid ==> event is Text,
        s.phase is EnableGroup ==> event is Count,
        s.phase is WaitMissing ==> event is Events,
        s.phase matches workflow::Phase::WaitMissing { index } ==> index < setup.metrics().len(),
        s.phase matches workflow::Phase::MultiEvents { index } ==> index < setup.metrics().len(),
        s.phase matches workflow::Phase::MultiList { index } ==> index < setup.metrics().len(),
        setup.metrics().len() < usize::MAX,
        !(s.phase is VerifyStopped || s.phase is VerifyOther || s.phase is VerifyGroup || s.phase
            is Finished),
    ensures
        (workflow::on_event(setup, s, event).next matches NextView::Finish(Err(_)))
            <==> stops_workflow(setup, s, event),
{
    lemma_no_failure_at_multi(setup);
    if let Event::Events(Ok(r)) = event {
        assert(r.data@.len() == r.data.len());
    }
}

/// Turning to the metrics with several expressions is no failure.
proof fn lemma_no_failure_at_multi(setup: WorkflowSetup)
    requires
        setup.metrics().len() < usize::MAX,
    ensures
        forall|s: WorkflowState, log: Seq<ReportView>, index: usize|
            index <= setup.metrics().len() ==> !((#[trigger] workflow::at_multi(
                setup,
                s,
                log,
                index,
            )).next matches NextView::Finish(Err(_))),
{
    assert forall|s: WorkflowState, log: Seq<ReportView>, index: usize|
        index <= setup.metrics().len() implies !((#[trigger] workflow::at_multi(
        setup,
        s,
        log,
        index,
    )).next matches NextView::Finish(Err(_))) by {
        lemma_no_failure_from(setup, s, log, index);
    }
}

proof fn lemma_no_failure_from(
    setup: WorkflowSetup,
    s: WorkflowState,
    log: Seq<ReportView>,
    index: usize,
)
    requires
        index <= setup.metrics().len() < usize::MAX,
    ensures
        !(workflow::at_multi(setup, s, log, index).next matches NextView::Finish(Err(_))),
    decreases setup.metrics().len() - index,
{
    if index < setup.metrics().len() {
        lemma_no_failure_from(setup, s, log, (index + 1) as usize);
    }
}

/// An event that the reconnections cannot go on with.
pub open spec fn stops_reconnections(s: ReconnectionState, event: Event) -> bool {
    match s.phase {
        reconnection::Phase::Health => event != Event::Health(Ok(true)),
        reconnection::Phase::Connect => event matches Event::Connection(Err(_)),
        reconnection::Phase::AddMetric { .. } => event matches Event::Text(Err(_)),
        reconnection::Phase::Restart { .. } => event matches Event::Restarted(Err(_)),
        reconnection::Phase::Reconnect { .. } => event matches Event::Connection(Err(_)),
        _ => false,
    }
}

/// The reconnections end in an error exactly where the daemon is not healthy, or a connection, a
/// metric, a restart or a new connection is refused. Otherwise only the counts of events can end
/// them so.
pub proof fn law_reconnection_failures(
    setup: ReconnectionSetup,
    s: ReconnectionState,
    event: Event,
)
    requires
        s.phase is Health ==> event is Health,
        s.phase is Connect || s.phase is Reconnect ==> event is Connection,
        s.phase is AddMetric ==> event is Text,
        s.phase is Restart ==> event is Restarted,
        !(s.phase is Timer || s.phase is Poll || s.phase is Tally || s.phase is Finished),
    ensures
        (reconnection::on_event(setup, s, event).next matches NextView::Finish(Err(_)))
            <==> stops_reconnections(s, event),
{
}

} // verus!
