//! What a reporter tells of a test, line by line.

use vstd::prelude::*;

use crate::reporter::{
    can_show, count_status, new_reporter, numbered, open_after, performed,
    shown_body, OpenSteps, ReportView, ReporterView, Slot, StepStatus, StepView,
};
use crate::text::{chars_in_bytes, decimal, lowercase, utf8_len};

verus! {

/// Everything that a reporter has told so far, printed or not.
pub open spec fn told(r: ReporterView) -> Seq<Seq<char>> {
    if r.streaming {
        r.printed
    } else {
        r.buffer
    }
}

/// A line is told behind everything that was told before; a reporter that is not verbose tells
/// nothing.
pub proof fn law_lines_are_told_in_order(r: ReporterView, line: Seq<char>)
    ensures
        r.verbose ==> told(r.say(line)) == told(r).push(line),
        !r.verbose ==> r.say(line) == r,
        r.say(line).steps == r.steps && r.say(line).counter == r.counter,
        r.say(line).streaming == r.streaming && r.say(line).verbose == r.verbose,
{
}

/// A step that starts is told with its number, its name and its description, and runs until it has
/// an outcome.
pub proof fn law_started_steps(
    r: ReporterView,
    open: OpenSteps,
    slot: Slot,
    name: Seq<char>,
    description: Seq<char>,
)
    requires
        numbered(r),
    ensures
        ({
            let after = performed(r, open, ReportView::StepStart(slot, name, description));
            &&& after.steps.len() == r.steps.len() + 1
            &&& forall|i: int| 0 <= i < r.steps.len() ==> #[trigger] after.steps[i] == r.steps[i]
            &&& after.steps.last().number == r.steps.len() + 1
            &&& after.steps.last().name == name
            &&& after.steps.last().description == description
            &&& after.steps.last().status == StepStatus::Running
            &&& r.verbose ==> {
                &&& told(after).len() == told(r).len() + 3
                &&& told(after)[told(r).len() as int + 1] == "[STEP "@ + decimal(r.steps.len() + 1)
                    + "] "@ + name
                &&& told(after)[told(r).len() as int + 2] == "   "@ + description
            }
        }),
{
}

/// The outcome of a step is told in one line that begins with what became of it; the step gets
/// that status, and what is told of it.
pub proof fn law_outcomes_are_told(
    r: ReporterView,
    open: OpenSteps,
    slot: Slot,
    details: Option<Seq<char>>,
    text: Seq<char>,
)
    requires
        r.verbose,
    ensures
        ({
            let number = open.number(slot) as nat;
            let good = performed(r, open, ReportView::Success(slot, details));
            let bad = performed(r, open, ReportView::Failed(slot, text));
            let none = performed(r, open, ReportView::Skipped(slot, text));
            &&& told(good) == told(r).push(
                match details {
                    Some(d) => "   OK: "@ + d,
                    None => "   OK"@,
                },
            )
            &&& told(bad) == told(r).push("   FAILED: "@ + text)
            &&& told(none) == told(r).push("   SKIPPED: "@ + text)
            &&& good.steps == r.outcome(number, StepStatus::Success, details).steps
            &&& bad.steps == r.outcome(number, StepStatus::Failed, Some(text)).steps
            &&& none.steps == r.outcome(number, StepStatus::Skipped, Some(text)).steps
        }),
{
}

/// What is only told changes no step: a warning and an error are told as such, and the rest is
/// told as it is.
pub proof fn law_remarks_are_told(
    r: ReporterView,
    open: OpenSteps,
    text: Seq<char>,
    value: Seq<char>,
)
    requires
        r.verbose,
    ensures
        ({
            let warned = performed(r, open, ReportView::Warn(text));
            let erred = performed(r, open, ReportView::Error(text));
            let informed = performed(r, open, ReportView::Info(text));
            let progressed = performed(r, open, ReportView::Progress(text));
            let valued = performed(r, open, ReportView::KeyValue(text, value));
            &&& told(warned) == told(r).push("   WARNING: "@ + text) && warned.steps == r.steps
            &&& told(erred) == told(r).push("   ERROR: "@ + text) && erred.steps == r.steps
            &&& told(informed) == told(r).push("   "@ + text) && informed.steps == r.steps
            &&& told(progressed) == told(r).push("   "@ + text) && progressed.steps == r.steps
            &&& told(valued) == told(r).push("   "@ + text + ": "@ + value) && valued.steps
                == r.steps
        }),
{
}

/// The footer of a streaming reporter tells whether the test passed, how many of its steps did
/// what, and how long it took.
pub proof fn law_footer_tells(r: ReporterView, success: bool, elapsed_ms: u64)
    requires
        r.verbose,
        r.streaming,
    ensures
        ({
            let after = r.footer(success, elapsed_ms);
            let n = r.printed.len() as int;
            &&& after.printed.len() == n + 8
            &&& after.printed[n + 2] == (if success {
                "  TEST PASSED"@
            } else {
                "  TEST FAILED"@
            })
            &&& after.printed[n + 4] == "  Steps: "@ + decimal(r.count(StepStatus::Success))
                + " passed, "@ + decimal(r.count(StepStatus::Failed)) + " failed, "@ + decimal(
                r.count(StepStatus::Skipped),
            ) + " skipped"@
            &&& after.printed[n + 5] == "  Duration: "@ + decimal(elapsed_ms as nat) + "ms"@
        }),
{
}

/// A step behind the others adds one to the steps with its status, and to no others.
pub proof fn law_steps_are_counted(steps: Seq<StepView>, step: StepView, status: StepStatus)
    ensures
        count_status(Seq::empty(), status, 0) == 0,
        count_status(steps.push(step), status, steps.len() + 1) == count_status(
            steps,
            status,
            steps.len(),
        ) + (if step.status == status {
            1nat
        } else {
            0nat
        }),
{
    let longer = steps.push(step);
    assert(longer[longer.len() - 1] == step);
    lemma_count_prefix(steps, longer, status, steps.len());
}

proof fn lemma_count_prefix(
    steps: Seq<StepView>,
    longer: Seq<StepView>,
    status: StepStatus,
    n: nat,
)
    requires
        n <= steps.len() <= longer.len(),
        forall|i: int| 0 <= i < steps.len() ==> #[trigger] longer[i] == steps[i],
    ensures
        count_status(longer, status, n) == count_status(steps, status, n),
    decreases n,
{
    if n > 0 {
        lemma_count_prefix(steps, longer, status, (n - 1) as nat);
        assert(longer[n - 1] == steps[n - 1]);
    }
}

/// A body of at most 500 bytes is shown whole; of a longer one a beginning is shown, and that it
/// goes on.
pub proof fn law_shown_bodies(body: Seq<char>)
    requires
        can_show(Some(body)),
    ensures
        utf8_len(body) <= 500 ==> shown_body(body) == body,
        utf8_len(body) > 500 ==> exists|k: int|
            0 <= k <= body.len() && shown_body(body) == #[trigger] body.subrange(0, k)
                + "...(truncated)"@ && utf8_len(body.subrange(0, k)) == 500,
{
    if utf8_len(body) > 500 {
        let k = chars_in_bytes(body, 500)->0;
        assert(shown_body(body) == body.subrange(0, k as int) + "...(truncated)"@);
    }
}

/// A reporter streams exactly where its setting is `1`, or the word `true` in any case; it starts
/// with nothing told and no steps.
pub proof fn law_new_reporters(
    test_name: Seq<char>,
    api_type: Seq<char>,
    setting: Option<Seq<char>>,
)
    ensures
        ({
            let r = new_reporter(test_name, api_type, setting);
            &&& r.streaming <==> setting is Some && (setting->0 == "1"@ || lowercase(setting->0)
                == "true"@)
            &&& r.verbose && numbered(r)
            &&& r.steps.len() == 0 && told(r).len() == 0
            &&& r.test_name == test_name && r.api_type == api_type
        }),
{
}

/// The outcome that follows the start of a step in its slot is that of this step, and the other slot
/// keeps its own.
pub proof fn law_open_steps(
    r: ReporterView,
    open: OpenSteps,
    slot: Slot,
    name: Seq<char>,
    description: Seq<char>,
    other: ReportView,
)
    requires
        numbered(r),
        r.counter < usize::MAX,
    ensures
        ({
            let report = ReportView::StepStart(slot, name, description);
            let after = open_after(r, open, report);
            &&& after.number(slot) == performed(r, open, report).steps.last().number
            &&& slot == Slot::Main ==> after.number(Slot::Nested) == open.number(Slot::Nested)
            &&& slot == Slot::Nested ==> after.number(Slot::Main) == open.number(Slot::Main)
        }),
        !(other is StepStart) ==> open_after(r, open, other) == open,
{
}

} // verus!
