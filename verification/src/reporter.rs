//! The reporter: step-by-step progress of a test, for people to read.
//!
//! To keep the output of tests that run at the same time apart, all output is buffered and
//! printed at once when a test completes, unless it is to be streamed.

use vstd::prelude::*;

use crate::report::{Report, ReportView, Slot};
use crate::text::{
    cat2, cat3, cat4, cat5, chars_in_bytes, chars_of, clone_opt, cut_bytes, decimal, join, joined,
    lines, lowercase, num, num_usize, opt_str_view, opt_view, own_opt, same_text, slice_string,
    split_lines, to_lowercase, utf8_len, utf8_len_exec, views,
};

pub mod laws;

verus! {

// ---------------------------------------------------------------------------
// Steps
// ---------------------------------------------------------------------------

/// How far a step is.
#[derive(Debug, Clone, Copy, PartialEq, Eq, Structural)]
pub enum StepStatus {
    Running,
    Success,
    Failed,
    Skipped,
}

/// One step of a test.
#[derive(Debug, Clone)]
pub struct TestStep {
    pub number: usize,
    pub name: String,
    pub description: String,
    pub status: StepStatus,
    pub duration_ms: Option<u64>,
    pub details: Option<String>,
}

/// The mathematical counterpart of [`TestStep`].
pub struct StepView {
    pub number: nat,
    pub name: Seq<char>,
    pub description: Seq<char>,
    pub status: StepStatus,
    pub duration_ms: Option<u64>,
    pub details: Option<Seq<char>>,
}

impl View for TestStep {
    type V = StepView;

    open spec fn view(&self) -> StepView {
        StepView {
            number: self.number as nat,
            name: self.name@,
            description: self.description@,
            status: self.status,
            duration_ms: self.duration_ms,
            details: opt_view(self.details),
        }
    }
}

/// A step that has begun.
pub open spec fn new_step(number: nat, name: Seq<char>, description: Seq<char>) -> StepView {
    StepView {
        number,
        name,
        description,
        status: StepStatus::Running,
        duration_ms: None,
        details: None,
    }
}

impl TestStep {
    /// A step that has begun.
    pub fn new(number: usize, name: &str, description: &str) -> (r: Self)
        ensures
            r@ == new_step(number as nat, name@, description@),
    {
        TestStep {
            number,
            name: name.to_owned(),
            description: description.to_owned(),
            status: StepStatus::Running,
            duration_ms: None,
            details: None,
        }
    }

    /// A copy of the step.
    pub fn duplicate(&self) -> (r: Self)
        ensures
            r@ == self@,
    {
        TestStep {
            number: self.number,
            name: self.name.clone(),
            description: self.description.clone(),
            status: self.status,
            duration_ms: self.duration_ms,
            details: clone_opt(&self.details),
        }
    }
}

/// The steps of a list.
pub open spec fn step_views(steps: Seq<TestStep>) -> Seq<StepView> {
    steps.map_values(|s: TestStep| s@)
}

/// The position of the first step with a number, from `i` on.
pub open spec fn step_index(steps: Seq<StepView>, number: nat, i: nat) -> Option<nat>
    decreases steps.len() - i,
{
    if i >= steps.len() {
        None
    } else if steps[i as int].number == number {
        Some(i)
    } else {
        step_index(steps, number, i + 1)
    }
}

/// The steps with the outcome of one recorded.
pub open spec fn with_outcome(
    steps: Seq<StepView>,
    number: nat,
    status: StepStatus,
    details: Option<Seq<char>>,
) -> Seq<StepView> {
    match step_index(steps, number, 0) {
        Some(k) => steps.update(k as int, (StepView { status, details, ..steps[k as int] })),
        None => steps,
    }
}

/// How many of the first `n` steps have a status.
pub open spec fn count_status(steps: Seq<StepView>, status: StepStatus, n: nat) -> nat
    decreases n,
{
    if n == 0 {
        0
    } else {
        count_status(steps, status, (n - 1) as nat) + if steps[n - 1].status == status {
            1nat
        } else {
            0nat
        }
    }
}

// ---------------------------------------------------------------------------
// The reporter
// ---------------------------------------------------------------------------

/// A reporter. What is to be printed collects in `printed`, until it is taken.
#[derive(Debug)]
pub struct TestReporter {
    pub verbose: bool,
    /// Whether lines are printed at once, and not buffered.
    pub streaming: bool,
    pub step_counter: usize,
    pub test_name: String,
    pub api_type: String,
    pub steps: Vec<TestStep>,
    pub output_buffer: Vec<String>,
    pub printed: Vec<String>,
}

/// The mathematical counterpart of [`TestReporter`].
pub struct ReporterView {
    pub verbose: bool,
    pub streaming: bool,
    pub counter: nat,
    pub test_name: Seq<char>,
    pub api_type: Seq<char>,
    pub steps: Seq<StepView>,
    pub buffer: Seq<Seq<char>>,
    pub printed: Seq<Seq<char>>,
}

impl View for TestReporter {
    type V = ReporterView;

    open spec fn view(&self) -> ReporterView {
        ReporterView {
            verbose: self.verbose,
            streaming: self.streaming,
            counter: self.step_counter as nat,
            test_name: self.test_name@,
            api_type: self.api_type@,
            steps: step_views(self.steps@),
            buffer: views(self.output_buffer@),
            printed: views(self.printed@),
        }
    }
}

/// Whether a setting asks for streaming.
pub open spec fn asks_for_streaming(setting: Option<Seq<char>>) -> bool {
    match setting {
        Some(v) => v == "1"@ || lowercase(v) == "true"@,
        None => false,
    }
}

/// A new reporter.
pub open spec fn new_reporter(
    test_name: Seq<char>,
    api_type: Seq<char>,
    setting: Option<Seq<char>>,
) -> ReporterView {
    ReporterView {
        verbose: true,
        streaming: asks_for_streaming(setting),
        counter: 0,
        test_name,
        api_type,
        steps: Seq::empty(),
        buffer: Seq::empty(),
        printed: Seq::empty(),
    }
}

/// The longest body that is shown whole, in bytes.
pub open spec fn body_limit() -> nat {
    500
}

/// A body as it is shown: cut off where it is long.
pub open spec fn shown_body(body: Seq<char>) -> Seq<char> {
    if utf8_len(body) > body_limit() {
        match chars_in_bytes(body, body_limit()) {
            Some(k) => body.subrange(0, k as int) + "...(truncated)"@,
            None => body,
        }
    } else {
        body
    }
}

/// A body that can be shown: one that is cut is not cut inside a character.
pub open spec fn can_show(body: Option<Seq<char>>) -> bool {
    match body {
        Some(b) => utf8_len(b) > body_limit() ==> chars_in_bytes(b, body_limit()) is Some,
        None => true,
    }
}

impl ReporterView {
    /// A line goes out.
    pub open spec fn output(self, line: Seq<char>) -> ReporterView {
        if self.streaming {
            (ReporterView { printed: self.printed.push(line), ..self })
        } else {
            (ReporterView { buffer: self.buffer.push(line), ..self })
        }
    }

    /// A line goes out, if the reporter is verbose.
    pub open spec fn say(self, line: Seq<char>) -> ReporterView {
        if self.verbose {
            self.output(line)
        } else {
            self
        }
    }

    /// The first `n` of several lines go out, each indented.
    pub open spec fn say_indented(self, indent: Seq<char>, items: Seq<Seq<char>>, n: nat) -> ReporterView
        decreases n,
    {
        if n == 0 {
            self
        } else {
            self.say_indented(indent, items, (n - 1) as nat).say(indent + items[n - 1])
        }
    }

    /// What was buffered is printed at once.
    pub open spec fn flushed(self) -> ReporterView {
        if !self.streaming && self.buffer.len() > 0 {
            (ReporterView {
                printed: self.printed.push(joined(self.buffer, "\n"@)),
                buffer: Seq::empty(),
                ..self
            })
        } else {
            self
        }
    }

    /// The header of a test.
    pub open spec fn header(self) -> ReporterView {
        self.say(""@).say("=========================================================="@).say(
            "  "@ + self.test_name + " ("@ + self.api_type + ")"@,
        ).say("=========================================================="@).say(""@)
    }

    /// How many steps have a status.
    pub open spec fn count(self, status: StepStatus) -> nat {
        count_status(self.steps, status, self.steps.len())
    }

    /// The footer of a test, with the summary.
    pub open spec fn footer(self, success: bool, elapsed_ms: u64) -> ReporterView {
        if self.verbose {
            self.say(""@).say("=========================================================="@).say(
                if success {
                    "  TEST PASSED"@
                } else {
                    "  TEST FAILED"@
                },
            ).say("----------------------------------------------------------"@).say(
                "  Steps: "@ + decimal(self.count(StepStatus::Success)) + " passed, "@ + decimal(
                    self.count(StepStatus::Failed),
                ) + " failed, "@ + decimal(self.count(StepStatus::Skipped)) + " skipped"@,
            ).say("  Duration: "@ + decimal(elapsed_ms as nat) + "ms"@).say(
                "=========================================================="@,
            ).say(""@).flushed()
        } else {
            self
        }
    }

    /// A step begins; its number is the new count.
    pub open spec fn started(self, name: Seq<char>, description: Seq<char>) -> ReporterView {
        let n = self.counter + 1;
        (ReporterView {
            counter: n,
            steps: self.steps.push(new_step(n, name, description)),
            ..self
        }).say(""@).say("[STEP "@ + decimal(n) + "] "@ + name).say("   "@ + description)
    }

    /// A request is sent.
    pub open spec fn requested(self, method: Seq<char>, details: Option<Seq<char>>) -> ReporterView {
        match details {
            Some(d) => self.say("   -> "@ + method + " "@ + d),
            None => self.say("   -> "@ + method),
        }
    }

    /// A response came.
    pub open spec fn responded(self, status: Seq<char>, body: Option<Seq<char>>) -> ReporterView {
        let said = self.say("   <- "@ + status);
        match body {
            Some(b) => if self.verbose {
                said.say_indented("      "@, lines(shown_body(b)), lines(shown_body(b)).len())
            } else {
                said
            },
            None => said,
        }
    }

    /// A step has an outcome.
    pub open spec fn outcome(
        self,
        number: nat,
        status: StepStatus,
        details: Option<Seq<char>>,
    ) -> ReporterView {
        (ReporterView { steps: with_outcome(self.steps, number, status, details), ..self })
    }

    /// A step succeeded.
    pub open spec fn succeeded(self, number: nat, details: Option<Seq<char>>) -> ReporterView {
        let r = self.outcome(number, StepStatus::Success, details);
        match details {
            Some(d) => r.say("   OK: "@ + d),
            None => r.say("   OK"@),
        }
    }

    /// A step failed.
    pub open spec fn failed(self, number: nat, error: Seq<char>) -> ReporterView {
        self.outcome(number, StepStatus::Failed, Some(error)).say("   FAILED: "@ + error)
    }

    /// A step was skipped.
    pub open spec fn skipped(self, number: nat, reason: Seq<char>) -> ReporterView {
        self.outcome(number, StepStatus::Skipped, Some(reason)).say("   SKIPPED: "@ + reason)
    }

    /// A section begins.
    pub open spec fn in_section(self, title: Seq<char>) -> ReporterView {
        self.say(""@).say("   --- "@ + title + " ---"@)
    }

    /// Raw data is shown.
    pub open spec fn shown_raw(self, label: Seq<char>, data: Seq<char>) -> ReporterView {
        self.say(""@).say("   === "@ + label + " ==="@).say_indented(
            "   "@,
            lines(data),
            lines(data).len(),
        ).say("   ============"@)
    }
}

impl TestReporter {
    /// A reporter for a test; `stream_setting` is the value of the variable that asks for
    /// streaming, if it is set.
    pub fn new(test_name: &str, api_type: &str, stream_setting: Option<&str>) -> (r: Self)
        ensures
            r@ == new_reporter(test_name@, api_type@, opt_str_view(stream_setting)),
    {
        let streaming: bool = match stream_setting {
            Some(v) => same_text(v, "1") || same_text(to_lowercase(v).as_str(), "true"),
            None => false,
        };
        let r = TestReporter {
            verbose: true,
            streaming,
            step_counter: 0,
            test_name: test_name.to_owned(),
            api_type: api_type.to_owned(),
            steps: Vec::new(),
            output_buffer: Vec::new(),
            printed: Vec::new(),
        };
        assert(r@.steps =~= Seq::<StepView>::empty());
        assert(r@.buffer =~= Seq::<Seq<char>>::empty());
        assert(r@.printed =~= Seq::<Seq<char>>::empty());
        r
    }

    fn output(&mut self, line: String)
        ensures
            final(self)@ == old(self)@.output(line@),
    {
        if self.streaming {
            self.printed.push(line);
            assert(views(self.printed@) =~= views(old(self).printed@).push(line@));
        } else {
            self.output_buffer.push(line);
            assert(views(self.output_buffer@) =~= views(old(self).output_buffer@).push(line@));
        }
    }

    fn say(&mut self, line: String)
        ensures
            final(self)@ == old(self)@.say(line@),
    {
        if self.verbose {
            self.output(line);
        }
    }

    fn say_indented(&mut self, indent: &str, items: &Vec<String>)
        ensures
            final(self)@ == old(self)@.say_indented(indent@, views(items@), items@.len()),
    {
        let mut i: usize = 0;
        while i < items.len()
            invariant
                i <= items.len(),
                self@ == old(self)@.say_indented(indent@, views(items@), i as nat),
            decreases items.len() - i,
        {
            assert(views(items@)[i as int] == items@[i as int]@);
            self.say(cat2(indent, items[i].as_str()));
            i = i + 1;
        }
    }

    fn flush_buffer(&mut self)
        ensures
            final(self)@ == old(self)@.flushed(),
    {
        if !self.streaming && self.output_buffer.len() > 0 {
            let output: String = join(&self.output_buffer, "\n");
            self.printed.push(output);
            self.output_buffer = Vec::new();
            assert(views(self.printed@) =~= views(old(self).printed@).push(output@));
            assert(views(self.output_buffer@) =~= Seq::<Seq<char>>::empty());
        }
    }

    /// Takes what is to be printed, in order.
    pub fn take_printed(&mut self) -> (r: Vec<String>)
        ensures
            views(r@) == old(self)@.printed,
            final(self)@ == (ReporterView { printed: Seq::empty(), ..old(self)@ }),
    {
        let mut out: Vec<String> = Vec::new();
        std::mem::swap(&mut out, &mut self.printed);
        assert(views(self.printed@) =~= Seq::<Seq<char>>::empty());
        out
    }

    /// What was buffered and never printed: it goes to the error output when the reporter is
    /// dropped.
    pub fn unflushed(&self) -> (r: Option<String>)
        ensures
            opt_view(r) == (if self@.buffer.len() > 0 {
                Some(joined(self@.buffer, "\n"@))
            } else {
                None
            }),
    {
        if self.output_buffer.len() > 0 {
            Some(join(&self.output_buffer, "\n"))
        } else {
            None
        }
    }

    /// Sets whether anything is said.
    pub fn set_verbose(&mut self, verbose: bool)
        ensures
            final(self)@ == (ReporterView { verbose, ..old(self)@ }),
    {
        self.verbose = verbose;
    }

    /// Whether anything is said.
    pub fn is_verbose(&self) -> (r: bool)
        ensures
            r == self@.verbose,
    {
        self.verbose
    }

    /// The header of the test.
    pub fn print_header(&mut self)
        ensures
            final(self)@ == old(self)@.header(),
    {
        let title: String = cat5("  ", self.test_name.as_str(), " (", self.api_type.as_str(), ")");
        self.say("".to_owned());
        self.say("==========================================================".to_owned());
        self.say(title);
        self.say("==========================================================".to_owned());
        self.say("".to_owned());
    }

    fn count(&self, status: StepStatus) -> (r: usize)
        ensures
            r == self@.count(status),
    {
        let mut n: usize = 0;
        let mut i: usize = 0;
        while i < self.steps.len()
            invariant
                i <= self.steps.len(),
                n <= i,
                n == count_status(self@.steps, status, i as nat),
            decreases self.steps.len() - i,
        {
            assert(self@.steps[i as int] == self.steps@[i as int]@);
            if self.steps[i].status == status {
                n = n + 1;
            }
            i = i + 1;
        }
        n
    }

    /// The footer of the test, with the summary; what was buffered is printed. `elapsed_ms` is
    /// how long the test took.
    pub fn print_footer(&mut self, success: bool, elapsed_ms: u64)
        ensures
            final(self)@ == old(self)@.footer(success, elapsed_ms),
    {
        if !self.verbose {
            return;
        }
        let passed: String = num_usize(self.count(StepStatus::Success));
        let failed: String = num_usize(self.count(StepStatus::Failed));
        let skipped: String = num_usize(self.count(StepStatus::Skipped));
        let summary: String = crate::text::cat7(
            "  Steps: ",
            passed.as_str(),
            " passed, ",
            failed.as_str(),
            " failed, ",
            skipped.as_str(),
            " skipped",
        );
        self.say("".to_owned());
        self.say("==========================================================".to_owned());
        if success {
            self.say("  TEST PASSED".to_owned());
        } else {
            self.say("  TEST FAILED".to_owned());
        }
        self.say("----------------------------------------------------------".to_owned());
        self.say(summary);
        self.say(cat3("  Duration: ", num(elapsed_ms).as_str(), "ms"));
        self.say("==========================================================".to_owned());
        self.say("".to_owned());
        self.flush_buffer();
    }

    /// Begins a step, and gives its number.
    pub fn step_start(&mut self, name: &str, description: &str) -> (r: usize)
        requires
            old(self).step_counter < usize::MAX,
        ensures
            r == old(self)@.counter + 1,
            final(self)@ == old(self)@.started(name@, description@),
    {
        let number: usize = self.step_counter + 1;
        self.step_counter = number;
        let ghost before = self.steps@;
        let step = TestStep::new(number, name, description);
        self.steps.push(step);
        assert(step_views(self.steps@) =~= step_views(before).push(step@));
        self.say("".to_owned());
        self.say(cat4("[STEP ", num_usize(number).as_str(), "] ", name));
        self.say(cat2("   ", description));
        number
    }

    /// Says how a step is going.
    pub fn step_progress(&mut self, message: &str)
        ensures
            final(self)@ == old(self)@.say("   "@ + message@),
    {
        self.say(cat2("   ", message));
    }

    /// Says that a request is sent.
    pub fn step_request(&mut self, method: &str, details: Option<&str>)
        ensures
            final(self)@ == old(self)@.requested(method@, opt_str_view(details)),
    {
        match details {
            Some(d) => self.say(cat4("   -> ", method, " ", d)),
            None => self.say(cat2("   -> ", method)),
        }
    }

    /// Whether a body can be shown: one that has to be cut must not be cut inside a character.
    pub fn can_show(body: Option<&str>) -> (r: bool)
        ensures
            r == can_show(opt_str_view(body)),
    {
        match body {
            Some(b) => {
                let chars: Vec<char> = chars_of(b);
                if utf8_len_exec(&chars, chars.len()) > 500 {
                    cut_bytes(&chars, 500).is_some()
                } else {
                    assert(chars@.subrange(0, chars@.len() as int) =~= chars@);
                    true
                }
            },
            None => true,
        }
    }

    /// Says what response came. The body is cut where it is long, and indented.
    pub fn step_response(&mut self, status: &str, body: Option<&str>)
        requires
            old(self).verbose ==> can_show(opt_str_view(body)),
        ensures
            final(self)@ == old(self)@.responded(status@, opt_str_view(body)),
    {
        self.say(cat2("   <- ", status));
        if self.verbose {
            match body {
                Some(b) => {
                    let chars: Vec<char> = chars_of(b);
                    assert(chars@.subrange(0, chars@.len() as int) =~= chars@);
                    let shown: String = if utf8_len_exec(&chars, chars.len()) > 500 {
                        match cut_bytes(&chars, 500) {
                            Some(k) => cat2(
                                slice_string(&chars, 0, k).as_str(),
                                "...(truncated)",
                            ),
                            None => b.to_owned(),
                        }
                    } else {
                        b.to_owned()
                    };
                    assert(shown@ == shown_body(b@));
                    let items: Vec<String> = split_lines(shown.as_str());
                    self.say_indented("      ", &items);
                },
                None => {},
            }
        }
    }

    fn set_outcome(&mut self, number: usize, status: StepStatus, details: Option<String>)
        ensures
            final(self)@ == old(self)@.outcome(number as nat, status, opt_view(details)),
    {
        let ghost before = self@.steps;
        let mut i: usize = 0;
        while i < self.steps.len()
            invariant
                i <= self.steps.len(),
                *self == *old(self),
                before == self@.steps,
                step_index(before, number as nat, i as nat) == step_index(
                    before,
                    number as nat,
                    0,
                ),
            decreases self.steps.len() - i,
        {
            assert(before[i as int] == self.steps@[i as int]@);
            if self.steps[i].number == number {
                let step = TestStep {
                    number,
                    name: self.steps[i].name.clone(),
                    description: self.steps[i].description.clone(),
                    status,
                    duration_ms: self.steps[i].duration_ms,
                    details,
                };
                self.steps.set(i, step);
                assert(step_views(self.steps@) =~= before.update(i as int, step@));
                return;
            }
            i = i + 1;
        }
    }

    /// Marks a step as successful.
    pub fn step_success(&mut self, step_num: usize, details: Option<&str>)
        ensures
            final(self)@ == old(self)@.succeeded(step_num as nat, opt_str_view(details)),
    {
        self.set_outcome(step_num, StepStatus::Success, own_opt(details));
        match details {
            Some(d) => self.say(cat2("   OK: ", d)),
            None => self.say("   OK".to_owned()),
        }
    }

    /// Marks a step as failed.
    pub fn step_failed(&mut self, step_num: usize, error: &str)
        ensures
            final(self)@ == old(self)@.failed(step_num as nat, error@),
    {
        self.set_outcome(step_num, StepStatus::Failed, Some(error.to_owned()));
        self.say(cat2("   FAILED: ", error));
    }

    /// Marks a step as skipped.
    pub fn step_skipped(&mut self, step_num: usize, reason: &str)
        ensures
            final(self)@ == old(self)@.skipped(step_num as nat, reason@),
    {
        self.set_outcome(step_num, StepStatus::Skipped, Some(reason.to_owned()));
        self.say(cat2("   SKIPPED: ", reason));
    }

    /// Begins a section within a step.
    pub fn section(&mut self, title: &str)
        ensures
            final(self)@ == old(self)@.in_section(title@),
    {
        self.say("".to_owned());
        self.say(cat3("   --- ", title, " ---"));
    }

    /// Says a key and its value.
    pub fn log_kv(&mut self, key: &str, value: &str)
        ensures
            final(self)@ == old(self)@.say("   "@ + key@ + ": "@ + value@),
    {
        self.say(cat4("   ", key, ": ", value));
    }

    /// Says a message.
    pub fn info(&mut self, message: &str)
        ensures
            final(self)@ == old(self)@.say("   "@ + message@),
    {
        self.say(cat2("   ", message));
    }

    /// Says a warning.
    pub fn warn(&mut self, message: &str)
        ensures
            final(self)@ == old(self)@.say("   WARNING: "@ + message@),
    {
        self.say(cat2("   WARNING: ", message));
    }

    /// Says an error.
    pub fn error(&mut self, message: &str)
        ensures
            final(self)@ == old(self)@.say("   ERROR: "@ + message@),
    {
        self.say(cat2("   ERROR: ", message));
    }

    /// Shows raw data, between two rules.
    pub fn raw(&mut self, label: &str, data: &str)
        ensures
            final(self)@ == old(self)@.shown_raw(label@, data@),
    {
        self.say("".to_owned());
        self.say(cat3("   === ", label, " ==="));
        let items: Vec<String> = split_lines(data);
        self.say_indented("   ", &items);
        self.say("   ============".to_owned());
    }

    /// All steps.
    pub fn get_steps(&self) -> (r: Vec<TestStep>)
        ensures
            step_views(r@) == self@.steps,
    {
        let mut out: Vec<TestStep> = Vec::new();
        let mut i: usize = 0;
        while i < self.steps.len()
            invariant
                i <= self.steps.len(),
                out@.len() == i,
                forall|j: int| 0 <= j < i ==> (#[trigger] out@[j])@ == self.steps@[j]@,
            decreases self.steps.len() - i,
        {
            out.push(self.steps[i].duplicate());
            i = i + 1;
        }
        assert(step_views(out@) =~= self@.steps);
        out
    }

    /// Whether a step failed.
    pub fn has_failures(&self) -> (r: bool)
        ensures
            r == (exists|i: int|
                0 <= i < self@.steps.len() && (#[trigger] self@.steps[i]).status
                    == StepStatus::Failed),
    {
        let mut i: usize = 0;
        while i < self.steps.len()
            invariant
                i <= self.steps.len(),
                forall|j: int|
                    0 <= j < i ==> (#[trigger] self@.steps[j]).status != StepStatus::Failed,
            decreases self.steps.len() - i,
        {
            assert(self@.steps[i as int] == self.steps@[i as int]@);
            if self.steps[i].status == StepStatus::Failed {
                return true;
            }
            i = i + 1;
        }
        false
    }
}

// ---------------------------------------------------------------------------
// Performing reports
// ---------------------------------------------------------------------------

/// The numbers of the open steps.
#[derive(Debug, Clone, Copy, PartialEq, Eq, Structural)]
pub struct OpenSteps {
    pub main: usize,
    pub nested: usize,
}

impl OpenSteps {
    /// The number of a step.
    pub open spec fn number(self, slot: Slot) -> usize {
        match slot {
            Slot::Main => self.main,
            Slot::Nested => self.nested,
        }
    }

    /// The number of a step.
    pub fn get(&self, slot: Slot) -> (r: usize)
        ensures
            r == self.number(slot),
    {
        match slot {
            Slot::Main => self.main,
            Slot::Nested => self.nested,
        }
    }
}

/// A step was opened under a number.
pub open spec fn opened(open: OpenSteps, slot: Slot, number: usize) -> OpenSteps {
    match slot {
        Slot::Main => (OpenSteps { main: number, ..open }),
        Slot::Nested => (OpenSteps { nested: number, ..open }),
    }
}

/// What a report does to the reporter.
pub open spec fn performed(r: ReporterView, open: OpenSteps, report: ReportView) -> ReporterView {
    match report {
        ReportView::Section(title) => r.in_section(title),
        ReportView::StepStart(_, name, description) => r.started(name, description),
        ReportView::Progress(message) => r.say("   "@ + message),
        ReportView::Request(method, details) => r.requested(method, details),
        ReportView::Response(status, body) => r.responded(status, body),
        ReportView::Success(slot, details) => r.succeeded(open.number(slot) as nat, details),
        ReportView::Failed(slot, error) => r.failed(open.number(slot) as nat, error),
        ReportView::Skipped(slot, reason) => r.skipped(open.number(slot) as nat, reason),
        ReportView::KeyValue(key, value) => r.say("   "@ + key + ": "@ + value),
        ReportView::Info(message) => r.say("   "@ + message),
        ReportView::Warn(message) => r.say("   WARNING: "@ + message),
        ReportView::Error(message) => r.say("   ERROR: "@ + message),
        ReportView::Raw(label, data) => r.shown_raw(label, data),
    }
}

/// The steps that are open after a report.
pub open spec fn open_after(r: ReporterView, open: OpenSteps, report: ReportView) -> OpenSteps {
    match report {
        ReportView::StepStart(slot, _, _) => opened(open, slot, (r.counter + 1) as usize),
        _ => open,
    }
}

/// A report that a reporter can perform.
pub open spec fn performable(r: ReporterView, report: ReportView) -> bool {
    match report {
        ReportView::StepStart(_, _, _) => r.counter < usize::MAX,
        ReportView::Response(_, body) => r.verbose ==> can_show(body),
        _ => true,
    }
}

fn opt_str(s: &Option<String>) -> (r: Option<&str>)
    ensures
        opt_str_view(r) == opt_view(*s),
{
    match s {
        Some(t) => Some(t.as_str()),
        None => None,
    }
}

impl TestReporter {
    /// Whether a report can be performed.
    pub fn can_perform(&self, report: &Report) -> (r: bool)
        ensures
            r == performable(self@, report@),
    {
        match report {
            Report::StepStart { slot, name, description } => self.step_counter < usize::MAX,
            Report::Response { status, body } => !self.verbose || TestReporter::can_show(
                opt_str(body),
            ),
            _ => true,
        }
    }

    /// Performs a report.
    pub fn perform(&mut self, open: &mut OpenSteps, report: &Report)
        requires
            performable(old(self)@, report@),
        ensures
            final(self)@ == performed(old(self)@, *old(open), report@),
            *final(open) == open_after(old(self)@, *old(open), report@),
    {
        match report {
            Report::Section { title } => self.section(title.as_str()),
            Report::StepStart { slot, name, description } => {
                let number: usize = self.step_start(name.as_str(), description.as_str());
                match slot {
                    Slot::Main => open.main = number,
                    Slot::Nested => open.nested = number,
                }
            },
            Report::Progress { message } => self.step_progress(message.as_str()),
            Report::Request { method, details } => self.step_request(
                method.as_str(),
                opt_str(details),
            ),
            Report::Response { status, body } => self.step_response(
                status.as_str(),
                opt_str(body),
            ),
            Report::Success { slot, details } => {
                let number: usize = open.get(*slot);
                self.step_success(number, opt_str(details));
            },
            Report::Failed { slot, error } => {
                let number: usize = open.get(*slot);
                self.step_failed(number, error.as_str());
            },
            Report::Skipped { slot, reason } => {
                let number: usize = open.get(*slot);
                self.step_skipped(number, reason.as_str());
            },
            Report::KeyValue { key, value } => self.log_kv(key.as_str(), value.as_str()),
            Report::Info { message } => self.info(message.as_str()),
            Report::Warn { message } => self.warn(message.as_str()),
            Report::Error { message } => self.error(message.as_str()),
            Report::Raw { label, data } => self.raw(label.as_str(), data.as_str()),
        }
    }
}

// ---------------------------------------------------------------------------
// Laws
// ---------------------------------------------------------------------------

/// The steps are numbered from one, without gaps, in the order in which they began.
pub open spec fn numbered(r: ReporterView) -> bool {
    &&& r.counter == r.steps.len()
    &&& forall|i: int| 0 <= i < r.steps.len() ==> (#[trigger] r.steps[i]).number == i + 1
}

proof fn lemma_say_keeps(r: ReporterView, indent: Seq<char>, items: Seq<Seq<char>>, n: nat)
    ensures
        r.say_indented(indent, items, n).steps == r.steps,
        r.say_indented(indent, items, n).counter == r.counter,
        r.say_indented(indent, items, n).streaming == r.streaming,
        r.say_indented(indent, items, n).verbose == r.verbose,
        r.streaming ==> r.say_indented(indent, items, n).buffer == r.buffer,
        !r.streaming ==> r.say_indented(indent, items, n).printed == r.printed,
        !r.verbose ==> r.say_indented(indent, items, n) == r,
    decreases n,
{
    if n > 0 {
        lemma_say_keeps(r, indent, items, (n - 1) as nat);
    }
}

proof fn lemma_step_index(steps: Seq<StepView>, number: nat, i: nat)
    ensures
        step_index(steps, number, i) matches Some(k) ==> i <= k < steps.len()
            && steps[k as int].number == number,
        step_index(steps, number, i) is None ==> forall|j: int|
            i <= j < steps.len() ==> (#[trigger] steps[j]).number != number,
    decreases steps.len() - i,
{
    if i < steps.len() && steps[i as int].number != number {
        lemma_step_index(steps, number, i + 1);
    }
}

/// Whatever is reported, the steps stay numbered from one without gaps.
pub proof fn law_steps_are_numbered(r: ReporterView, open: OpenSteps, report: ReportView)
    requires
        numbered(r),
    ensures
        numbered(performed(r, open, report)),
{
    match report {
        ReportView::Response(status, Some(b)) => {
            let said = r.say("   <- "@ + status);
            lemma_say_keeps(said, "      "@, lines(shown_body(b)), lines(shown_body(b)).len());
        },
        ReportView::Raw(label, data) => {
            let said = r.say(""@).say("   === "@ + label + " ==="@);
            lemma_say_keeps(said, "   "@, lines(data), lines(data).len());
        },
        ReportView::Success(slot, details) => {
            lemma_step_index(r.steps, open.number(slot) as nat, 0);
        },
        ReportView::Failed(slot, error) => {
            lemma_step_index(r.steps, open.number(slot) as nat, 0);
        },
        ReportView::Skipped(slot, reason) => {
            lemma_step_index(r.steps, open.number(slot) as nat, 0);
        },
        _ => {},
    }
}

/// While steps are numbered, the outcome of a step goes to that step and to no other.
pub proof fn law_outcome_goes_to_its_step(
    r: ReporterView,
    number: nat,
    status: StepStatus,
    details: Option<Seq<char>>,
    i: int,
)
    requires
        numbered(r),
        0 <= i < r.steps.len(),
    ensures
        r.outcome(number, status, details).steps.len() == r.steps.len(),
        r.outcome(number, status, details).steps[i] == (if i + 1 == number {
            StepView { status, details, ..r.steps[i] }
        } else {
            r.steps[i]
        }),
{
    lemma_step_index(r.steps, number, 0);
}

/// A reporter that buffers prints nothing before its footer, and one that is not verbose says
/// nothing at all.
pub proof fn law_output_is_buffered(r: ReporterView, open: OpenSteps, report: ReportView)
    ensures
        !r.streaming ==> performed(r, open, report).printed == r.printed,
        r.streaming ==> performed(r, open, report).buffer == r.buffer,
        !r.verbose ==> performed(r, open, report).buffer == r.buffer && performed(
            r,
            open,
            report,
        ).printed == r.printed,
{
    match report {
        ReportView::Response(status, Some(b)) => {
            let said = r.say("   <- "@ + status);
            lemma_say_keeps(said, "      "@, lines(shown_body(b)), lines(shown_body(b)).len());
        },
        ReportView::Raw(label, data) => {
            let said = r.say(""@).say("   === "@ + label + " ==="@);
            lemma_say_keeps(said, "   "@, lines(data), lines(data).len());
        },
        _ => {},
    }
}

/// After the footer of a verbose reporter that buffers, everything that was buffered has been
/// printed in one piece, and nothing is left to print when the reporter is dropped.
pub proof fn law_footer_flushes(r: ReporterView, success: bool, elapsed_ms: u64)
    requires
        r.verbose,
        !r.streaming,
    ensures
        r.footer(success, elapsed_ms).buffer.len() == 0,
        r.footer(success, elapsed_ms).printed.len() == r.printed.len() + 1,
{
}

/// The steps that passed, failed, were skipped and are still running add up to all steps.
pub proof fn law_counts_add_up(steps: Seq<StepView>, n: nat)
    ensures
        count_status(steps, StepStatus::Success, n) + count_status(steps, StepStatus::Failed, n)
            + count_status(steps, StepStatus::Skipped, n) + count_status(
            steps,
            StepStatus::Running,
            n,
        ) == n,
    decreases n,
{
    if n > 0 {
        law_counts_add_up(steps, (n - 1) as nat);
    }
}

} // verus!
