//! Reports: what a scenario tells the reporter, as data.
//!
//! A scenario does not print. It hands back the list of its reports, which a
//! [`TestReporter`](crate::reporter::TestReporter) then performs in order.

use vstd::prelude::*;

use crate::text::opt_view;

verus! {

/// Which of the open steps a report speaks of: the step of the scenario itself, or the step of
/// a helper that runs inside it.
#[derive(Debug, Clone, Copy, PartialEq, Eq, Structural)]
pub enum Slot {
    Main,
    Nested,
}

/// One report.
#[derive(Debug)]
pub enum Report {
    Section { title: String },
    StepStart { slot: Slot, name: String, description: String },
    Progress { message: String },
    Request { method: String, details: Option<String> },
    Response { status: String, body: Option<String> },
    Success { slot: Slot, details: Option<String> },
    Failed { slot: Slot, error: String },
    Skipped { slot: Slot, reason: String },
    KeyValue { key: String, value: String },
    Info { message: String },
    Warn { message: String },
    Error { message: String },
    Raw { label: String, data: String },
}

/// The mathematical counterpart of [`Report`].
pub enum ReportView {
    Section(Seq<char>),
    StepStart(Slot, Seq<char>, Seq<char>),
    Progress(Seq<char>),
    Request(Seq<char>, Option<Seq<char>>),
    Response(Seq<char>, Option<Seq<char>>),
    Success(Slot, Option<Seq<char>>),
    Failed(Slot, Seq<char>),
    Skipped(Slot, Seq<char>),
    KeyValue(Seq<char>, Seq<char>),
    Info(Seq<char>),
    Warn(Seq<char>),
    Error(Seq<char>),
    Raw(Seq<char>, Seq<char>),
}

impl View for Report {
    type V = ReportView;

    open spec fn view(&self) -> ReportView {
        match self {
            Report::Section { title } => ReportView::Section(title@),
            Report::StepStart { slot, name, description } => ReportView::StepStart(
                *slot,
                name@,
                description@,
            ),
            Report::Progress { message } => ReportView::Progress(message@),
            Report::Request { method, details } => ReportView::Request(method@, opt_view(*details)),
            Report::Response { status, body } => ReportView::Response(status@, opt_view(*body)),
            Report::Success { slot, details } => ReportView::Success(*slot, opt_view(*details)),
            Report::Failed { slot, error } => ReportView::Failed(*slot, error@),
            Report::Skipped { slot, reason } => ReportView::Skipped(*slot, reason@),
            Report::KeyValue { key, value } => ReportView::KeyValue(key@, value@),
            Report::Info { message } => ReportView::Info(message@),
            Report::Warn { message } => ReportView::Warn(message@),
            Report::Error { message } => ReportView::Error(message@),
            Report::Raw { label, data } => ReportView::Raw(label@, data@),
        }
    }
}

/// The reports of a stretch of a scenario, in order.
#[derive(Debug)]
pub struct Log {
    pub reports: Vec<Report>,
}

impl View for Log {
    type V = Seq<ReportView>;

    open spec fn view(&self) -> Seq<ReportView> {
        self.reports@.map_values(|r: Report| r@)
    }
}

/// A step is started.
pub open spec fn start(name: Seq<char>, description: Seq<char>) -> ReportView {
    ReportView::StepStart(Slot::Main, name, description)
}

/// A request is sent.
pub open spec fn request(method: Seq<char>, details: Seq<char>) -> ReportView {
    ReportView::Request(method, Some(details))
}

/// A response came.
pub open spec fn response(status: Seq<char>, body: Seq<char>) -> ReportView {
    ReportView::Response(status, Some(body))
}

/// The step succeeded.
pub open spec fn success(details: Seq<char>) -> ReportView {
    ReportView::Success(Slot::Main, Some(details))
}

/// The step failed.
pub open spec fn failed(error: Seq<char>) -> ReportView {
    ReportView::Failed(Slot::Main, error)
}

impl Log {
    /// No reports.
    pub fn new() -> (r: Self)
        ensures
            r@ == Seq::<ReportView>::empty(),
    {
        let r = Log { reports: Vec::new() };
        assert(r@ =~= Seq::<ReportView>::empty());
        r
    }

    /// Adds a report.
    pub fn push(&mut self, report: Report)
        ensures
            final(self)@ == old(self)@.push(report@),
    {
        self.reports.push(report);
        assert(self@ =~= old(self)@.push(report@));
    }

    /// A section begins.
    pub fn section(&mut self, title: &str)
        ensures
            final(self)@ == old(self)@.push(ReportView::Section(title@)),
    {
        self.push(Report::Section { title: title.to_owned() });
    }

    /// A step is started.
    pub fn start(&mut self, name: &str, description: &str)
        ensures
            final(self)@ == old(self)@.push(start(name@, description@)),
    {
        self.push(
            Report::StepStart {
                slot: Slot::Main,
                name: name.to_owned(),
                description: description.to_owned(),
            },
        );
    }

    /// A step inside the open one is started.
    pub fn start_nested(&mut self, name: &str, description: &str)
        ensures
            final(self)@ == old(self)@.push(
                ReportView::StepStart(Slot::Nested, name@, description@),
            ),
    {
        self.push(
            Report::StepStart {
                slot: Slot::Nested,
                name: name.to_owned(),
                description: description.to_owned(),
            },
        );
    }

    /// A request is sent.
    pub fn request(&mut self, method: &str, details: &str)
        ensures
            final(self)@ == old(self)@.push(request(method@, details@)),
    {
        self.push(Report::Request { method: method.to_owned(), details: Some(details.to_owned()) });
    }

    /// A request without details is sent.
    pub fn request_bare(&mut self, method: &str)
        ensures
            final(self)@ == old(self)@.push(ReportView::Request(method@, None)),
    {
        self.push(Report::Request { method: method.to_owned(), details: None });
    }

    /// A response came.
    pub fn response(&mut self, status: &str, body: &str)
        ensures
            final(self)@ == old(self)@.push(response(status@, body@)),
    {
        self.push(Report::Response { status: status.to_owned(), body: Some(body.to_owned()) });
    }

    /// The step succeeded.
    pub fn success(&mut self, details: &str)
        ensures
            final(self)@ == old(self)@.push(success(details@)),
    {
        self.push(Report::Success { slot: Slot::Main, details: Some(details.to_owned()) });
    }

    /// The step inside the open one succeeded.
    pub fn success_nested(&mut self, details: &str)
        ensures
            final(self)@ == old(self)@.push(ReportView::Success(Slot::Nested, Some(details@))),
    {
        self.push(Report::Success { slot: Slot::Nested, details: Some(details.to_owned()) });
    }

    /// The step failed.
    pub fn failed(&mut self, error: &str)
        ensures
            final(self)@ == old(self)@.push(failed(error@)),
    {
        self.push(Report::Failed { slot: Slot::Main, error: error.to_owned() });
    }

    /// The step inside the open one failed.
    pub fn failed_nested(&mut self, error: &str)
        ensures
            final(self)@ == old(self)@.push(ReportView::Failed(Slot::Nested, error@)),
    {
        self.push(Report::Failed { slot: Slot::Nested, error: error.to_owned() });
    }

    /// The step was skipped.
    pub fn skipped(&mut self, reason: &str)
        ensures
            final(self)@ == old(self)@.push(ReportView::Skipped(Slot::Main, reason@)),
    {
        self.push(Report::Skipped { slot: Slot::Main, reason: reason.to_owned() });
    }

    /// A message.
    pub fn info(&mut self, message: &str)
        ensures
            final(self)@ == old(self)@.push(ReportView::Info(message@)),
    {
        self.push(Report::Info { message: message.to_owned() });
    }

    /// A warning.
    pub fn warn(&mut self, message: &str)
        ensures
            final(self)@ == old(self)@.push(ReportView::Warn(message@)),
    {
        self.push(Report::Warn { message: message.to_owned() });
    }

    /// An error.
    pub fn error(&mut self, message: &str)
        ensures
            final(self)@ == old(self)@.push(ReportView::Error(message@)),
    {
        self.push(Report::Error { message: message.to_owned() });
    }
}

} // verus!
