//! Workflow tests against a debug adapter: fixtures, their line maps, the metrics that each
//! language's workflow places, and the workflows themselves.

use vstd::prelude::*;

use crate::text::{opt_view, same_text, views};

pub mod go_classic_lines;
pub mod go_lines;
pub mod go_nested_lines;
pub mod python_lines;
pub mod failures;
pub mod reconnection;
pub mod reconnection_counts;
pub mod reconnection_runs;
pub mod rust_lines;
pub mod workflow;
pub mod workflow_group;
pub mod workflow_intro;
pub mod workflow_runs;
pub mod workflow_single;
pub mod workflow_wait;

verus! {

/// The languages that a debugged program can be written in.
#[derive(Debug, Clone, Copy, PartialEq, Eq, Structural)]
pub enum SourceLanguage {
    Python,
    Go,
    Rust,
    JavaScript,
    TypeScript,
    Java,
    Cpp,
    C,
    Ruby,
    Php,
    Unknown,
}

/// The name of a language in API calls.
pub open spec fn api_name(language: SourceLanguage) -> Seq<char> {
    match language {
        SourceLanguage::Python => "python"@,
        SourceLanguage::Go => "go"@,
        SourceLanguage::Rust => "rust"@,
        SourceLanguage::JavaScript => "javascript"@,
        SourceLanguage::TypeScript => "typescript"@,
        SourceLanguage::Java => "java"@,
        SourceLanguage::Cpp => "cpp"@,
        SourceLanguage::C => "c"@,
        SourceLanguage::Ruby => "ruby"@,
        SourceLanguage::Php => "php"@,
        SourceLanguage::Unknown => "unknown"@,
    }
}

/// The name of a language together with its debug adapter, where one is known.
pub open spec fn adapter_name(language: SourceLanguage, display_name: Seq<char>) -> Seq<char> {
    match language {
        SourceLanguage::Python => "Python (debugpy)"@,
        SourceLanguage::Go => "Go (delve)"@,
        SourceLanguage::Rust => "Rust (lldb-dap)"@,
        _ => display_name,
    }
}

/// Names of a language in the context of a debug adapter.
pub trait DapLanguageExt {
    /// The language.
    spec fn language(&self) -> SourceLanguage;

    /// The name for people: with the adapter where one is known, `display_name` otherwise.
    fn dap_display_name(&self, display_name: &'static str) -> (r: &'static str)
        ensures
            r@ == adapter_name(self.language(), display_name@),
    ;

    /// The name in API calls.
    fn as_api_str(&self) -> (r: &'static str)
        ensures
            r@ == api_name(self.language()),
    ;
}

impl DapLanguageExt for SourceLanguage {
    open spec fn language(&self) -> SourceLanguage {
        *self
    }

    fn dap_display_name(&self, display_name: &'static str) -> (r: &'static str) {
        match self {
            SourceLanguage::Python => "Python (debugpy)",
            SourceLanguage::Go => "Go (delve)",
            SourceLanguage::Rust => "Rust (lldb-dap)",
            _ => display_name,
        }
    }

    fn as_api_str(&self) -> (r: &'static str) {
        match self {
            SourceLanguage::Python => "python",
            SourceLanguage::Go => "go",
            SourceLanguage::Rust => "rust",
            SourceLanguage::JavaScript => "javascript",
            SourceLanguage::TypeScript => "typescript",
            SourceLanguage::Java => "java",
            SourceLanguage::Cpp => "cpp",
            SourceLanguage::C => "c",
            SourceLanguage::Ruby => "ruby",
            SourceLanguage::Php => "php",
            SourceLanguage::Unknown => "unknown",
        }
    }
}

// ---------------------------------------------------------------------------
// Code maps
// ---------------------------------------------------------------------------

/// Where a fixture declares its symbols, and from which line on each can be observed.
///
/// A logpoint fires before its statement runs, so a variable cannot be observed on the line
/// that declares it. An entry is a name, the offset of the declaration from the base line, and
/// the offset of the first line on which the symbol is safely in scope.
pub struct FixtureCodeMap {
    pub base: u32,
    pub symbols: Vec<(&'static str, u32, u32)>,
}

/// The entries of a code map.
pub open spec fn entries_of(symbols: Seq<(&'static str, u32, u32)>) -> Seq<(Seq<char>, u32, u32)> {
    symbols.map_values(|e: (&'static str, u32, u32)| (e.0@, e.1, e.2))
}

/// The position of the first entry with the name; the number of entries where there is none.
pub open spec fn symbol_index(entries: Seq<(Seq<char>, u32, u32)>, name: Seq<char>) -> nat
    decreases entries.len(),
{
    if entries.len() == 0 || entries[0].0 == name {
        0
    } else {
        1 + symbol_index(entries.drop_first(), name)
    }
}

proof fn lemma_symbol_index_is(entries: Seq<(Seq<char>, u32, u32)>, name: Seq<char>, k: nat)
    requires
        k < entries.len(),
        entries[k as int].0 == name,
        forall|j: int| 0 <= j < k ==> (#[trigger] entries[j]).0 != name,
    ensures
        symbol_index(entries, name) == k,
    decreases entries.len(),
{
    if k > 0 {
        assert(entries[0].0 != name);
        let t = entries.drop_first();
        assert forall|j: int| 0 <= j < k - 1 implies (#[trigger] t[j]).0 != name by {
            assert(t[j] == entries[j + 1]);
        }
        lemma_symbol_index_is(t, name, (k - 1) as nat);
    }
}

proof fn lemma_symbol_index_absent(entries: Seq<(Seq<char>, u32, u32)>, name: Seq<char>)
    requires
        forall|j: int| 0 <= j < entries.len() ==> (#[trigger] entries[j]).0 != name,
    ensures
        symbol_index(entries, name) == entries.len(),
    decreases entries.len(),
{
    if entries.len() > 0 {
        assert(entries[0].0 != name);
        let t = entries.drop_first();
        assert forall|j: int| 0 <= j < t.len() implies (#[trigger] t[j]).0 != name by {
            assert(t[j] == entries[j + 1]);
        }
        lemma_symbol_index_absent(t, name);
    }
}

proof fn lemma_symbol_at_index(entries: Seq<(Seq<char>, u32, u32)>, name: Seq<char>)
    ensures
        symbol_index(entries, name) < entries.len() ==> entries[symbol_index(
            entries,
            name,
        ) as int].0 == name,
    decreases entries.len(),
{
    if entries.len() > 0 && entries[0].0 != name {
        lemma_symbol_at_index(entries.drop_first(), name);
    }
}

impl FixtureCodeMap {
    /// The entries of the map.
    pub open spec fn entries(&self) -> Seq<(Seq<char>, u32, u32)> {
        entries_of(self.symbols@)
    }

    /// The map has the symbol.
    pub open spec fn has(&self, symbol: Seq<char>) -> bool {
        symbol_index(self.entries(), symbol) < self.entries().len()
    }

    /// The line on which a symbol of the map is declared.
    pub open spec fn decl_line(&self, symbol: Seq<char>) -> int {
        self.base + self.entries()[symbol_index(self.entries(), symbol) as int].1
    }

    /// The first line on which a symbol of the map is safely in scope.
    pub open spec fn logpoint_line(&self, symbol: Seq<char>) -> int {
        self.base + self.entries()[symbol_index(self.entries(), symbol) as int].2
    }

    /// A map over a base line.
    pub fn new(base: u32, symbols: Vec<(&'static str, u32, u32)>) -> (r: Self)
        ensures
            r.base == base,
            r.symbols == symbols,
    {
        Self { base, symbols }
    }

    /// The position of the first entry with the name.
    fn index_of(&self, symbol: &str) -> (r: usize)
        requires
            self.has(symbol@),
        ensures
            r < self.symbols.len(),
            r == symbol_index(self.entries(), symbol@),
    {
        let ghost entries = self.entries();
        let mut i: usize = 0;
        while i < self.symbols.len()
            invariant
                i <= self.symbols.len(),
                entries == self.entries(),
                self.has(symbol@),
                forall|j: int| 0 <= j < i ==> (#[trigger] entries[j]).0 != symbol@,
            decreases self.symbols.len() - i,
        {
            assert(entries[i as int].0 == self.symbols@[i as int].0@);
            if same_text(self.symbols[i].0, symbol) {
                proof {
                    lemma_symbol_index_is(entries, symbol@, i as nat);
                }
                return i;
            }
            i = i + 1;
        }
        proof {
            lemma_symbol_index_absent(entries, symbol@);
        }
        0
    }

    /// The line on which a symbol is declared.
    pub fn find_decl(&self, symbol: &str) -> (r: u32)
        requires
            self.has(symbol@),
            self.decl_line(symbol@) <= u32::MAX,
        ensures
            r == self.decl_line(symbol@),
    {
        let i: usize = self.index_of(symbol);
        assert(self.entries()[i as int].1 == self.symbols@[i as int].1);
        self.base + self.symbols[i].1
    }

    /// The first line on which a symbol is safely in scope.
    pub fn find_logpoint(&self, symbol: &str) -> (r: u32)
        requires
            self.has(symbol@),
            self.logpoint_line(symbol@) <= u32::MAX,
        ensures
            r == self.logpoint_line(symbol@),
    {
        let i: usize = self.index_of(symbol);
        assert(self.entries()[i as int].2 == self.symbols@[i as int].2);
        self.base + self.symbols[i].2
    }

    /// The line at an offset from the base line.
    pub fn line(&self, offset: u32) -> (r: u32)
        requires
            self.base + offset <= u32::MAX,
        ensures
            r == self.base + offset,
    {
        self.base + offset
    }
}

/// A symbol stands for a call: it declares nothing, and marks the line of the call itself.
pub open spec fn is_call_marker(name: Seq<char>) -> bool {
    name == "log"@ || name == "logOrder"@ || name == "print1"@ || name == "flush"@ || name
        == "sleep"@
}

/// Every variable of the entries is observed behind the line that declares it, every call on its
/// own line, and no name occurs twice.
pub open spec fn well_ordered(entries: Seq<(Seq<char>, u32, u32)>) -> bool {
    &&& forall|i: int|
        0 <= i < entries.len() ==> if is_call_marker((#[trigger] entries[i]).0) {
            entries[i].1 == entries[i].2
        } else {
            entries[i].1 < entries[i].2
        }
    &&& forall|i: int, j: int|
        0 <= i < j < entries.len() ==> (#[trigger] entries[i]).0 != (#[trigger] entries[j]).0
}

/// In well ordered entries, looking up the name of an entry finds that entry.
pub proof fn lemma_found(entries: Seq<(Seq<char>, u32, u32)>, k: int)
    requires
        well_ordered(entries),
        0 <= k < entries.len(),
    ensures
        symbol_index(entries, entries[k].0) == k,
{
    lemma_symbol_index_is(entries, entries[k].0, k as nat);
}

/// A variable of a well ordered map is observed only behind the line that declares it; a call is
/// observed on its own line.
pub proof fn law_declared_before_observed(map: &FixtureCodeMap, symbol: Seq<char>)
    requires
        well_ordered(map.entries()),
        map.has(symbol),
    ensures
        is_call_marker(symbol) ==> map.logpoint_line(symbol) == map.decl_line(symbol),
        !is_call_marker(symbol) ==> map.logpoint_line(symbol) > map.decl_line(symbol),
{
    lemma_symbol_at_index(map.entries(), symbol);
}

// ---------------------------------------------------------------------------
// Metrics of a workflow
// ---------------------------------------------------------------------------

/// A metric that a workflow places in its fixture.
#[derive(Debug, Clone)]
pub struct MetricPoint {
    pub name: String,
    pub line: u32,
    pub expression: String,
    pub extra_expressions: Vec<String>,
    pub group: Option<String>,
    pub capture_stack_trace: bool,
    pub capture_memory_snapshot: bool,
}

/// The mathematical counterpart of [`MetricPoint`].
pub struct MetricPointView {
    pub name: Seq<char>,
    pub line: u32,
    pub expression: Seq<char>,
    pub extra_expressions: Seq<Seq<char>>,
    pub group: Option<Seq<char>>,
    pub capture_stack_trace: bool,
    pub capture_memory_snapshot: bool,
}

impl View for MetricPoint {
    type V = MetricPointView;

    open spec fn view(&self) -> MetricPointView {
        MetricPointView {
            name: self.name@,
            line: self.line,
            expression: self.expression@,
            extra_expressions: views(self.extra_expressions@),
            group: opt_view(self.group),
            capture_stack_trace: self.capture_stack_trace,
            capture_memory_snapshot: self.capture_memory_snapshot,
        }
    }
}

/// A metric without group, further expressions and introspection.
pub open spec fn plain_point(name: Seq<char>, line: u32, expression: Seq<char>) -> MetricPointView {
    MetricPointView {
        name,
        line,
        expression,
        extra_expressions: Seq::empty(),
        group: None,
        capture_stack_trace: false,
        capture_memory_snapshot: false,
    }
}

/// A metric of one expression in a group.
pub open spec fn group_point(
    name: Seq<char>,
    line: u32,
    expression: Seq<char>,
    group: Seq<char>,
) -> MetricPointView {
    MetricPointView { group: Some(group), ..plain_point(name, line, expression) }
}

impl MetricPoint {
    /// A metric without group, further expressions and introspection.
    pub fn new(name: &str, line: u32, expression: &str) -> (r: Self)
        ensures
            r@ == plain_point(name@, line, expression@),
    {
        let r = Self {
            name: name.to_owned(),
            line,
            expression: expression.to_owned(),
            extra_expressions: Vec::new(),
            group: None,
            capture_stack_trace: false,
            capture_memory_snapshot: false,
        };
        assert(r@.extra_expressions =~= Seq::<Seq<char>>::empty());
        r
    }

    /// Captures further expressions on the same line.
    pub fn with_extra_expressions(self, extra: Vec<&str>) -> (r: Self)
        ensures
            r@ == (MetricPointView {
                extra_expressions: extra@.map_values(|s: &str| s@),
                ..self@
            }),
    {
        let mut owned: Vec<String> = Vec::new();
        let mut i: usize = 0;
        while i < extra.len()
            invariant
                i <= extra.len(),
                owned.len() == i,
                forall|j: int| 0 <= j < i ==> (#[trigger] owned@[j])@ == extra@[j]@,
            decreases extra.len() - i,
        {
            owned.push(extra[i].to_owned());
            i = i + 1;
        }
        assert(views(owned@) =~= extra@.map_values(|s: &str| s@));
        let mut r = self;
        r.extra_expressions = owned;
        r
    }

    /// Puts the metric in a group.
    pub fn with_group(self, group: &str) -> (r: Self)
        ensures
            r@ == (MetricPointView { group: Some(group@), ..self@ }),
    {
        let mut r = self;
        r.group = Some(group.to_owned());
        r
    }

    /// Captures stack traces.
    pub fn with_stack_trace(self) -> (r: Self)
        ensures
            r@ == (MetricPointView { capture_stack_trace: true, ..self@ }),
    {
        let mut r = self;
        r.capture_stack_trace = true;
        r
    }

    /// Captures memory snapshots.
    pub fn with_memory_snapshot(self) -> (r: Self)
        ensures
            r@ == (MetricPointView { capture_memory_snapshot: true, ..self@ }),
    {
        let mut r = self;
        r.capture_memory_snapshot = true;
        r
    }

    /// Captures stack traces and memory snapshots.
    pub fn with_introspection(self) -> (r: Self)
        ensures
            r@ == (MetricPointView {
                capture_stack_trace: true,
                capture_memory_snapshot: true,
                ..self@
            }),
    {
        let mut r = self;
        r.capture_stack_trace = true;
        r.capture_memory_snapshot = true;
        r
    }
}

/// The configuration of a workflow test for one language.
#[derive(Debug, Clone)]
pub struct DapWorkflowConfig {
    pub language: SourceLanguage,
    /// The source file, relative to the workspace.
    pub source_file: String,
    /// The metrics that the workflow adds.
    pub metrics: Vec<MetricPoint>,
    /// The metrics that capture stack traces or memory snapshots.
    pub introspection_metrics: Vec<MetricPoint>,
    /// The line to look at before metrics are placed.
    pub inspect_line: u32,
    /// The variable to look for before metrics are placed.
    pub inspect_variable: String,
    /// A metric for a variable that is not in scope.
    pub invalid_metric: Option<MetricPoint>,
    pub group_name: String,
    /// How long to wait for events.
    pub event_wait_secs: u64,
    /// How long the fixture takes for one iteration.
    pub iteration_duration_ms: u64,
}

/// The mathematical counterpart of [`DapWorkflowConfig`].
pub struct DapWorkflowConfigView {
    pub language: SourceLanguage,
    pub source_file: Seq<char>,
    pub metrics: Seq<MetricPointView>,
    pub introspection_metrics: Seq<MetricPointView>,
    pub inspect_line: u32,
    pub inspect_variable: Seq<char>,
    pub invalid_metric: Option<MetricPointView>,
    pub group_name: Seq<char>,
    pub event_wait_secs: u64,
    pub iteration_duration_ms: u64,
}

/// The metrics of a list.
pub open spec fn point_views(points: Seq<MetricPoint>) -> Seq<MetricPointView> {
    points.map_values(|p: MetricPoint| p@)
}

impl View for DapWorkflowConfig {
    type V = DapWorkflowConfigView;

    open spec fn view(&self) -> DapWorkflowConfigView {
        DapWorkflowConfigView {
            language: self.language,
            source_file: self.source_file@,
            metrics: point_views(self.metrics@),
            introspection_metrics: point_views(self.introspection_metrics@),
            inspect_line: self.inspect_line,
            inspect_variable: self.inspect_variable@,
            invalid_metric: match self.invalid_metric {
                Some(m) => Some(m@),
                None => None,
            },
            group_name: self.group_name@,
            event_wait_secs: self.event_wait_secs,
            iteration_duration_ms: self.iteration_duration_ms,
        }
    }
}

/// A metric with introspection.
pub open spec fn introspection_point(
    name: Seq<char>,
    line: u32,
    expression: Seq<char>,
    group: Seq<char>,
    stack_trace: bool,
    memory_snapshot: bool,
) -> MetricPointView {
    MetricPointView {
        capture_stack_trace: stack_trace,
        capture_memory_snapshot: memory_snapshot,
        ..group_point(name, line, expression, group)
    }
}

/// A metric for three expressions: the given one, quantity and price.
pub open spec fn trade_point(line: u32, group: Seq<char>) -> MetricPointView {
    MetricPointView {
        extra_expressions: seq!["quantity"@, "price"@],
        ..group_point("trade_details"@, line, "symbol"@, group)
    }
}

/// The workflow of the Python fixture.
pub open spec fn python_config() -> DapWorkflowConfigView {
    let g = "python_workflow"@;
    let i = "python_introspection"@;
    DapWorkflowConfigView {
        language: SourceLanguage::Python,
        source_file: "fixtures/python/trade_bot_forever.py"@,
        metrics: seq![
            group_point("order_metric"@, 66, "order_id"@, g),
            group_point("price_metric"@, 59, "price"@, g),
            group_point("quantity_metric"@, 62, "quantity"@, g),
            group_point("symbol_metric"@, 63, "symbol"@, g),
            trade_point(64, g),
        ],
        introspection_metrics: seq![
            introspection_point("stack_trace_metric"@, 66, "order_id"@, i, true, false),
            introspection_point("memory_snapshot_metric"@, 67, "price"@, i, false, true),
            introspection_point("full_introspection_metric"@, 69, "quantity"@, i, true, true),
        ],
        inspect_line: 66,
        inspect_variable: "price"@,
        invalid_metric: Some(group_point("bad_metric"@, 66, "nonexistent_var"@, g)),
        group_name: g,
        event_wait_secs: 15,
        iteration_duration_ms: 3000,
    }
}

/// The workflow of the Go fixture.
pub open spec fn go_config() -> DapWorkflowConfigView {
    let g = "go_workflow"@;
    let i = "go_introspection"@;
    DapWorkflowConfigView {
        language: SourceLanguage::Go,
        source_file: "fixtures/go/string_capture/main.go"@,
        metrics: seq![
            group_point("order_metric"@, 125, "orderID"@, g),
            group_point("price_metric"@, 120, "price"@, g),
            group_point("quantity_metric"@, 123, "quantity"@, g),
            group_point("symbol_metric"@, 124, "symbol"@, g),
            trade_point(134, g),
        ],
        introspection_metrics: seq![
            introspection_point("stack_trace_metric"@, 128, "orderID"@, i, true, false),
            introspection_point("memory_snapshot_metric"@, 129, "price"@, i, false, true),
            introspection_point("full_introspection_metric"@, 132, "quantity"@, i, true, true),
        ],
        inspect_line: 125,
        inspect_variable: "price"@,
        invalid_metric: Some(group_point("bad_metric"@, 108, "nonexistent_var"@, g)),
        group_name: g,
        event_wait_secs: 15,
        iteration_duration_ms: 3000,
    }
}

/// The workflow of the Rust fixture.
pub open spec fn rust_config() -> DapWorkflowConfigView {
    let g = "rust_workflow"@;
    let i = "rust_introspection"@;
    DapWorkflowConfigView {
        language: SourceLanguage::Rust,
        source_file: "fixtures/rust/src/main.rs"@,
        metrics: seq![
            group_point("order_metric"@, 117, "order_id"@, g),
            group_point("price_metric"@, 114, "price"@, g),
            group_point("quantity_metric"@, 119, "quantity"@, g),
            group_point("symbol_metric"@, 121, "symbol"@, g),
        ],
        introspection_metrics: seq![
            introspection_point("stack_trace_metric"@, 128, "order_id"@, i, true, false),
            introspection_point("memory_snapshot_metric"@, 130, "price"@, i, false, true),
            introspection_point("full_introspection_metric"@, 132, "quantity"@, i, true, true),
        ],
        inspect_line: 128,
        inspect_variable: "price"@,
        invalid_metric: Some(group_point("bad_metric"@, 117, "nonexistent_var"@, g)),
        group_name: g,
        event_wait_secs: 15,
        iteration_duration_ms: 3000,
    }
}

fn trade_details(line: u32, group: &str) -> (r: MetricPoint)
    ensures
        r@ == trade_point(line, group@),
{
    let mut extra: Vec<&str> = Vec::new();
    extra.push("quantity");
    extra.push("price");
    assert(extra@.map_values(|s: &str| s@) =~= seq!["quantity"@, "price"@]);
    MetricPoint::new("trade_details", line, "symbol").with_extra_expressions(extra).with_group(
        group,
    )
}

impl DapWorkflowConfig {
    /// The workflow of the Python fixture. Line numbers come from its code map; every metric
    /// has a line of its own.
    pub fn python() -> (r: Self)
        ensures
            r@ == python_config(),
    {
        let map: FixtureCodeMap = python_lines::codemap();
        proof {
            python_lines::lemma_lines(&map);
        }
        let g: &str = "python_workflow";
        let i: &str = "python_introspection";
        let metrics: Vec<MetricPoint> = vec![
            MetricPoint::new("order_metric", map.find_logpoint("order_id"), "order_id").with_group(g),
            MetricPoint::new("price_metric", map.find_logpoint("price"), "price").with_group(g),
            MetricPoint::new("quantity_metric", map.find_logpoint("quantity"), "quantity")
                .with_group(g),
            MetricPoint::new("symbol_metric", map.find_logpoint("symbol"), "symbol").with_group(g),
            trade_details(map.find_logpoint("entry_price"), g),
        ];
        let introspection_metrics: Vec<MetricPoint> = vec![
            MetricPoint::new("stack_trace_metric", map.find_logpoint("order_id"), "order_id")
                .with_group(i).with_stack_trace(),
            MetricPoint::new("memory_snapshot_metric", map.find_logpoint("pnl"), "price")
                .with_group(i).with_memory_snapshot(),
            MetricPoint::new("full_introspection_metric", map.find_logpoint("sleep"), "quantity")
                .with_group(i).with_introspection(),
        ];
        let r = Self {
            language: SourceLanguage::Python,
            source_file: "fixtures/python/trade_bot_forever.py".to_owned(),
            metrics,
            introspection_metrics,
            inspect_line: map.find_logpoint("order_id"),
            inspect_variable: "price".to_owned(),
            invalid_metric: Some(
                MetricPoint::new("bad_metric", map.find_logpoint("order_id"), "nonexistent_var")
                    .with_group(g),
            ),
            group_name: g.to_owned(),
            event_wait_secs: 15,
            iteration_duration_ms: 3000,
        };
        assert(r@.metrics =~= python_config().metrics);
        assert(r@.introspection_metrics =~= python_config().introspection_metrics);
        r
    }

    /// The workflow of the Go fixture. A metric is placed on the line of a later declaration,
    /// where its own variable is already in scope; every metric has a line of its own.
    pub fn go() -> (r: Self)
        ensures
            r@ == go_config(),
    {
        let map: FixtureCodeMap = go_lines::codemap();
        proof {
            go_lines::lemma_lines(&map);
        }
        let g: &str = "go_workflow";
        let i: &str = "go_introspection";
        let metrics: Vec<MetricPoint> = vec![
            MetricPoint::new("order_metric", map.find_decl("pnl"), "orderID").with_group(g),
            MetricPoint::new("price_metric", map.find_decl("orderID"), "price").with_group(g),
            MetricPoint::new("quantity_metric", map.find_decl("entryPrice"), "quantity")
                .with_group(g),
            MetricPoint::new("symbol_metric", map.find_decl("currentPrice"), "symbol").with_group(g),
            trade_details(map.find_decl("sleep"), g),
        ];
        let introspection_metrics: Vec<MetricPoint> = vec![
            MetricPoint::new("stack_trace_metric", map.find_decl("totalPnl"), "orderID")
                .with_group(i).with_stack_trace(),
            MetricPoint::new("memory_snapshot_metric", map.find_decl("lastOrderID"), "price")
                .with_group(i).with_memory_snapshot(),
            MetricPoint::new("full_introspection_metric", map.find_decl("log"), "quantity")
                .with_group(i).with_introspection(),
        ];
        let r = Self {
            language: SourceLanguage::Go,
            source_file: "fixtures/go/string_capture/main.go".to_owned(),
            metrics,
            introspection_metrics,
            inspect_line: map.find_decl("pnl"),
            inspect_variable: "price".to_owned(),
            invalid_metric: Some(
                MetricPoint::new("bad_metric", map.find_decl("symbol"), "nonexistent_var")
                    .with_group(g),
            ),
            group_name: g.to_owned(),
            event_wait_secs: 15,
            iteration_duration_ms: 3000,
        };
        assert(r@.metrics =~= go_config().metrics);
        assert(r@.introspection_metrics =~= go_config().introspection_metrics);
        r
    }

    /// The workflow of the Rust fixture. A metric is placed on the line of a later declaration,
    /// where its own variable is already in scope; every metric has a line of its own.
    pub fn rust() -> (r: Self)
        ensures
            r@ == rust_config(),
    {
        let map: FixtureCodeMap = rust_lines::codemap();
        proof {
            rust_lines::lemma_lines(&map);
        }
        let g: &str = "rust_workflow";
        let i: &str = "rust_introspection";
        let metrics: Vec<MetricPoint> = vec![
            MetricPoint::new("order_metric", map.find_decl("entry_price"), "order_id").with_group(g),
            MetricPoint::new("price_metric", map.find_decl("order_id"), "price").with_group(g),
            MetricPoint::new("quantity_metric", map.find_decl("current_price"), "quantity")
                .with_group(g),
            MetricPoint::new("symbol_metric", map.find_decl("pnl"), "symbol").with_group(g),
        ];
        let introspection_metrics: Vec<MetricPoint> = vec![
            MetricPoint::new("stack_trace_metric", map.find_decl("log"), "order_id").with_group(i)
                .with_stack_trace(),
            MetricPoint::new("memory_snapshot_metric", map.find_decl("flush"), "price").with_group(i)
                .with_memory_snapshot(),
            MetricPoint::new("full_introspection_metric", map.find_decl("sleep"), "quantity")
                .with_group(i).with_introspection(),
        ];
        let r = Self {
            language: SourceLanguage::Rust,
            source_file: "fixtures/rust/src/main.rs".to_owned(),
            metrics,
            introspection_metrics,
            inspect_line: map.find_decl("log"),
            inspect_variable: "price".to_owned(),
            invalid_metric: Some(
                MetricPoint::new("bad_metric", map.find_decl("entry_price"), "nonexistent_var")
                    .with_group(g),
            ),
            group_name: g.to_owned(),
            event_wait_secs: 15,
            iteration_duration_ms: 3000,
        };
        assert(r@.metrics =~= rust_config().metrics);
        assert(r@.introspection_metrics =~= rust_config().introspection_metrics);
        r
    }
}

/// The workflows.
pub struct DapWorkflowScenarios;

/// No two metrics of a list stand on one line.
pub open spec fn distinct_lines(points: Seq<MetricPointView>) -> bool {
    forall|i: int, j: int|
        0 <= i < j < points.len() ==> (#[trigger] points[i]).line != (#[trigger] points[j]).line
}

/// Every metric of a list belongs to the group.
pub open spec fn all_in_group(points: Seq<MetricPointView>, group: Seq<char>) -> bool {
    forall|i: int| 0 <= i < points.len() ==> (#[trigger] points[i]).group == Some(group)
}

/// In each of the three workflows no two metrics share a line, neither among the plain ones
/// nor among those with introspection, and enabling the workflow's group reaches every plain
/// metric.
pub proof fn law_workflow_metrics(config: DapWorkflowConfigView)
    requires
        config == python_config() || config == go_config() || config == rust_config(),
    ensures
        distinct_lines(config.metrics),
        distinct_lines(config.introspection_metrics),
        all_in_group(config.metrics, config.group_name),
        config.metrics.len() >= 2,
{
}

} // verus!
