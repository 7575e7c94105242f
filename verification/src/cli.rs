//! The command line backend: the arguments of every command, and what its output means.

use vstd::prelude::*;

pub mod calls;
pub mod laws;

use crate::client::{
    plain_error, ApiError, ConnectionInfo, EventInfo, MetricInfo, MetricInfoView, ValidationResult,
    ValidationResultView,
};
use crate::exchange::{Action, ActionView};
use crate::mcp::{first_number_or_zero, McpClient};
use crate::times::{format_time, rfc3339};
use crate::text::{
    cat2, cat3, cat5, clone_strings, contains, decimal, has_text, join, joined, num, num_signed,
    opt_view, same_text, signed_decimal, trim, trimmed, views,
};

verus! {

/// The variable that sends the command line client to another gRPC port.
pub fn grpc_port_override() -> (r: &'static str)
    ensures
        r@ == "DETRIX_GRPC_PORT_OVERRIDE"@,
{
    "DETRIX_GRPC_PORT_OVERRIDE"
}

/// A command line client: its program, and the ports of the daemon.
#[derive(Debug)]
pub struct CliClient {
    pub detrix_binary: String,
    pub http_port: u16,
    pub grpc_port: u16,
}

impl CliClient {
    /// A client for a daemon on the gRPC port that holds where nothing else is configured.
    pub fn with_binary(binary_path: String, http_port: u16, default_grpc_port: u16) -> (r: Self)
        ensures
            r == (CliClient {
                detrix_binary: binary_path,
                http_port,
                grpc_port: default_grpc_port,
            }),
    {
        CliClient { detrix_binary: binary_path, http_port, grpc_port: default_grpc_port }
    }

    /// A client for a daemon on a given gRPC port.
    pub fn with_grpc_port(binary_path: String, http_port: u16, grpc_port: u16) -> (r: Self)
        ensures
            r == (CliClient { detrix_binary: binary_path, http_port, grpc_port }),
    {
        CliClient { detrix_binary: binary_path, http_port, grpc_port }
    }

    /// The environment of a command: the variable and its value.
    pub fn environment(&self) -> (r: (&'static str, String))
        ensures
            r.0@ == "DETRIX_GRPC_PORT_OVERRIDE"@,
            r.1@ == decimal(self.grpc_port as nat),
    {
        (grpc_port_override(), num(self.grpc_port as u64))
    }
}

// ---------------------------------------------------------------------------
// Arguments
// ---------------------------------------------------------------------------

/// The arguments, with an option where there is a value for it.
pub open spec fn with_option(args: Seq<Seq<char>>, name: Seq<char>, value: Option<Seq<char>>) -> Seq<
    Seq<char>,
> {
    match value {
        Some(v) => args.push(name).push(v),
        None => args,
    }
}

/// The arguments, with a flag where it is set.
pub open spec fn with_flag(args: Seq<Seq<char>>, name: Seq<char>, set: bool) -> Seq<Seq<char>> {
    if set {
        args.push(name)
    } else {
        args
    }
}

/// The arguments of a command, without the output format; none for what the command line does
/// not offer. `file` is where a configuration was put.
pub open spec fn command_args(action: ActionView, file: Seq<char>) -> Option<Seq<Seq<char>>> {
    match action {
        ActionView::Health | ActionView::GetStatus => Some(seq!["status"@]),
        ActionView::Wake => Some(seq!["wake"@]),
        ActionView::Sleep => Some(seq!["sleep"@]),
        ActionView::CreateConnection(host, port, language, program) => Some(
            with_option(
                seq![
                    "connection"@,
                    "create"@,
                    "--host"@,
                    host,
                    "--port"@,
                    decimal(port as nat),
                    "--language"@,
                    language,
                ],
                "--program"@,
                program,
            ),
        ),
        ActionView::CloseConnection(id) => Some(seq!["connection"@, "close"@, id]),
        ActionView::GetConnection(id) => Some(seq!["connection"@, "get"@, id]),
        ActionView::ListConnections => Some(seq!["connection"@, "list"@]),
        ActionView::AddMetric(r) => Some(
            with_flag(
                with_flag(
                    with_option(
                        seq![
                            "metric"@,
                            "add"@,
                            r.name,
                            "--location"@,
                            r.location,
                            "--expression"@,
                            r.expression,
                            "--connection"@,
                            r.connection_id,
                        ],
                        "--group"@,
                        r.group,
                    ),
                    "--capture-stack-trace"@,
                    r.capture_stack_trace == Some(true),
                ),
                "--capture-memory-snapshot"@,
                r.capture_memory_snapshot == Some(true),
            ),
        ),
        ActionView::RemoveMetric(name) => Some(seq!["metric"@, "remove"@, name]),
        ActionView::ToggleMetric(name, enabled) => Some(
            seq![
                "metric"@,
                if enabled {
                    "enable"@
                } else {
                    "disable"@
                },
                name,
            ],
        ),
        ActionView::GetMetric(name) => Some(seq!["metric"@, "get"@, name]),
        ActionView::ListMetrics => Some(seq!["metric"@, "list"@]),
        ActionView::QueryEvents(name, limit) => Some(
            seq!["event"@, "query"@, "--metric"@, name, "--limit"@, decimal(limit as nat)],
        ),
        ActionView::EnableGroup(group) => Some(seq!["group"@, "enable"@, group]),
        ActionView::DisableGroup(group) => Some(seq!["group"@, "disable"@, group]),
        ActionView::ListGroups => Some(seq!["group"@, "list"@]),
        ActionView::ValidateExpression(expression, language) => Some(
            seq!["validate"@, expression, "--language"@, language],
        ),
        ActionView::InspectFile(path, line, variable) => Some(
            with_option(
                with_option(
                    seq!["inspect"@, path],
                    "--line"@,
                    match line {
                        Some(l) => Some(decimal(l as nat)),
                        None => None,
                    },
                ),
                "--find-variable"@,
                variable,
            ),
        ),
        ActionView::GetConfig => Some(seq!["config"@, "get"@]),
        ActionView::UpdateConfig(_, persist) => Some(
            with_flag(seq!["config"@, "update"@, "--file"@, file], "--persist"@, persist),
        ),
        ActionView::ValidateConfig(_) => Some(seq!["config"@, "validate"@, "--file"@, file]),
        ActionView::ReloadConfig => Some(seq!["config"@, "reload"@]),
        ActionView::QuerySystemEvents(limit, unacknowledged, types) => Some(
            with_option(
                with_flag(
                    seq!["system-event"@, "query"@, "--limit"@, decimal(limit as nat)],
                    "--unacked"@,
                    unacknowledged,
                ),
                "--event-type"@,
                match types {
                    Some(t) => if t.len() > 0 {
                        Some(joined(t, ","@))
                    } else {
                        None
                    },
                    None => None,
                },
            ),
        ),
        ActionView::GetMcpUsage => Some(seq!["usage"@]),
        _ => None,
    }
}

/// The whole command line: the output format, then the command.
pub open spec fn full_args(args: Seq<Seq<char>>) -> Seq<Seq<char>> {
    seq!["--format"@, "json"@] + args
}

/// Arguments that are being put together.
struct Args {
    items: Vec<String>,
}

impl Args {
    spec fn seq(&self) -> Seq<Seq<char>> {
        views(self.items@)
    }

    fn new() -> (r: Args)
        ensures
            r.seq() == Seq::<Seq<char>>::empty(),
    {
        let r = Args { items: Vec::new() };
        assert(r.seq() =~= Seq::<Seq<char>>::empty());
        r
    }

    fn put(&mut self, item: &str)
        ensures
            final(self).seq() == old(self).seq().push(item@),
    {
        let owned: String = item.to_owned();
        self.items.push(owned);
        assert(self.seq() =~= old(self).seq().push(item@));
    }

    fn put2(&mut self, a: &str, b: &str)
        ensures
            final(self).seq() == old(self).seq().push(a@).push(b@),
    {
        self.put(a);
        self.put(b);
    }

    fn put3(&mut self, a: &str, b: &str, c: &str)
        ensures
            final(self).seq() == old(self).seq().push(a@).push(b@).push(c@),
    {
        self.put(a);
        self.put(b);
        self.put(c);
    }

    fn option(&mut self, name: &str, value: &Option<String>)
        ensures
            final(self).seq() == with_option(old(self).seq(), name@, opt_view(*value)),
    {
        match value {
            Some(v) => self.put2(name, v.as_str()),
            None => {},
        }
    }

    fn flag(&mut self, name: &str, set: bool)
        ensures
            final(self).seq() == with_flag(old(self).seq(), name@, set),
    {
        if set {
            self.put(name);
        }
    }
}

fn is_set(flag: Option<bool>) -> (r: bool)
    ensures
        r == (flag == Some(true)),
{
    match flag {
        Some(b) => b,
        None => false,
    }
}

impl CliClient {
    fn put_add_metric(a: &mut Args, r: &crate::client::AddMetricRequest)
        requires
            old(a).seq().len() == 0,
        ensures
            Some(final(a).seq()) == command_args(ActionView::AddMetric(r@), Seq::empty()),
    {
        a.put3("metric", "add", r.name.as_str());
        a.put2("--location", r.location.as_str());
        a.put2("--expression", r.expression.as_str());
        a.put2("--connection", r.connection_id.as_str());
        assert(a.seq() =~= seq![
            "metric"@,
            "add"@,
            r@.name,
            "--location"@,
            r@.location,
            "--expression"@,
            r@.expression,
            "--connection"@,
            r@.connection_id,
        ]);
        a.option("--group", &r.group);
        a.flag("--capture-stack-trace", is_set(r.capture_stack_trace));
        a.flag("--capture-memory-snapshot", is_set(r.capture_memory_snapshot));
    }

    /// The arguments of a command; none for what the command line does not offer. `file` is
    /// where a configuration was put.
    pub fn arguments(action: &Action, file: &str) -> (r: Option<Vec<String>>)
        ensures
            r is Some <==> command_args(action@, file@) is Some,
            r matches Some(args) ==> views(args@) == full_args(command_args(action@, file@)->0),
    {
        let mut a: Args = Args::new();
        match action {
            Action::Health | Action::GetStatus => a.put("status"),
            Action::Wake => a.put("wake"),
            Action::Sleep => a.put("sleep"),
            Action::CreateConnection { host, port, language, program } => {
                a.put3("connection", "create", "--host");
                a.put3(host.as_str(), "--port", num(*port as u64).as_str());
                a.put2("--language", language.as_str());
                assert(a.seq() =~= seq![
                    "connection"@,
                    "create"@,
                    "--host"@,
                    host@,
                    "--port"@,
                    decimal(*port as nat),
                    "--language"@,
                    language@,
                ]);
                a.option("--program", program);
            },
            Action::CloseConnection { id } => a.put3("connection", "close", id.as_str()),
            Action::GetConnection { id } => a.put3("connection", "get", id.as_str()),
            Action::ListConnections => a.put2("connection", "list"),
            Action::AddMetric { request } => Self::put_add_metric(&mut a, request),
            Action::RemoveMetric { name } => a.put3("metric", "remove", name.as_str()),
            Action::ToggleMetric { name, enabled } => a.put3(
                "metric",
                if *enabled {
                    "enable"
                } else {
                    "disable"
                },
                name.as_str(),
            ),
            Action::GetMetric { name } => a.put3("metric", "get", name.as_str()),
            Action::ListMetrics => a.put2("metric", "list"),
            Action::QueryEvents { name, limit } => {
                a.put3("event", "query", "--metric");
                a.put3(name.as_str(), "--limit", num(*limit as u64).as_str());
            },
            Action::EnableGroup { group } => a.put3("group", "enable", group.as_str()),
            Action::DisableGroup { group } => a.put3("group", "disable", group.as_str()),
            Action::ListGroups => a.put2("group", "list"),
            Action::ValidateExpression { expression, language } => {
                a.put2("validate", expression.as_str());
                a.put2("--language", language.as_str());
            },
            Action::InspectFile { path, line, variable } => {
                a.put2("inspect", path.as_str());
                assert(a.seq() =~= seq!["inspect"@, path@]);
                match line {
                    Some(l) => a.put2("--line", num(*l as u64).as_str()),
                    None => {},
                }
                a.option("--find-variable", variable);
            },
            Action::GetConfig => a.put2("config", "get"),
            Action::UpdateConfig { toml: _, persist } => {
                a.put2("config", "update");
                a.put2("--file", file);
                assert(a.seq() =~= seq!["config"@, "update"@, "--file"@, file@]);
                a.flag("--persist", *persist);
            },
            Action::ValidateConfig { .. } => {
                a.put2("config", "validate");
                a.put2("--file", file);
            },
            Action::ReloadConfig => a.put2("config", "reload"),
            Action::QuerySystemEvents { limit, unacknowledged_only, types } => {
                a.put2("system-event", "query");
                a.put2("--limit", num(*limit as u64).as_str());
                assert(a.seq() =~= seq![
                    "system-event"@,
                    "query"@,
                    "--limit"@,
                    decimal(*limit as nat),
                ]);
                a.flag("--unacked", *unacknowledged_only);
                match types {
                    Some(t) => if t.len() > 0 {
                        a.put2("--event-type", join(t, ",").as_str());
                    },
                    None => {},
                }
            },
            Action::GetMcpUsage => a.put("usage"),
            _ => {
                return None;
            },
        }
        assert(a.seq() =~= command_args(action@, file@)->0);
        let mut all: Args = Args::new();
        all.put2("--format", "json");
        let ghost head = all.items@;
        let ghost tail = a.items@;
        let mut items: Vec<String> = all.items;
        items.append(&mut a.items);
        assert(views(head) =~= seq!["--format"@, "json"@]);
        assert(views(items@) =~= views(head) + views(tail));
        Some(items)
    }

    /// The arguments that disable a metric: the command line adds metrics enabled, so one that
    /// is to start disabled is disabled afterwards.
    pub fn disable_after_add(request: &crate::client::AddMetricRequest) -> (r: bool)
        ensures
            r == (request.enabled == Some(false)),
    {
        match request.enabled {
            Some(enabled) => !enabled,
            None => false,
        }
    }
}

// ---------------------------------------------------------------------------
// Output
// ---------------------------------------------------------------------------

/// The exit code as `Debug` shows it.
pub open spec fn debug_code(code: Option<i32>) -> Seq<char> {
    match code {
        Some(c) => "Some("@ + signed_decimal(c as int) + ")"@,
        None => "None"@,
    }
}

/// The message of a command that failed: its error output, or else its output, or else its exit
/// code.
pub open spec fn failure_text(code: Option<i32>, stdout: Seq<char>, stderr: Seq<char>) -> Seq<char> {
    if stderr.len() > 0 {
        stderr
    } else if stdout.len() > 0 {
        stdout
    } else {
        "Command failed with exit code: "@ + debug_code(code)
    }
}

/// What a command printed that stands for an empty list.
pub open spec fn is_empty_output(output: Seq<char>) -> bool {
    trimmed(output).len() == 0 || trimmed(output) == "[]"@
}

impl CliClient {
    /// The result of a command that has ended.
    pub fn command_result(success: bool, code: Option<i32>, stdout: String, stderr: String) -> (r:
        Result<String, ApiError>)
        ensures
            r is Ok <==> success,
            r matches Ok(out) ==> out == stdout,
            r matches Err(e) ==> e@ == plain_error(failure_text(code, stdout@, stderr@)),
    {
        if success {
            Ok(stdout)
        } else if !stderr.as_str().is_empty() {
            Err(ApiError::new(stderr))
        } else if !stdout.as_str().is_empty() {
            Err(ApiError::new(stdout))
        } else {
            let shown: String = match code {
                Some(c) => cat3("Some(", num_signed(c as i64).as_str(), ")"),
                None => "None".to_owned(),
            };
            Err(ApiError::new(cat2("Command failed with exit code: ", shown.as_str())))
        }
    }

    /// The error of output that could not be read.
    pub fn parse_failure(error: &str, json: &str) -> (r: ApiError)
        ensures
            r@ == plain_error(
                "Failed to parse JSON response: "@ + error@ + " (input: "@ + json@ + ")"@,
            ),
    {
        ApiError::new(
            cat5("Failed to parse JSON response: ", error, " (input: ", json, ")"),
        )
    }

    /// The first whole number of a message, or 0.
    pub fn parse_count_from_message(message: &str) -> (r: usize)
        ensures
            r == first_number_or_zero(message@, usize::MAX as nat),
    {
        McpClient::parse_metric_count(message)
    }

    /// Whether output stands for an empty list.
    pub fn is_empty_list(output: &str) -> (r: bool)
        ensures
            r == is_empty_output(output@),
    {
        let t: String = trim(output);
        t.as_str().is_empty() || same_text(t.as_str(), "[]")
    }

    /// The finding that the output of a configuration check gives.
    pub fn config_is_valid(output: &str) -> (r: bool)
        ensures
            r == (has_text(output@, "valid"@) || has_text(output@, "OK"@)),
    {
        contains(output, "valid") || contains(output, "OK")
    }

    /// The error of a command that the command line does not have yet.
    pub fn acknowledge_unsupported() -> (r: ApiError)
        ensures
            r@ == plain_error("acknowledge_system_events not yet implemented in CLI"@),
    {
        ApiError::new("acknowledge_system_events not yet implemented in CLI".to_owned())
    }

    /// The error of a command that could not be run.
    pub fn execution_error(error: &str) -> (r: ApiError)
        ensures
            r@ == plain_error("Failed to execute detrix command: "@ + error@),
    {
        ApiError::new(cat2("Failed to execute detrix command: ", error))
    }

    /// The configuration that an action hands over in a file, and the name of that file.
    pub fn config_file(action: &Action) -> (r: Option<(&'static str, String)>)
        ensures
            match r {
                Some((name, content)) => match action@ {
                    ActionView::UpdateConfig(toml, _) => name@
                        == "detrix_test_update_config.toml"@ && content@ == toml,
                    ActionView::ValidateConfig(toml) => name@ == "detrix_test_config.toml"@
                        && content@ == toml,
                    _ => false,
                },
                None => !(action@ is UpdateConfig || action@ is ValidateConfig),
            },
    {
        match action {
            Action::UpdateConfig { toml, .. } => Some(
                ("detrix_test_update_config.toml", toml.clone()),
            ),
            Action::ValidateConfig { toml } => Some(("detrix_test_config.toml", toml.clone())),
            _ => None,
        }
    }

    /// The error of a configuration that could not be written to its file.
    pub fn config_file_error(error: &str) -> (r: ApiError)
        ensures
            r@ == plain_error("Failed to write temp config: "@ + error@),
    {
        ApiError::new(cat2("Failed to write temp config: ", error))
    }
}

/// A connection as the command line prints it.
#[derive(Debug)]
pub struct CliConnectionResponse {
    pub connection_id: String,
    pub host: String,
    pub port: u32,
    pub language: String,
    pub status: String,
    pub safe_mode: bool,
}

/// What a printed connection is known as; of the port the low 16 bits.
pub open spec fn printed_connection(c: CliConnectionResponse) -> ConnectionInfo {
    ConnectionInfo {
        connection_id: c.connection_id,
        host: c.host,
        port: (c.port % 0x1_0000) as u16,
        language: c.language,
        status: c.status,
        safe_mode: c.safe_mode,
    }
}

impl CliConnectionResponse {
    /// The connection; of the port the low 16 bits.
    pub fn into_info(self) -> (r: ConnectionInfo)
        ensures
            r == printed_connection(self),
    {
        ConnectionInfo {
            connection_id: self.connection_id,
            host: self.host,
            port: (self.port % 0x1_0000) as u16,
            language: self.language,
            status: self.status,
            safe_mode: self.safe_mode,
        }
    }
}

/// A metric as the command line prints it: with its location as one text, or as file and line.
#[derive(Debug)]
pub struct CliMetricResponse {
    pub name: String,
    pub location: Option<String>,
    pub location_file: Option<String>,
    pub location_line: Option<u32>,
    pub expression: String,
    pub group: Option<String>,
    pub enabled: bool,
    pub mode: Option<String>,
}

/// The location of a metric as one text.
pub open spec fn cli_location(
    location: Option<Seq<char>>,
    file: Option<Seq<char>>,
    line: Option<u32>,
) -> Seq<char> {
    match location {
        Some(l) => l,
        None => match file {
            Some(f) => match line {
                Some(n) => f + "#"@ + decimal(n as nat),
                None => f,
            },
            None => Seq::empty(),
        },
    }
}

/// What a printed metric is known as.
pub open spec fn printed_metric(m: CliMetricResponse) -> MetricInfoView {
    MetricInfoView {
        name: m.name@,
        location: cli_location(opt_view(m.location), opt_view(m.location_file), m.location_line),
        expression: m.expression@,
        expressions: seq![m.expression@],
        group: opt_view(m.group),
        enabled: m.enabled,
        mode: opt_view(m.mode),
    }
}

impl CliMetricResponse {
    /// The location as one text.
    pub fn get_location(&self) -> (r: String)
        ensures
            r@ == cli_location(
                opt_view(self.location),
                opt_view(self.location_file),
                self.location_line,
            ),
    {
        match &self.location {
            Some(l) => l.clone(),
            None => match &self.location_file {
                Some(f) => match self.location_line {
                    Some(n) => cat3(f.as_str(), "#", num(n as u64).as_str()),
                    None => f.clone(),
                },
                None => String::new(),
            },
        }
    }

    /// The metric.
    pub fn into_info(self) -> (r: MetricInfo)
        ensures
            r@ == printed_metric(self),
    {
        let location: String = self.get_location();
        let mut expressions: Vec<String> = Vec::new();
        expressions.push(self.expression.clone());
        assert(views(expressions@) =~= seq![self.expression@]);
        MetricInfo {
            name: self.name,
            location,
            expression: self.expression,
            expressions,
            group: self.group,
            enabled: self.enabled,
            mode: self.mode,
        }
    }
}

/// An event as the command line prints it.
#[derive(Debug)]
pub struct CliEventResponse {
    pub metric_name: String,
    pub value_json: Option<String>,
    /// Microseconds since 1970.
    pub timestamp: i64,
    pub timestamp_iso: String,
    pub age_seconds: i64,
    pub is_error: bool,
}

/// The time of an event as text: the one that was printed, or else that of its timestamp.
pub open spec fn cli_time(timestamp_iso: Seq<char>, timestamp: i64) -> Seq<char> {
    if timestamp_iso.len() > 0 {
        timestamp_iso
    } else if timestamp > 0 {
        match rfc3339((timestamp / 1_000_000) as i64, ((timestamp % 1_000_000) * 1000) as u32) {
            Some(t) => t,
            None => Seq::empty(),
        }
    } else {
        Seq::empty()
    }
}

/// An event is what a printed event is known as.
pub open spec fn printed_event_is(event: EventInfo, e: CliEventResponse) -> bool {
    &&& event.metric_name == e.metric_name
    &&& event.value@ == (match e.value_json {
        Some(v) => v@,
        None => Seq::empty(),
    })
    &&& event.values@.len() == 0
    &&& event.timestamp_iso@ == cli_time(e.timestamp_iso@, e.timestamp)
    &&& event.age_seconds == e.age_seconds
    &&& event.is_error == e.is_error
    &&& event.stack_trace is None
    &&& event.memory_snapshot is None
    &&& event.extra@.len() == 0
}

impl CliEventResponse {
    /// The value; empty where there is none.
    pub fn get_value(&self) -> (r: String)
        ensures
            r@ == (match self.value_json {
                Some(v) => v@,
                None => Seq::empty(),
            }),
    {
        match &self.value_json {
            Some(v) => v.clone(),
            None => String::new(),
        }
    }

    /// The time as text.
    pub fn get_timestamp_iso(&self) -> (r: String)
        ensures
            r@ == cli_time(self.timestamp_iso@, self.timestamp),
    {
        if !self.timestamp_iso.as_str().is_empty() {
            self.timestamp_iso.clone()
        } else if self.timestamp > 0 {
            let secs: i64 = self.timestamp / 1_000_000;
            let nanos: u32 = ((self.timestamp % 1_000_000) * 1000) as u32;
            match format_time(secs, nanos) {
                Some(t) => t,
                None => String::new(),
            }
        } else {
            String::new()
        }
    }

    /// The event.
    pub fn into_info(self) -> (r: EventInfo)
        ensures
            printed_event_is(r, self),
    {
        let value: String = self.get_value();
        let timestamp_iso: String = self.get_timestamp_iso();
        EventInfo {
            metric_name: self.metric_name,
            value,
            values: Vec::new(),
            timestamp_iso,
            age_seconds: self.age_seconds,
            is_error: self.is_error,
            stack_trace: None,
            memory_snapshot: None,
            extra: Vec::new(),
        }
    }
}

/// A validation result as the command line prints it: with a list of issues, or with a message.
#[derive(Debug)]
pub struct CliValidationResponse {
    pub valid: bool,
    pub message: Option<String>,
    pub issues: Vec<String>,
}

/// The issues of a validation result: those listed, or else the message where it says something against
/// the expression.
pub open spec fn cli_issues(valid: bool, message: Option<Seq<char>>, issues: Seq<Seq<char>>) -> Seq<
    Seq<char>,
> {
    if issues.len() > 0 {
        issues
    } else {
        match message {
            Some(m) => if !valid && m.len() > 0 {
                seq![m]
            } else {
                Seq::empty()
            },
            None => Seq::empty(),
        }
    }
}

/// What a printed validation is known as.
pub open spec fn printed_validation(v: CliValidationResponse) -> ValidationResultView {
    ValidationResultView {
        is_safe: v.valid,
        issues: cli_issues(v.valid, opt_view(v.message), views(v.issues@)),
    }
}

impl CliValidationResponse {
    /// The finding.
    pub fn to_validation_result(&self) -> (r: ValidationResult)
        ensures
            r@ == printed_validation(*self),
    {
        let mut issues: Vec<String> = Vec::new();
        if self.issues.len() > 0 {
            issues = clone_strings(&self.issues);
        } else {
            match &self.message {
                Some(m) => if !self.valid && !m.as_str().is_empty() {
                    issues.push(m.clone());
                },
                None => {},
            }
        }
        let r = ValidationResult { is_safe: self.valid, issues };
        assert(r@.issues =~= cli_issues(self.valid, opt_view(self.message), views(self.issues@)));
        r
    }
}

} // verus!
