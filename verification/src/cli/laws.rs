//! What the command lines of the CLI backend are, and what becomes of their output.

use vstd::prelude::*;

use crate::cli::calls::{
    cli_begun, on_cli_input, output_error, printed_reply_is, CliCallView, CliInput, CliNext,
    CliPhase, CliReply,
};
use crate::cli::{
    cli_issues, cli_location, cli_time, command_args, failure_text, full_args, is_empty_output, CliConnectionResponse, CliEventResponse,
    CliMetricResponse,
};
use crate::client::{AddMetricRequestView, ConnectionInfo, EventInfo, MetricInfoView};
use crate::exchange::{ActionView, Event};
use crate::text::{decimal, has_text, joined, opt_view, views};

verus! {

/// The command of the action has so many words, of which these are the first two.
pub open spec fn is_command(
    action: ActionView,
    file: Seq<char>,
    first: Seq<char>,
    second: Seq<char>,
    n: int,
) -> bool {
    match command_args(action, file) {
        Some(args) => args.len() == n && n >= 2 && args[0] == first && args[1] == second,
        None => false,
    }
}

/// The command of the action has the option with the value behind it.
pub open spec fn has_option(
    action: ActionView,
    file: Seq<char>,
    name: Seq<char>,
    value: Seq<char>,
) -> bool {
    let args = command_args(action, file)->0;
    exists|i: int|
        2 <= i && i + 1 < args.len() && #[trigger] args[i] == name && args[i + 1] == value
}

/// The command of the action has the flag.
pub open spec fn has_flag(action: ActionView, file: Seq<char>, name: Seq<char>) -> bool {
    let args = command_args(action, file)->0;
    exists|i: int| 2 <= i < args.len() && #[trigger] args[i] == name
}

/// Every command line begins with the choice of JSON as the format; the command follows unchanged.
pub proof fn law_commands_print_json(args: Seq<Seq<char>>)
    ensures
        full_args(args).len() == args.len() + 2,
        full_args(args)[0] == "--format"@,
        full_args(args)[1] == "json"@,
        forall|i: int| 0 <= i < args.len() ==> full_args(args)[i + 2] == #[trigger] args[i],
{
}

/// A connection is created with its host, its port, its language, and its program where there is
/// one; it is got and closed by its id; connections are listed.
pub proof fn law_connection_commands(
    file: Seq<char>,
    id: Seq<char>,
    host: Seq<char>,
    port: u16,
    language: Seq<char>,
    program: Option<Seq<char>>,
)
    ensures
        ({
            let create = ActionView::CreateConnection(host, port, language, program);
            &&& is_command(
                create,
                file,
                "connection"@,
                "create"@,
                if program is Some {
                    10
                } else {
                    8
                },
            )
            &&& has_option(create, file, "--host"@, host)
            &&& has_option(create, file, "--port"@, decimal(port as nat))
            &&& has_option(create, file, "--language"@, language)
            &&& program matches Some(p) ==> has_option(create, file, "--program"@, p)
        }),
        is_command(ActionView::CloseConnection(id), file, "connection"@, "close"@, 3),
        command_args(ActionView::CloseConnection(id), file)->0[2] == id,
        is_command(ActionView::GetConnection(id), file, "connection"@, "get"@, 3),
        command_args(ActionView::GetConnection(id), file)->0[2] == id,
        is_command(ActionView::ListConnections, file, "connection"@, "list"@, 2),
{
    let args = command_args(ActionView::CreateConnection(host, port, language, program), file)->0;
    assert(args[2] == "--host"@ && args[2int + 1] == host);
    assert(args[4] == "--port"@ && args[4int + 1] == decimal(port as nat));
    assert(args[6] == "--language"@ && args[6int + 1] == language);
    if let Some(p) = program {
        assert(args[8] == "--program"@ && args[8int + 1] == p);
    }
}

/// A metric is added with its name, its location, its expression and its connection, its group
/// where there is one, and the flags for what it captures where they are set.
pub proof fn law_add_metric_command(file: Seq<char>, r: AddMetricRequestView)
    ensures
        ({
            let add = ActionView::AddMetric(r);
            let stack = r.capture_stack_trace == Some(true);
            let memory = r.capture_memory_snapshot == Some(true);
            &&& is_command(
                add,
                file,
                "metric"@,
                "add"@,
                9 + (if r.group is Some {
                    2int
                } else {
                    0
                }) + (if stack {
                    1int
                } else {
                    0
                }) + (if memory {
                    1int
                } else {
                    0
                }),
            )
            &&& command_args(add, file)->0[2] == r.name
            &&& has_option(add, file, "--location"@, r.location)
            &&& has_option(add, file, "--expression"@, r.expression)
            &&& has_option(add, file, "--connection"@, r.connection_id)
            &&& r.group matches Some(g) ==> has_option(add, file, "--group"@, g)
            &&& stack ==> has_flag(add, file, "--capture-stack-trace"@)
            &&& memory ==> has_flag(add, file, "--capture-memory-snapshot"@)
        }),
{
    let args = command_args(ActionView::AddMetric(r), file)->0;
    assert(args[3] == "--location"@ && args[3int + 1] == r.location);
    assert(args[5] == "--expression"@ && args[5int + 1] == r.expression);
    assert(args[7] == "--connection"@ && args[7int + 1] == r.connection_id);
    let g = if r.group is Some {
        2int
    } else {
        0
    };
    if r.group is Some {
        assert(args[9] == "--group"@ && args[9int + 1] == r.group->0);
    }
    if r.capture_stack_trace == Some(true) {
        assert(args[9int + g] == "--capture-stack-trace"@);
    }
    if r.capture_memory_snapshot == Some(true) {
        assert(args[args.len() - 1] == "--capture-memory-snapshot"@);
    }
}

/// A metric is removed, got, enabled and disabled by its name, each by a command of its own; its
/// events are queried with the limit; metrics are listed.
pub proof fn law_metric_commands(file: Seq<char>, name: Seq<char>, limit: u32)
    ensures
        is_command(ActionView::RemoveMetric(name), file, "metric"@, "remove"@, 3),
        command_args(ActionView::RemoveMetric(name), file)->0[2] == name,
        is_command(ActionView::GetMetric(name), file, "metric"@, "get"@, 3),
        command_args(ActionView::GetMetric(name), file)->0[2] == name,
        is_command(ActionView::ToggleMetric(name, true), file, "metric"@, "enable"@, 3),
        command_args(ActionView::ToggleMetric(name, true), file)->0[2] == name,
        is_command(ActionView::ToggleMetric(name, false), file, "metric"@, "disable"@, 3),
        command_args(ActionView::ToggleMetric(name, false), file)->0[2] == name,
        is_command(ActionView::ListMetrics, file, "metric"@, "list"@, 2),
        is_command(ActionView::QueryEvents(name, limit), file, "event"@, "query"@, 6),
        has_option(ActionView::QueryEvents(name, limit), file, "--metric"@, name),
        has_option(ActionView::QueryEvents(name, limit), file, "--limit"@, decimal(limit as nat)),
{
    let args = command_args(ActionView::QueryEvents(name, limit), file)->0;
    assert(args[2] == "--metric"@ && args[2int + 1] == name);
    assert(args[4] == "--limit"@ && args[4int + 1] == decimal(limit as nat));
}

/// A group is enabled and disabled by its name, each by a command of its own; groups are listed.
pub proof fn law_group_commands(file: Seq<char>, group: Seq<char>)
    ensures
        is_command(ActionView::EnableGroup(group), file, "group"@, "enable"@, 3),
        command_args(ActionView::EnableGroup(group), file)->0[2] == group,
        is_command(ActionView::DisableGroup(group), file, "group"@, "disable"@, 3),
        command_args(ActionView::DisableGroup(group), file)->0[2] == group,
        is_command(ActionView::ListGroups, file, "group"@, "list"@, 2),
{
}

/// An expression is validated for its language; a file is inspected with the line and the variable
/// where they are given.
pub proof fn law_inspection_commands(
    file: Seq<char>,
    text: Seq<char>,
    language: Seq<char>,
    line: Option<u32>,
    variable: Option<Seq<char>>,
)
    ensures
        is_command(ActionView::ValidateExpression(text, language), file, "validate"@, text, 4),
        has_option(
            ActionView::ValidateExpression(text, language),
            file,
            "--language"@,
            language,
        ),
        ({
            let inspect = ActionView::InspectFile(text, line, variable);
            &&& is_command(
                inspect,
                file,
                "inspect"@,
                text,
                2 + (if line is Some {
                    2int
                } else {
                    0
                }) + (if variable is Some {
                    2int
                } else {
                    0
                }),
            )
            &&& line matches Some(l) ==> has_option(inspect, file, "--line"@, decimal(l as nat))
            &&& variable matches Some(v) ==> has_option(inspect, file, "--find-variable"@, v)
        }),
{
    let v = command_args(ActionView::ValidateExpression(text, language), file)->0;
    assert(v[2] == "--language"@ && v[2int + 1] == language);
    let args = command_args(ActionView::InspectFile(text, line, variable), file)->0;
    if let Some(l) = line {
        assert(args[2] == "--line"@ && args[2int + 1] == decimal(l as nat));
    }
    if let Some(x) = variable {
        let i = if line is Some {
            4int
        } else {
            2
        };
        assert(args[i] == "--find-variable"@ && args[i + 1] == x);
    }
}

/// The configuration is got and reloaded; it is updated and validated from the file that it was put
/// in, and kept exactly where that is asked for.
pub proof fn law_config_commands(file: Seq<char>, toml: Seq<char>, persist: bool)
    ensures
        is_command(ActionView::GetConfig, file, "config"@, "get"@, 2),
        is_command(ActionView::ReloadConfig, file, "config"@, "reload"@, 2),
        is_command(ActionView::ValidateConfig(toml), file, "config"@, "validate"@, 4),
        has_option(ActionView::ValidateConfig(toml), file, "--file"@, file),
        is_command(
            ActionView::UpdateConfig(toml, persist),
            file,
            "config"@,
            "update"@,
            if persist {
                5
            } else {
                4
            },
        ),
        has_option(ActionView::UpdateConfig(toml, persist), file, "--file"@, file),
        persist ==> has_flag(ActionView::UpdateConfig(toml, persist), file, "--persist"@),
{
    let v = command_args(ActionView::ValidateConfig(toml), file)->0;
    assert(v[2] == "--file"@ && v[2int + 1] == file);
    let u = command_args(ActionView::UpdateConfig(toml, persist), file)->0;
    assert(u[2] == "--file"@ && u[2int + 1] == file);
    if persist {
        assert(u[4] == "--persist"@);
    }
}

/// System events are queried with the limit, a flag that leaves acknowledged ones out, and the
/// types where some are given.
pub proof fn law_system_event_command(
    file: Seq<char>,
    limit: u32,
    unacknowledged: bool,
    types: Option<Seq<Seq<char>>>,
)
    ensures
        ({
            let query = ActionView::QuerySystemEvents(limit, unacknowledged, types);
            let given = types is Some && types->0.len() > 0;
            &&& is_command(
                query,
                file,
                "system-event"@,
                "query"@,
                4 + (if unacknowledged {
                    1int
                } else {
                    0
                }) + (if given {
                    2int
                } else {
                    0
                }),
            )
            &&& has_option(query, file, "--limit"@, decimal(limit as nat))
            &&& unacknowledged ==> has_flag(query, file, "--unacked"@)
            &&& given ==> has_option(query, file, "--event-type"@, joined(types->0, ","@))
        }),
{
    let args = command_args(ActionView::QuerySystemEvents(limit, unacknowledged, types), file)->0;
    assert(args[2] == "--limit"@ && args[2int + 1] == decimal(limit as nat));
    let i = if unacknowledged {
        5int
    } else {
        4
    };
    if unacknowledged {
        assert(args[4] == "--unacked"@);
    }
    if types is Some && types->0.len() > 0 {
        assert(args[i] == "--event-type"@ && args[i + 1] == joined(types->0, ","@));
    }
}

/// Health and status are the same command; waking, putting to sleep and usage are commands of one
/// word.
pub proof fn law_daemon_commands(file: Seq<char>)
    ensures
        command_args(ActionView::Health, file) matches Some(a) && a.len() == 1 && a[0]
            == "status"@,
        command_args(ActionView::GetStatus, file) matches Some(a) && a.len() == 1 && a[0]
            == "status"@,
        command_args(ActionView::Wake, file) matches Some(a) && a.len() == 1 && a[0] == "wake"@,
        command_args(ActionView::Sleep, file) matches Some(a) && a.len() == 1 && a[0] == "sleep"@,
        command_args(ActionView::GetMcpUsage, file) matches Some(a) && a.len() == 1 && a[0]
            == "usage"@,
{
}

/// A configuration is written to a file before its command runs, and the command names that file;
/// whatever the command says, the file is removed behind it, and it is found valid exactly where
/// the output says `valid` or `OK`.
pub proof fn law_configs_go_through_a_file(
    action: ActionView,
    toml: Seq<char>,
    s: CliCallView,
    input: CliInput,
)
    requires
        action == ActionView::ValidateConfig(toml) || (action matches ActionView::UpdateConfig(
            t,
            _,
        ) && t == toml),
        s.action == action,
    ensures
        cli_begun(action).next matches CliNext::Write(_, text) && text == toml,
        cli_begun(action).state.phase is Writing,
        input matches CliInput::Written { outcome: Ok(path) } ==> on_cli_input(s, input).next
            matches CliNext::Run(args) && args == full_args(command_args(action, path@)->0)
            && on_cli_input(s, input).state.file == path@,
        input matches CliInput::Ran { outcome: Ok(out), .. } ==> (out.success ==> {
            let turn = on_cli_input(s, input);
            &&& turn.next == CliNext::Remove(s.file)
            &&& turn.state.phase matches CliPhase::Removing { valid } && (valid <==> has_text(
                out.stdout@,
                "valid"@,
            ) || has_text(out.stdout@, "OK"@))
        }),
{
}

/// A metric that is to be disabled is added first and then disabled by its name; any other metric
/// is only added.
pub proof fn law_metrics_are_disabled_behind_adding(
    s: CliCallView,
    r: AddMetricRequestView,
    input: CliInput,
)
    requires
        s.action == ActionView::AddMetric(r),
        s.phase is Running,
        input matches CliInput::Ran { outcome: Ok(out), .. } && out.success,
    ensures
        ({
            let turn = on_cli_input(s, input);
            if r.enabled == Some(false) {
                turn.next matches CliNext::Run(args) && args.len() == 5 && args[2] == "metric"@
                    && args[3] == "disable"@ && args[4] == r.name
            } else {
                !(turn.next is Run)
            }
        }),
{
}

/// A command that fails, or cannot be run, is an error of the call, except that a health check then
/// says that the daemon is not healthy.
pub proof fn law_failed_commands_are_errors(s: CliCallView, input: CliInput)
    requires
        input matches CliInput::Ran { outcome, .. } && (outcome matches Ok(out) ==> !out.success),
    ensures
        if s.action is Health {
            on_cli_input(s, input).next is Unhealthy
        } else {
            on_cli_input(s, input).next is Fail
        },
{
}

/// What is printed is what the answer says, item by item and in order: connections, metrics with
/// their place, events with their value, and the finding on an expression.
pub proof fn law_printed_replies(reply: CliReply, event: Event)
    requires
        printed_reply_is(reply, event),
    ensures
        match reply {
            CliReply::Status { status } => event matches Event::Status(Ok(r)) && r.data == status,
            CliReply::Connection { connection } => event matches Event::Connection(Ok(r))
                && shows_connection(r.data, connection),
            CliReply::Connections { connections } => event matches Event::Connections(Ok(r))
                && r.data@.len() == connections@.len() && forall|i: int|
                0 <= i < connections@.len() ==> shows_connection(
                    #[trigger] r.data@[i],
                    connections@[i],
                ),
            CliReply::Metric { metric } => event matches Event::Metric(Ok(r)) && shows_metric(
                r.data@,
                metric,
            ),
            CliReply::Metrics { metrics } => event matches Event::Metrics(Ok(r)) && r.data@.len()
                == metrics@.len() && forall|i: int|
                0 <= i < metrics@.len() ==> shows_metric((#[trigger] r.data@[i])@, metrics@[i]),
            CliReply::Events { events } => event matches Event::Events(Ok(r)) && r.data@.len()
                == events@.len() && forall|i: int|
                0 <= i < events@.len() ==> shows_event(#[trigger] r.data@[i], events@[i]),
            CliReply::Groups { groups } => event matches Event::Groups(Ok(r)) && r.data == groups,
            CliReply::Validation { validation } => event matches Event::Validation(Ok(r)) && (
            r.data.is_safe <==> validation.valid) && (validation.issues@.len() > 0 ==> views(
                r.data.issues@,
            ) == views(validation.issues@)),
            CliReply::SystemEvents { events } => event matches Event::SystemEvents(Ok(r)) && r.data
                == events,
            CliReply::Usage { usage } => event matches Event::Usage(Ok(r)) && r.data == usage,
            CliReply::Plain => false,
        },
{
}

/// What is shown of a connection.
pub open spec fn shows_connection(shown: ConnectionInfo, c: CliConnectionResponse) -> bool {
    &&& shown.connection_id == c.connection_id
    &&& shown.host == c.host
    &&& c.port <= u16::MAX ==> shown.port == c.port
    &&& shown.language == c.language
    &&& shown.status == c.status
    &&& shown.safe_mode == c.safe_mode
}

/// What is shown of a metric: its place as it is printed, or made of file and line.
pub open spec fn shows_metric(shown: MetricInfoView, m: CliMetricResponse) -> bool {
    &&& shown.name == m.name@
    &&& shown.expression == m.expression@
    &&& shown.group == opt_view(m.group)
    &&& shown.enabled == m.enabled
    &&& shown.mode == opt_view(m.mode)
    &&& m.location is Some ==> shown.location == m.location->0@
    &&& m.location is None && m.location_file is Some && m.location_line is Some ==> shown.location
        == m.location_file->0@ + "#"@ + decimal(m.location_line->0 as nat)
    &&& m.location is None && m.location_file is Some && m.location_line is None ==> shown.location
        == m.location_file->0@
    &&& m.location is None && m.location_file is None ==> shown.location.len() == 0
}

/// What is shown of an event.
pub open spec fn shows_event(shown: EventInfo, e: CliEventResponse) -> bool {
    &&& shown.metric_name == e.metric_name
    &&& e.value_json is Some ==> shown.value@ == e.value_json->0@
    &&& e.value_json is None ==> shown.value@.len() == 0
    &&& shown.is_error == e.is_error
    &&& shown.age_seconds == e.age_seconds
    &&& e.timestamp_iso@.len() > 0 ==> shown.timestamp_iso@ == e.timestamp_iso@
}

/// What cannot be read is an error exactly where something is to be read: not where the output is
/// handed on as it is, and not where a list is printed as nothing.
pub proof fn law_unreadable_output(
    action: ActionView,
    stdout: Seq<char>,
    parsed: Result<CliReply, String>,
)
    requires
        parsed is Err,
    ensures
        ({
            let lists = action is ListConnections || action is ListMetrics || action is QueryEvents
                || action is ListGroups || action is QuerySystemEvents;
            let reads = lists || action is GetStatus || action is CreateConnection
                || action is GetConnection || action is GetMetric || action is ValidateExpression
                || action is GetMcpUsage;
            output_error(action, stdout, parsed) is Some <==> reads && !(lists && is_empty_output(
                stdout,
            ))
        }),
{
}

/// A command that failed says what it printed as an error, else what it printed, else how it ended.
pub proof fn law_failure_texts(code: Option<i32>, stdout: Seq<char>, stderr: Seq<char>)
    ensures
        stderr.len() > 0 ==> failure_text(code, stdout, stderr) == stderr,
        stderr.len() == 0 && stdout.len() > 0 ==> failure_text(code, stdout, stderr) == stdout,
        failure_text(code, stdout, stderr).len() > 0,
{
    reveal_strlit("Command failed with exit code: ");
}

/// The location of a metric is the one that is printed; else it is made of the file and the line.
pub proof fn law_printed_locations(
    location: Option<Seq<char>>,
    file: Option<Seq<char>>,
    line: Option<u32>,
)
    ensures
        location matches Some(l) ==> cli_location(location, file, line) == l,
        location is None ==> (file matches Some(f) ==> (line matches Some(n) ==> cli_location(
            location,
            file,
            line,
        ) == f + "#"@ + decimal(n as nat))),
        location is None && line is None ==> (file matches Some(f) ==> cli_location(
            location,
            file,
            line,
        ) == f),
        location is None && file is None ==> cli_location(location, file, line).len() == 0,
{
}

/// An event keeps the time that is printed; without one, there is none where its number is not
/// positive.
pub proof fn law_printed_times(timestamp_iso: Seq<char>, timestamp: i64)
    ensures
        timestamp_iso.len() > 0 ==> cli_time(timestamp_iso, timestamp) == timestamp_iso,
        timestamp_iso.len() == 0 && timestamp <= 0 ==> cli_time(timestamp_iso, timestamp).len()
            == 0,
{
}

/// The issues of a validation are those that are printed; without any, a message of one that
/// failed is its only issue.
pub proof fn law_printed_issues(valid: bool, message: Option<Seq<char>>, issues: Seq<Seq<char>>)
    ensures
        issues.len() > 0 ==> cli_issues(valid, message, issues) == issues,
        issues.len() == 0 && valid ==> cli_issues(valid, message, issues).len() == 0,
        issues.len() == 0 && !valid ==> (message matches Some(m) ==> (m.len() > 0 ==> cli_issues(
            valid,
            message,
            issues,
        ) == seq![m])),
        issues.len() == 0 && message is None ==> cli_issues(valid, message, issues).len() == 0,
{
}

} // verus!
