//! What the requests of the REST backend are: where they go, and what their bodies say.

use vstd::prelude::*;

use crate::client::{
    plain_error, AddMetricRequestView, ApiErrorView, ConnectionInfoView, EventInfo,
    MetricInfoView,
};
use crate::exchange::{ActionView, Event};
use crate::grpc::{located, EventRecord, EventResult, MetricMessage};
use crate::json::{
    holds_flag, holds_number, holds_text, lemma_field_absent, lemma_field_at,
    lemma_field_with_entry, number_view, JsonView,
};
use crate::mcp::laws::whole_u64;
use crate::rest::calls::{
    answer_error, numbered_request, on_response, reply_is, rest_begun, says_healthy,
    since_answer_error, RestAnswer, RestCallView, RestInput, RestNext, RestReply,
};
use crate::rest::{
    body_of, connection_status, create_metric_json, location_format_error, location_json,
    message_index, request_of, slice_json, ConnectionMessage, CreateMetricRequest, HttpMethod, HttpRequestView,
};
use crate::text::{decimal, opt_view, outline, signed_decimal};

verus! {

broadcast use lemma_field_with_entry;

/// The action is sent as one request without a body.
pub open spec fn goes_to(base: Seq<char>, action: ActionView, method: HttpMethod, url: Seq<char>) -> bool {
    match request_of(base, action) {
        Some(q) => q.method == method && q.url == url && q.body is None,
        None => false,
    }
}

/// The action is sent as one request with an object as its body.
pub open spec fn carries(base: Seq<char>, action: ActionView, method: HttpMethod, url: Seq<char>) -> bool {
    match request_of(base, action) {
        Some(q) => q.method == method && q.url == url && q.body is Some && q.body->0 is Object,
        None => false,
    }
}

/// A group is enabled by a POST to its address followed by `/enable` and disabled by one to its
/// address followed by `/disable`; neither request is ever the other, whatever the groups, and
/// the requests for two groups differ. The groups are listed by a GET.
pub proof fn law_group_requests(base: Seq<char>, group: Seq<char>, other: Seq<char>)
    ensures
        goes_to(
            base,
            ActionView::EnableGroup(group),
            HttpMethod::Post,
            base + "/api/v1/groups/"@ + group + "/enable"@,
        ),
        goes_to(
            base,
            ActionView::DisableGroup(group),
            HttpMethod::Post,
            base + "/api/v1/groups/"@ + group + "/disable"@,
        ),
        goes_to(base, ActionView::ListGroups, HttpMethod::Get, base + "/api/v1/groups"@),
        request_of(base, ActionView::EnableGroup(group)) != request_of(
            base,
            ActionView::DisableGroup(other),
        ),
        request_of(base, ActionView::EnableGroup(group)) == request_of(
            base,
            ActionView::EnableGroup(other),
        ) ==> group == other,
        request_of(base, ActionView::DisableGroup(group)) == request_of(
            base,
            ActionView::DisableGroup(other),
        ) ==> group == other,
{
    reveal_strlit("/enable");
    reveal_strlit("/disable");
    let front = base + "/api/v1/groups/"@;
    let on = front + group + "/enable"@;
    let off = front + other + "/disable"@;
    assert(on[on.len() - 7] == '/');
    assert(off[off.len() - 7] == 'd');
    lemma_between(front, group, other, "/enable"@);
    lemma_between(front, group, other, "/disable"@);
}

proof fn lemma_between(front: Seq<char>, a: Seq<char>, b: Seq<char>, back: Seq<char>)
    ensures
        front + a + back == front + b + back ==> a == b,
{
    if front + a + back == front + b + back {
        let l = front + a + back;
        let r = front + b + back;
        assert(l.len() == r.len());
        assert(a.len() == b.len());
        assert forall|i: int| 0 <= i < a.len() implies a[i] == b[i] by {
            assert(l[front.len() + i] == a[i]);
            assert(r[front.len() + i] == b[i]);
        }
        assert(a =~= b);
    }
}

/// What tells the names apart.
proof fn lemma_names()
    ensures
        outline("host"@) == (4nat, 'h', 't', 's', 't'),
        outline("port"@) == (4nat, 'p', 't', 'r', 't'),
        outline("language"@) == (8nat, 'l', 'e', 'u', 'g'),
        outline("safeMode"@) == (8nat, 's', 'e', 'M', 'd'),
        outline("program"@) == (7nat, 'p', 'm', 'g', 'a'),
        outline("expression"@) == (10nat, 'e', 'n', 's', 'i'),
        outline("safetyLevel"@) == (11nat, 's', 'l', 'y', 'v'),
        outline("filePath"@) == (8nat, 'f', 'h', 'P', 't'),
        outline("line"@) == (4nat, 'l', 'e', 'n', 'e'),
        outline("findVariable"@) == (12nat, 'f', 'e', 'r', 'b'),
        outline("configToml"@) == (10nat, 'c', 'l', 'g', 'o'),
        outline("merge"@) == (5nat, 'm', 'e', 'r', 'g'),
        outline("persist"@) == (7nat, 'p', 't', 's', 's'),
        outline("name"@) == (4nat, 'n', 'e', 'm', 'e'),
        outline("connectionId"@) == (12nat, 'c', 'd', 't', 'n'),
        outline("location"@) == (8nat, 'l', 'n', 't', 'o'),
        outline("enabled"@) == (7nat, 'e', 'd', 'b', 'e'),
        outline("mode"@) == (4nat, 'm', 'e', 'd', 'e'),
        outline("replace"@) == (7nat, 'r', 'e', 'l', 'c'),
        outline("captureStackTrace"@) == (17nat, 'c', 'e', 't', 'T'),
        outline("captureMemorySnapshot"@) == (21nat, 'c', 't', 'o', 'a'),
        outline("group"@) == (5nat, 'g', 'p', 'o', 'u'),
        outline("sampleRate"@) == (10nat, 's', 'e', 'e', 'a'),
        outline("sampleIntervalSeconds"@) == (21nat, 's', 's', 'r', 'e'),
        outline("maxPerSecond"@) == (12nat, 'm', 'd', 'S', 'o'),
        outline("stackTraceTtl"@) == (13nat, 's', 'l', 'r', 'e'),
        outline("stackTraceSlice"@) == (15nat, 's', 'e', 'a', 'l'),
        outline("snapshotScope"@) == (13nat, 's', 'e', 'o', 'c'),
        outline("snapshotTtl"@) == (11nat, 's', 'l', 'h', 'T'),
        outline("file"@) == (4nat, 'f', 'e', 'l', 'e'),
        outline("full"@) == (4nat, 'f', 'l', 'l', 'l'),
        outline("unspecified"@) == (11nat, 'u', 'd', 'c', 'i'),
        outline("disconnected"@) == (12nat, 'd', 'd', 'n', 't'),
        outline("connecting"@) == (10nat, 'c', 'g', 'c', 'i'),
        outline("connected"@) == (9nat, 'c', 'd', 'e', 't'),
        outline("failed"@) == (6nat, 'f', 'd', 'l', 'e'),
{
    reveal_strlit("host");
    reveal_strlit("port");
    reveal_strlit("language");
    reveal_strlit("safeMode");
    reveal_strlit("program");
    reveal_strlit("expression");
    reveal_strlit("safetyLevel");
    reveal_strlit("filePath");
    reveal_strlit("line");
    reveal_strlit("findVariable");
    reveal_strlit("configToml");
    reveal_strlit("merge");
    reveal_strlit("persist");
    reveal_strlit("name");
    reveal_strlit("connectionId");
    reveal_strlit("location");
    reveal_strlit("enabled");
    reveal_strlit("mode");
    reveal_strlit("replace");
    reveal_strlit("captureStackTrace");
    reveal_strlit("captureMemorySnapshot");
    reveal_strlit("group");
    reveal_strlit("sampleRate");
    reveal_strlit("sampleIntervalSeconds");
    reveal_strlit("maxPerSecond");
    reveal_strlit("stackTraceTtl");
    reveal_strlit("stackTraceSlice");
    reveal_strlit("snapshotScope");
    reveal_strlit("snapshotTtl");
    reveal_strlit("file");
    reveal_strlit("full");
    reveal_strlit("unspecified");
    reveal_strlit("disconnected");
    reveal_strlit("connecting");
    reveal_strlit("connected");
    reveal_strlit("failed");
}

/// A connection is created by a POST whose body holds the host, the port, the language, the
/// program where there is one, and that safe mode is off. It is got by a GET and closed by a
/// DELETE, both to the address of its id; connections are listed by a GET.
pub proof fn law_connection_requests(
    base: Seq<char>,
    id: Seq<char>,
    host: Seq<char>,
    port: u16,
    language: Seq<char>,
    program: Option<Seq<char>>,
)
    ensures
        carries(
            base,
            ActionView::CreateConnection(host, port, language, program),
            HttpMethod::Post,
            base + "/api/v1/connections"@,
        ),
        ({
            let body = request_of(
                base,
                ActionView::CreateConnection(host, port, language, program),
            )->0.body->0;
            &&& holds_text(body, "host"@, Some(host))
            &&& holds_number(body, "port"@, Some(port as int))
            &&& holds_text(body, "language"@, Some(language))
            &&& holds_text(body, "program"@, program)
            &&& holds_flag(body, "safeMode"@, Some(false))
        }),
        goes_to(
            base,
            ActionView::CloseConnection(id),
            HttpMethod::Delete,
            base + "/api/v1/connections/"@ + id,
        ),
        goes_to(
            base,
            ActionView::GetConnection(id),
            HttpMethod::Get,
            base + "/api/v1/connections/"@ + id,
        ),
        goes_to(base, ActionView::ListConnections, HttpMethod::Get, base + "/api/v1/connections"@),
{
    lemma_names();
    let e = seq![
        ("host"@, JsonView::Str(host)),
        ("port"@, number_view(port as int)),
        ("language"@, JsonView::Str(language)),
        ("safeMode"@, JsonView::Bool(false)),
    ];
    lemma_field_at(e, "host"@, 0);
    lemma_field_at(e, "port"@, 1);
    lemma_field_at(e, "language"@, 2);
    lemma_field_at(e, "safeMode"@, 3);
    lemma_field_absent(e, "program"@);
}

/// Metrics are listed by a GET; the events of a metric are queried by a GET that names the metric
/// and the limit.
pub proof fn law_metric_requests(base: Seq<char>, name: Seq<char>, limit: u32)
    ensures
        goes_to(base, ActionView::ListMetrics, HttpMethod::Get, base + "/api/v1/metrics"@),
        goes_to(
            base,
            ActionView::QueryEvents(name, limit),
            HttpMethod::Get,
            base + "/api/v1/events?metric_name="@ + name + "&limit="@ + decimal(limit as nat),
        ),
{
}

/// An expression is validated strictly, for its language; a file is inspected with the line and
/// the variable where they are given.
pub proof fn law_inspection_requests(
    base: Seq<char>,
    text: Seq<char>,
    language: Seq<char>,
    line: Option<u32>,
    variable: Option<Seq<char>>,
)
    ensures
        carries(
            base,
            ActionView::ValidateExpression(text, language),
            HttpMethod::Post,
            base + "/api/v1/validate_expression"@,
        ),
        ({
            let body = request_of(base, ActionView::ValidateExpression(text, language))->0.body->0;
            &&& holds_text(body, "expression"@, Some(text))
            &&& holds_text(body, "language"@, Some(language))
            &&& holds_text(body, "safetyLevel"@, Some("strict"@))
        }),
        carries(
            base,
            ActionView::InspectFile(text, line, variable),
            HttpMethod::Post,
            base + "/api/v1/inspect_file"@,
        ),
        ({
            let body = request_of(base, ActionView::InspectFile(text, line, variable))->0.body->0;
            &&& holds_text(body, "filePath"@, Some(text))
            &&& line matches Some(n) ==> holds_number(body, "line"@, Some(n as int))
            &&& line is None ==> holds_number(body, "line"@, None)
            &&& holds_text(body, "findVariable"@, variable)
        }),
{
    lemma_names();
    let checked = request_of(base, ActionView::ValidateExpression(text, language))->0.body->0;
    lemma_field_at(checked->Object_0, "expression"@, 0);
    lemma_field_at(checked->Object_0, "language"@, 1);
    lemma_field_at(checked->Object_0, "safetyLevel"@, 2);
    let e = seq![("filePath"@, JsonView::Str(text))];
    lemma_field_at(e, "filePath"@, 0);
    lemma_field_absent(e, "line"@);
    lemma_field_absent(e, "findVariable"@);
}

/// The configuration is got by a GET; it is replaced by a PUT, never merged, and kept exactly
/// where that is asked for; it is validated and reloaded by POSTs of their own, and reloading
/// sends an empty object.
pub proof fn law_config_requests(base: Seq<char>, toml: Seq<char>, persist: bool)
    ensures
        goes_to(base, ActionView::GetConfig, HttpMethod::Get, base + "/api/v1/config"@),
        carries(
            base,
            ActionView::UpdateConfig(toml, persist),
            HttpMethod::Put,
            base + "/api/v1/config"@,
        ),
        ({
            let body = request_of(base, ActionView::UpdateConfig(toml, persist))->0.body->0;
            &&& holds_text(body, "configToml"@, Some(toml))
            &&& holds_flag(body, "merge"@, Some(false))
            &&& holds_flag(body, "persist"@, Some(persist))
        }),
        carries(
            base,
            ActionView::ValidateConfig(toml),
            HttpMethod::Post,
            base + "/api/v1/config/validate"@,
        ),
        holds_text(
            request_of(base, ActionView::ValidateConfig(toml))->0.body->0,
            "configToml"@,
            Some(toml),
        ),
        carries(
            base,
            ActionView::ReloadConfig,
            HttpMethod::Post,
            base + "/api/v1/config/reload"@,
        ),
        request_of(base, ActionView::ReloadConfig)->0.body->0->Object_0.len() == 0,
{
    lemma_names();
    let body = request_of(base, ActionView::UpdateConfig(toml, persist))->0.body->0;
    lemma_field_at(body->Object_0, "configToml"@, 0);
    lemma_field_at(body->Object_0, "merge"@, 1);
    lemma_field_at(body->Object_0, "persist"@, 2);
    let checked = request_of(base, ActionView::ValidateConfig(toml))->0.body->0;
    lemma_field_at(checked->Object_0, "configToml"@, 0);
}

/// Health, status and usage are read by GETs; the daemon is woken and put to sleep by POSTs, each
/// to an address of its own.
pub proof fn law_daemon_requests(base: Seq<char>)
    ensures
        goes_to(base, ActionView::Health, HttpMethod::Get, base + "/health"@),
        goes_to(base, ActionView::GetStatus, HttpMethod::Get, base + "/api/v1/status"@),
        goes_to(base, ActionView::GetMcpUsage, HttpMethod::Get, base + "/api/v1/mcp/usage"@),
        goes_to(base, ActionView::Wake, HttpMethod::Post, base + "/api/v1/wake"@),
        goes_to(base, ActionView::Sleep, HttpMethod::Post, base + "/api/v1/sleep"@),
{
}

/// A metric is removed by a DELETE to the address of its number, and enabled and disabled by POSTs
/// to two addresses behind that; the requests of enabling and disabling differ.
pub proof fn law_numbered_requests(base: Seq<char>, name: Seq<char>, id: u64)
    ensures
        numbered_request(base, ActionView::RemoveMetric(name), id) == (HttpRequestView {
            method: HttpMethod::Delete,
            url: base + "/api/v1/metrics/"@ + decimal(id as nat),
            body: None,
        }),
        numbered_request(base, ActionView::ToggleMetric(name, true), id) == (HttpRequestView {
            method: HttpMethod::Post,
            url: base + "/api/v1/metrics/"@ + decimal(id as nat) + "/"@ + "enable"@,
            body: None,
        }),
        numbered_request(base, ActionView::ToggleMetric(name, false), id) == (HttpRequestView {
            method: HttpMethod::Post,
            url: base + "/api/v1/metrics/"@ + decimal(id as nat) + "/"@ + "disable"@,
            body: None,
        }),
        numbered_request(base, ActionView::ToggleMetric(name, true), id) != numbered_request(
            base,
            ActionView::ToggleMetric(name, false),
            id,
        ),
{
    reveal_strlit("enable");
    reveal_strlit("disable");
    let front = base + "/api/v1/metrics/"@ + decimal(id as nat) + "/"@;
    assert((front + "enable"@).len() != (front + "disable"@).len());
}

/// The metric that is removed or toggled is the first one of the list with its name; where no
/// metric has the name, the call fails and says which name it was.
pub proof fn law_metric_is_found_by_name(
    s: RestCallView,
    answer: RestAnswer,
    metrics: Vec<MetricMessage>,
    name: Seq<char>,
)
    requires
        s.action == ActionView::RemoveMetric(name) || s.action == ActionView::ToggleMetric(
            name,
            true,
        ) || s.action == ActionView::ToggleMetric(name, false),
        s.phase is Finding,
        answer.body is Ok,
        answer.parsed == Ok::<RestReply, String>(RestReply::Metrics { metrics }),
    ensures
        ({
            let next = on_response(s, RestInput::Answered { answer }).next;
            let here = |k: int|
                0 <= k < metrics@.len() && metrics@[k].name@ == name && forall|j: int|
                    0 <= j < k ==> (#[trigger] metrics@[j]).name@ != name;
            &&& forall|k: int|
                #[trigger] here(k) ==> next == RestNext::Send(
                    numbered_request(s.base_url, s.action, metrics@[k].metric_id),
                )
            &&& (forall|k: int| 0 <= k < metrics@.len() ==> (#[trigger] metrics@[k]).name@ != name)
                ==> next == RestNext::Fail(plain_error("Metric '"@ + name + "' not found"@))
        }),
{
    lemma_message_index(metrics@, name);
    let m = message_index(metrics@, name) as int;
    assert forall|k: int|
        0 <= k < metrics@.len() && (#[trigger] metrics@[k]).name@ == name && (forall|j: int|
            0 <= j < k ==> (#[trigger] metrics@[j]).name@ != name) implies k == m by {
        if m < k {
            assert(metrics@[m].name@ != name);
        }
        if k < m {
            assert(metrics@[k].name@ != name);
        }
    }
}

proof fn lemma_message_index(list: Seq<MetricMessage>, name: Seq<char>)
    ensures
        message_index(list, name) <= list.len(),
        message_index(list, name) < list.len() ==> list[message_index(list, name) as int].name@
            == name,
        forall|j: int| 0 <= j < message_index(list, name) ==> (#[trigger] list[j]).name@ != name,
    decreases list.len(),
{
    if list.len() > 0 && list[0].name@ != name {
        let t = list.drop_first();
        lemma_message_index(t, name);
        assert forall|j: int| 0 <= j < message_index(list, name) implies (#[trigger] list[j]).name@
            != name by {
            if j > 0 {
                assert(list[j] == t[j - 1]);
            }
        }
    }
}

/// The body that adds a metric holds what the request says, under names in camel case: strictly
/// checked and never replacing a metric; in Python, streaming and enabled unless the request says
/// otherwise. Head and tail of a trace go together; the whole trace is asked for where the request
/// wants it, or wants any trace.
#[verifier::rlimit(60)]
pub proof fn law_created_metric_body(b: CreateMetricRequest, r: AddMetricRequestView)
    requires
        body_of(b, r),
    ensures
        ({
            let body = create_metric_json(b);
            &&& holds_text(body, "name"@, Some(r.name))
            &&& holds_text(body, "connectionId"@, Some(r.connection_id))
            &&& holds_text(body, "expression"@, Some(r.expression))
            &&& holds_text(
                body,
                "language"@,
                if r.language is Some {
                    r.language
                } else {
                    Some("python"@)
                },
            )
            &&& holds_flag(body, "enabled"@, Some(r.enabled != Some(false)))
            &&& holds_text(
                body,
                "mode"@,
                if r.mode is Some {
                    r.mode
                } else {
                    Some("stream"@)
                },
            )
            &&& holds_flag(body, "replace"@, Some(false))
            &&& holds_flag(body, "captureStackTrace"@, Some(r.capture_stack_trace == Some(true)))
            &&& holds_flag(
                body,
                "captureMemorySnapshot"@,
                Some(r.capture_memory_snapshot == Some(true)),
            )
        }),
{
    lemma_names();
    let e = seq![
        ("name"@, JsonView::Str(b.name@)),
        ("connectionId"@, JsonView::Str(b.connection_id@)),
        ("location"@, location_json(b.location)),
        ("expression"@, JsonView::Str(b.expression@)),
        ("language"@, JsonView::Str(b.language@)),
        ("enabled"@, JsonView::Bool(b.enabled)),
        ("mode"@, JsonView::Str(b.mode@)),
        ("replace"@, JsonView::Bool(b.replace)),
        ("captureStackTrace"@, JsonView::Bool(b.capture_stack_trace)),
        ("captureMemorySnapshot"@, JsonView::Bool(b.capture_memory_snapshot)),
    ];
    lemma_field_at(e, "name"@, 0);
    lemma_field_at(e, "connectionId"@, 1);
    lemma_field_at(e, "expression"@, 3);
    lemma_field_at(e, "language"@, 4);
    lemma_field_at(e, "enabled"@, 5);
    lemma_field_at(e, "mode"@, 6);
    lemma_field_at(e, "replace"@, 7);
    lemma_field_at(e, "captureStackTrace"@, 8);
    lemma_field_at(e, "captureMemorySnapshot"@, 9);
}

/// The body that adds a metric holds the file and the line, and the options of the request where
/// they are set, each under its own name. Rates are never sent.
#[verifier::rlimit(60)]
pub proof fn law_created_metric_options(b: CreateMetricRequest, r: AddMetricRequestView)
    requires
        body_of(b, r),
    ensures
        ({
            let body = create_metric_json(b);
            let place = body.field("location"@);
            let cut = body.field("stackTraceSlice"@);
            &&& place is Some && holds_text(place->0, "file"@, Some(b.location.file@))
                && holds_number(place->0, "line"@, Some(b.location.line as int))
            &&& holds_text(body, "group"@, r.group)
            &&& holds_text(body, "safetyLevel"@, Some("strict"@))
            &&& body.field("sampleRate"@) is None
            &&& body.field("sampleIntervalSeconds"@) is None
            &&& body.field("maxPerSecond"@) is None
            &&& holds_number(body, "stackTraceTtl"@, whole_u64(r.stack_trace_ttl))
            &&& holds_text(body, "snapshotScope"@, r.snapshot_scope)
            &&& holds_number(body, "snapshotTtl"@, whole_u64(r.snapshot_ttl))
            &&& if r.stack_trace_head is Some && r.stack_trace_tail is Some {
                cut matches Some(JsonView::Array(items)) && items.len() == 2
                    && items[0].u64_value() == Some(r.stack_trace_head->0 as u64)
                    && items[1].u64_value() == Some(r.stack_trace_tail->0 as u64)
            } else if r.stack_trace_full == Some(true) || r.capture_stack_trace == Some(true) {
                cut is Some && holds_flag(cut->0, "full"@, Some(true))
            } else {
                cut is None
            }
        }),
{
    lemma_names();
    let e = seq![
        ("name"@, JsonView::Str(b.name@)),
        ("connectionId"@, JsonView::Str(b.connection_id@)),
        ("location"@, location_json(b.location)),
        ("expression"@, JsonView::Str(b.expression@)),
        ("language"@, JsonView::Str(b.language@)),
        ("enabled"@, JsonView::Bool(b.enabled)),
        ("mode"@, JsonView::Str(b.mode@)),
        ("replace"@, JsonView::Bool(b.replace)),
        ("captureStackTrace"@, JsonView::Bool(b.capture_stack_trace)),
        ("captureMemorySnapshot"@, JsonView::Bool(b.capture_memory_snapshot)),
    ];
    lemma_field_at(e, "location"@, 2);
    lemma_field_absent(e, "group"@);
    lemma_field_absent(e, "safetyLevel"@);
    lemma_field_absent(e, "sampleRate"@);
    lemma_field_absent(e, "sampleIntervalSeconds"@);
    lemma_field_absent(e, "maxPerSecond"@);
    lemma_field_absent(e, "stackTraceTtl"@);
    lemma_field_absent(e, "stackTraceSlice"@);
    lemma_field_absent(e, "snapshotScope"@);
    lemma_field_absent(e, "snapshotTtl"@);
    let p = location_json(b.location)->Object_0;
    lemma_field_at(p, "file"@, 0);
    lemma_field_at(p, "line"@, 1);
    if let Some(cut) = b.stack_trace_slice {
        if cut is Full {
            lemma_field_at(slice_json(cut)->Object_0, "full"@, 0);
        }
    }
}

/// A status is shown by a text of its own: exactly the third one as `connected`, and no two known
/// ones alike.
pub proof fn law_connection_statuses(status: i32)
    ensures
        status == 0 ==> connection_status(status) == "unspecified"@,
        status == 1 ==> connection_status(status) == "disconnected"@,
        status == 2 ==> connection_status(status) == "connecting"@,
        status == 3 <==> connection_status(status) == "connected"@,
        status == 4 ==> connection_status(status) == "failed"@,
        status < 0 || status > 4 ==> connection_status(status) == "unknown("@ + signed_decimal(
            status as int,
        ) + ")"@,
{
    lemma_names();
    reveal_strlit("unknown(");
    if status < 0 || status > 4 {
        assert(connection_status(status)[0] == 'u');
    }
}

/// The action's answer is an error wherever its status is no success, for the actions that change
/// something or ask for one thing. The error keeps the body; it has the error that the body reports
/// where a connection or a metric is created, and the status otherwise.
pub proof fn law_failed_statuses_are_errors(action: ActionView, a: RestAnswer)
    requires
        !a.success,
        a.body is Ok,
        action is CreateConnection || action is AddMetric || action is CloseConnection
            || action is GetConnection || action is RemoveMetric || action is ToggleMetric
            || action is UpdateConfig || action is ReloadConfig || action is GetMcpUsage,
    ensures
        answer_error(action, a) matches Some(e) && {
            let creates = action is CreateConnection || action is AddMetric;
            &&& e.raw_response == Some(a.body->Ok_0@)
            &&& creates && a.reported is Some ==> e.message == a.reported->0@
            &&& creates && a.reported is None ==> e.message == "HTTP "@ + a.status@ + ": "@
                + a.body->Ok_0@
            &&& action is GetMcpUsage ==> e.message == "HTTP "@ + a.status@ + " - "@
                + a.body->Ok_0@
            &&& !creates && !(action is GetMcpUsage) ==> e.message == "HTTP "@ + a.status@
        },
{
}

/// An answer with a success status is an error exactly where its body is needed and cannot be read,
/// or is not what it should be, or lacks what was asked for: the details of the connection, or the
/// metric.
pub proof fn law_successful_answers(action: ActionView, a: RestAnswer)
    requires
        a.success,
        a.body is Ok,
    ensures
        answer_error(action, a) is Some <==> {
            let needed = !(action is CloseConnection || action is RemoveMetric
                || action is ToggleMetric || action is UpdateConfig || action is ReloadConfig);
            &&& needed
            &&& match a.parsed {
                Err(_) => true,
                Ok(RestReply::Created { connection, .. }) => connection is None,
                Ok(RestReply::Metrics { metrics }) => action matches ActionView::GetMetric(name)
                    && forall|k: int|
                    0 <= k < metrics@.len() ==> (#[trigger] metrics@[k]).name@ != name,
                Ok(_) => false,
            }
        },
        says_healthy(a) <==> (a.parsed matches Ok(RestReply::Health { status }) && status@
            == "ok"@),
{
    if let Ok(RestReply::Metrics { metrics }) = a.parsed {
        if let ActionView::GetMetric(name) = action {
            lemma_message_index(metrics@, name);
        }
    }
}

/// What a body says is what the answer says, and the answer keeps the body: the numbers of the
/// status, the id of the metric that was added, how many metrics were affected, what was found, and
/// the connection.
pub proof fn law_bodies_are_handed_on(
    action: ActionView,
    reply: RestReply,
    raw: Seq<char>,
    now_micros: i64,
    event: Event,
)
    requires
        reply_is(action, reply, raw, now_micros, event),
    ensures
        match reply {
            RestReply::Status {
                status,
                uptime_seconds,
                active_connections,
                total_metrics,
                active_metrics,
            } => event matches Event::Status(Ok(r)) && r.data.mode == status
                && r.data.uptime_seconds == uptime_seconds && r.data.active_connections
                == active_connections && r.data.total_metrics == total_metrics
                && r.data.enabled_metrics == active_metrics,
            RestReply::Message { status, message } => event matches Event::Text(Ok(r)) && r.data@
                == status@ + ": "@ + message@,
            RestReply::MetricId { metric_id } => event matches Event::Text(Ok(r)) && r.data@
                == decimal(metric_id as nat),
            RestReply::Affected { success_count } => event matches Event::Count(Ok(r)) && r.data
                == success_count,
            RestReply::Validation { is_safe, violations } => event matches Event::Validation(Ok(r))
                && r.data.is_safe == is_safe && r.data.issues == violations,
            RestReply::Config { config_toml } => event matches Event::Text(Ok(r)) && r.data
                == config_toml,
            RestReply::Valid { valid } => event matches Event::Valid(Ok(r)) && r.data == valid,
            RestReply::Groups { groups } => event matches Event::Groups(Ok(r)) && r.data == groups,
            RestReply::Created { connection_id, connection } => event matches Event::Connection(
                Ok(r),
            ) && r.data@.connection_id == connection_id@ && connection is Some && r.data@.host
                == connection->0.host@ && r.data@.language == connection->0.language@
                && r.data@.status == connection_status(connection->0.status),
            RestReply::Connection { connection } => event matches Event::Connection(Ok(r))
                && shows_connection(r.data@, connection),
            RestReply::Connections { connections } => event matches Event::Connections(Ok(r))
                && r.data@.len() == connections@.len() && forall|i: int|
                0 <= i < connections@.len() ==> shows_connection(
                    (#[trigger] r.data@[i])@,
                    connections@[i],
                ),
            RestReply::Metrics { metrics } => if action is GetMetric {
                event matches Event::Metric(Ok(r)) && r.data@.name == metrics@[message_index(
                    metrics@,
                    action->GetMetric_0,
                ) as int].name@
            } else {
                event matches Event::Metrics(Ok(r)) && r.data@.len() == metrics@.len()
                    && forall|i: int|
                    0 <= i < metrics@.len() ==> shows_metric(
                        (#[trigger] r.data@[i])@,
                        metrics@[i],
                    )
            },
            RestReply::Events { events } => event matches Event::Events(Ok(r)) && r.data@.len()
                == events@.len() && forall|i: int|
                0 <= i < events@.len() ==> shows_event(#[trigger] r.data@[i], events@[i]),
            _ => true,
        },
{
}

/// What is shown of a connection.
pub open spec fn shows_connection(shown: ConnectionInfoView, c: ConnectionMessage) -> bool {
    &&& shown.connection_id == c.connection_id@
    &&& shown.host == c.host@
    &&& c.port <= u16::MAX ==> shown.port == c.port
    &&& shown.language == c.language@
    &&& shown.status == connection_status(c.status)
    &&& shown.safe_mode == c.safe_mode
}

/// What is shown of a metric: its place without a sign in front.
pub open spec fn shows_metric(shown: MetricInfoView, m: MetricMessage) -> bool {
    &&& shown.name == m.name@
    &&& shown.expression == m.expression@
    &&& shown.group == opt_view(m.group)
    &&& shown.enabled == m.enabled
    &&& m.location matches Some((file, line)) ==> shown.location == ""@ + file@ + "#"@ + decimal(
        line as nat,
    )
    &&& m.location is None ==> shown.location.len() == 0
}

/// What is shown of an event: an error has no value.
pub open spec fn shows_event(shown: EventInfo, e: EventRecord) -> bool {
    &&& shown.metric_name == e.metric_name
    &&& shown.stack_trace == e.stack_trace
    &&& shown.memory_snapshot == e.memory_snapshot
    &&& match e.result {
        Some(EventResult::ValueJson { value }) => shown.value@ == value@ && !shown.is_error,
        Some(EventResult::Error { .. }) => shown.value@.len() == 0 && shown.is_error,
        None => shown.value@.len() == 0 && !shown.is_error,
    }
}

/// A call begins with the request of its action; one for a metric that is named begins with the
/// list in which its number is found. A metric with a location that cannot be read, and an action
/// that this backend does not have, fail before anything is sent.
pub proof fn law_first_requests(base_url: Seq<char>, action: ActionView)
    ensures
        ({
            let turn = rest_begun(base_url, action);
            &&& turn.next is Fail <==> {
                ||| action is Observe
                ||| action is EnableFromDiff
                ||| action is QuerySystemEvents
                ||| action is AcknowledgeSystemEvents
                ||| (action matches ActionView::AddMetric(r) && located(
                    r.location,
                    location_format_error(r.location),
                ) is Err)
            }
            &&& action is RemoveMetric || action is ToggleMetric || action is GetMetric ==> (
            turn.next matches RestNext::Send(request) && request.method == HttpMethod::Get
                && request.url == base_url + "/api/v1/metrics"@)
            &&& action is RemoveMetric ==> turn.state.phase is Checking
            &&& action is ToggleMetric ==> turn.state.phase is Finding
            &&& action matches ActionView::AddMetric(r) ==> (turn.next
                matches RestNext::SendMetric(request, file, line) ==> request == r && located(
                r.location,
                location_format_error(r.location),
            ) == Ok::<(Seq<char>, u32), ApiErrorView>((file, line)))
            &&& turn.state.action == action && turn.state.base_url == base_url
        }),
{
}

/// The answer to a question about the time since is an error exactly where its body could not be
/// read, its status is one of failure, or it is not what was asked for.
pub proof fn law_since_answers(a: RestAnswer)
    ensures
        since_answer_error(a) is None <==> a.body is Ok && a.success && a.parsed is Ok,
{
}

} // verus!
