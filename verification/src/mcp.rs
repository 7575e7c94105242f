//! The MCP backend: tool calls as JSON-RPC, and what their answers mean.

use vstd::prelude::*;

pub mod answers;
pub mod calls;
pub mod laws;
pub mod listings;
pub mod notices;
pub mod observe;
pub mod tables;

use crate::client::{
    AddMetricRequest, AddMetricRequestView, ApiError, ApiErrorView, ConnectionInfo,
    ConnectionInfoView, EnableFromDiffRequest, EnableFromDiffRequestView, ObserveRequest,
    ObserveRequestView, StatusInfo, StatusInfoView, ValidationResult, ValidationResultView,
};
use crate::json::{
    json_of_text, json_views, number_view, opt_bool_json, opt_number_json, opt_str_json, parse_json,
    parse_view, strings_view, with_entry, Json, JsonObject, JsonView,
};
use crate::text::{
    after_text, before_char, cat2, cat3, contains, decimal, has_prefix, has_text, join, joined,
    lines, num, opt_view, parse_i64, parse_u16, parse_u64, parse_usize, parsed_signed,
    parsed_unsigned, pieces, replace_char, replaced, split_char, split_lines, split_words,
    starts_with, strip_end, strip_start, text_after, trim, trim_char_end, trim_char_start, trimmed,
    until_char, views, words,
};

verus! {

/// The address of an MCP server.
#[derive(Debug)]
pub struct McpClient {
    pub base_url: String,
}

// ---------------------------------------------------------------------------
// Calls
// ---------------------------------------------------------------------------

/// The JSON-RPC request that calls a tool.
pub open spec fn tool_request(tool: Seq<char>, arguments: JsonView) -> JsonView {
    JsonView::Object(
        seq![
            ("jsonrpc"@, JsonView::Str("2.0"@)),
            ("method"@, JsonView::Str("tools/call"@)),
            (
                "params"@,
                JsonView::Object(
                    seq![("name"@, JsonView::Str(tool)), ("arguments"@, arguments)],
                ),
            ),
            ("id"@, number_view(1)),
        ],
    )
}

/// The text that a tool gave as the first item of its content, or a default.
pub open spec fn error_content(result: JsonView) -> Seq<char> {
    match result.items_field("content"@) {
        Some(items) => if items.len() > 0 {
            items[0].str_field_or("text"@, "MCP error"@)
        } else {
            "MCP error"@
        },
        None => "MCP error"@,
    }
}

/// What the answer to a tool call means: the answer itself, or the error that it reports.
pub open spec fn answer_of(parsed: Result<JsonView, Seq<char>>, raw: Seq<char>) -> Result<
    JsonView,
    ApiErrorView,
> {
    let with_raw = |message: Seq<char>|
        ApiErrorView { message, code: None, raw_response: Some(raw) };
    match parsed {
        Err(e) => Err(with_raw("JSON parse error: "@ + e)),
        Ok(json) => match json.field("error"@) {
            Some(error) => Err(with_raw(error.str_field_or("message"@, "Unknown error"@))),
            None => match json.field("result"@) {
                Some(result) => if result.field("isError"@) == Some(JsonView::Bool(true)) {
                    Err(with_raw(error_content(result)))
                } else {
                    Ok(json)
                },
                None => Ok(json),
            },
        },
    }
}

/// The view of the answer to a tool call.
pub open spec fn answer_view(r: Result<Json, ApiError>) -> Result<JsonView, ApiErrorView> {
    match r {
        Ok(j) => Ok(j@),
        Err(e) => Err(e@),
    }
}

/// The texts among the first `n` items of a content.
pub open spec fn content_texts(items: Seq<JsonView>, n: nat) -> Seq<Seq<char>>
    decreases n,
{
    if n == 0 {
        Seq::empty()
    } else {
        let rest = content_texts(items, (n - 1) as nat);
        match items[n - 1].str_field("text"@) {
            Some(t) => rest.push(t),
            None => rest,
        }
    }
}

/// The text of an answer: the texts of its content, one per line.
pub open spec fn content_text(json: JsonView) -> Option<Seq<char>> {
    match json.field("result"@) {
        Some(result) => match result.items_field("content"@) {
            Some(items) => Some(joined(content_texts(items, items.len()), "\n"@)),
            None => None,
        },
        None => None,
    }
}

/// The text of an answer; empty where there is none.
pub open spec fn content_text_or_empty(json: JsonView) -> Seq<char> {
    match content_text(json) {
        Some(t) => t,
        None => Seq::empty(),
    }
}

impl McpClient {
    /// The server on a port of this machine.
    pub fn new(http_port: u16) -> (r: Self)
        ensures
            r.base_url@ == "http://127.0.0.1:"@ + decimal(http_port as nat),
    {
        McpClient { base_url: cat2("http://127.0.0.1:", num(http_port as u64).as_str()) }
    }

    /// Where tools are called.
    pub fn mcp_url(&self) -> (r: String)
        ensures
            r@ == self.base_url@ + "/mcp"@,
    {
        cat2(self.base_url.as_str(), "/mcp")
    }

    /// Where the server is asked for its health.
    pub fn health_url(&self) -> (r: String)
        ensures
            r@ == self.base_url@ + "/health"@,
    {
        cat2(self.base_url.as_str(), "/health")
    }

    /// The JSON-RPC request that calls a tool.
    pub fn request(tool_name: &str, arguments: Json) -> (r: Json)
        ensures
            r@ == tool_request(tool_name@, arguments@),
    {
        let mut params: JsonObject = JsonObject::new();
        params.put_str("name", tool_name);
        params.put("arguments", arguments);
        assert(params@ =~= seq![("name"@, JsonView::Str(tool_name@)), ("arguments"@, arguments@)]);
        let mut body: JsonObject = JsonObject::new();
        body.put_str("jsonrpc", "2.0");
        body.put_str("method", "tools/call");
        body.put("params", params.finish());
        body.put("id", Json::unsigned(1));
        assert(body@ =~= tool_request(tool_name@, arguments@)->Object_0);
        body.finish()
    }

    /// What the parsed answer to a tool call means.
    pub fn judge(parsed: Result<Json, String>, raw_text: &str) -> (r: Result<Json, ApiError>)
        ensures
            answer_view(r) == answer_of(parse_view(parsed), raw_text@),
    {
        let json: Json = match parsed {
            Ok(j) => j,
            Err(e) => {
                return Err(
                    ApiError::new(cat2("JSON parse error: ", e.as_str())).with_raw(
                        raw_text.to_owned(),
                    ),
                );
            },
        };
        match json.get("error") {
            Some(error) => {
                return Err(
                    ApiError::new(error.get_str_or("message", "Unknown error")).with_raw(
                        raw_text.to_owned(),
                    ),
                );
            },
            None => {},
        }
        match json.get("result") {
            Some(result) => {
                let is_error: bool = match result.get("isError") {
                    Some(Json::Bool(true)) => true,
                    _ => false,
                };
                if is_error {
                    let text: String = match result.get_array("content") {
                        Some(items) => if items.len() > 0 {
                            proof {
                                assert(json_views(items@)[0] == items@[0]@);
                                assert(json_views(items@) == items@.map_values(|j: Json| j@));
                            }
                            items[0].get_str_or("text", "MCP error")
                        } else {
                            "MCP error".to_owned()
                        },
                        None => "MCP error".to_owned(),
                    };
                    return Err(ApiError::new(text).with_raw(raw_text.to_owned()));
                }
            },
            None => {},
        }
        Ok(json)
    }

    /// What the text of an answer means.
    pub fn interpret(raw_text: &str) -> (r: Result<Json, ApiError>)
        ensures
            answer_view(r) == answer_of(json_of_text(raw_text@), raw_text@),
    {
        Self::judge(parse_json(raw_text), raw_text)
    }

    /// The text of an answer.
    pub fn extract_text(json: &Json) -> (r: Option<String>)
        ensures
            opt_view(r) == content_text(json@),
    {
        match json.get("result") {
            Some(result) => match result.get_array("content") {
                Some(items) => {
                    let ghost vs = json_views(items@);
                    assert(vs =~= items@.map_values(|j: Json| j@));
                    let mut texts: Vec<String> = Vec::new();
                    assert(views(texts@) =~= Seq::<Seq<char>>::empty());
                    let mut i: usize = 0;
                    while i < items.len()
                        invariant
                            i <= items.len(),
                            vs == json_views(items@),
                            views(texts@) == content_texts(vs, i as nat),
                        decreases items.len() - i,
                    {
                        assert(vs[i as int] == items@[i as int]@);
                        match items[i].get_str("text") {
                            Some(t) => {
                                let ghost before = texts@;
                                let owned: String = t.to_owned();
                                texts.push(owned);
                                assert(views(texts@) =~= views(before).push(owned@));
                            },
                            None => {},
                        }
                        i = i + 1;
                    }
                    Some(join(&texts, "\n"))
                },
                None => None,
            },
            None => None,
        }
    }

    /// The text of an answer; empty where there is none.
    pub fn text_or_empty(json: &Json) -> (r: String)
        ensures
            r@ == content_text_or_empty(json@),
    {
        match Self::extract_text(json) {
            Some(t) => t,
            None => String::new(),
        }
    }
}

// ---------------------------------------------------------------------------
// Arguments
// ---------------------------------------------------------------------------

/// The arguments of create_connection.
pub open spec fn connection_args(
    host: Seq<char>,
    port: u16,
    language: Seq<char>,
    program: Option<Seq<char>>,
) -> JsonView {
    JsonView::Object(
        with_entry(
            seq![
                ("host"@, JsonView::Str(host)),
                ("port"@, number_view(port as int)),
                ("language"@, JsonView::Str(language)),
            ],
            "program"@,
            opt_str_json(program),
        ),
    )
}

/// The arguments of a tool that takes one text.
pub open spec fn text_args(key: Seq<char>, value: Seq<char>) -> JsonView {
    JsonView::Object(seq![(key, JsonView::Str(value))])
}

/// An optional unsigned number as an integer.
pub open spec fn opt_u32_int(n: Option<u32>) -> Option<int> {
    match n {
        Some(v) => Some(v as int),
        None => None,
    }
}

/// An optional unsigned number as an integer.
pub open spec fn opt_u64_int(n: Option<u64>) -> Option<int> {
    match n {
        Some(v) => Some(v as int),
        None => None,
    }
}

/// An optional signed number as an integer.
pub open spec fn opt_i64_int(n: Option<i64>) -> Option<int> {
    match n {
        Some(v) => Some(v as int),
        None => None,
    }
}

/// The arguments of add_metric: the required ones, then those options that are set.
pub open spec fn add_metric_args(r: AddMetricRequestView) -> JsonView {
    let e0 = seq![
        ("name"@, JsonView::Str(r.name)),
        ("location"@, JsonView::Str(r.location)),
        ("expressions"@, strings_view(r.expressions)),
        ("connection_id"@, JsonView::Str(r.connection_id)),
    ];
    let e1 = with_entry(e0, "group"@, opt_str_json(r.group));
    let e2 = with_entry(e1, "mode"@, opt_str_json(r.mode));
    let e3 = with_entry(e2, "enabled"@, opt_bool_json(r.enabled));
    let e4 = with_entry(e3, "capture_stack_trace"@, opt_bool_json(r.capture_stack_trace));
    let e5 = with_entry(e4, "stack_trace_ttl"@, opt_number_json(opt_u64_int(r.stack_trace_ttl)));
    let e6 = with_entry(e5, "stack_trace_full"@, opt_bool_json(r.stack_trace_full));
    let e7 = with_entry(e6, "stack_trace_head"@, opt_number_json(opt_u32_int(r.stack_trace_head)));
    let e8 = with_entry(e7, "stack_trace_tail"@, opt_number_json(opt_u32_int(r.stack_trace_tail)));
    let e9 = with_entry(e8, "capture_memory_snapshot"@, opt_bool_json(r.capture_memory_snapshot));
    let e10 = with_entry(e9, "snapshot_scope"@, opt_str_json(r.snapshot_scope));
    JsonView::Object(
        with_entry(e10, "snapshot_ttl"@, opt_number_json(opt_u64_int(r.snapshot_ttl))),
    )
}

/// The arguments of observe: the required ones, then those options that are set.
pub open spec fn observe_args(r: ObserveRequestView) -> JsonView {
    let e0 = seq![
        ("file"@, JsonView::Str(r.file)),
        ("expressions"@, strings_view(r.expressions)),
    ];
    let e1 = with_entry(e0, "line"@, opt_number_json(opt_u32_int(r.line)));
    let e2 = with_entry(e1, "connection_id"@, opt_str_json(r.connection_id));
    let e3 = with_entry(e2, "name"@, opt_str_json(r.name));
    let e4 = with_entry(e3, "find_variable"@, opt_str_json(r.find_variable));
    let e5 = with_entry(e4, "group"@, opt_str_json(r.group));
    let e6 = with_entry(e5, "capture_stack_trace"@, opt_bool_json(r.capture_stack_trace));
    let e7 = with_entry(e6, "capture_memory_snapshot"@, opt_bool_json(r.capture_memory_snapshot));
    JsonView::Object(with_entry(e7, "ttl_seconds"@, opt_number_json(opt_i64_int(r.ttl_seconds))))
}

/// The arguments of enable_from_diff.
pub open spec fn diff_args(r: EnableFromDiffRequestView) -> JsonView {
    let e0 = seq![("diff"@, JsonView::Str(r.diff))];
    let e1 = with_entry(e0, "connection_id"@, opt_str_json(r.connection_id));
    let e2 = with_entry(e1, "group"@, opt_str_json(r.group));
    JsonView::Object(with_entry(e2, "ttl_seconds"@, opt_number_json(opt_i64_int(r.ttl_seconds))))
}

/// The arguments of inspect_file.
pub open spec fn inspect_args(path: Seq<char>, line: Option<u32>, variable: Option<Seq<char>>) -> JsonView {
    let e0 = seq![("file_path"@, JsonView::Str(path))];
    let e1 = with_entry(e0, "line"@, opt_number_json(opt_u32_int(line)));
    JsonView::Object(with_entry(e1, "find_variable"@, opt_str_json(variable)))
}

/// The arguments of query_system_events.
pub open spec fn system_event_args(
    limit: u32,
    unacknowledged_only: bool,
    types: Option<Seq<Seq<char>>>,
) -> JsonView {
    JsonView::Object(
        with_entry(
            seq![
                ("limit"@, number_view(limit as int)),
                ("unacknowledged_only"@, JsonView::Bool(unacknowledged_only)),
                ("format"@, JsonView::Str("json"@)),
            ],
            "event_types"@,
            match types {
                Some(t) => Some(strings_view(t)),
                None => None,
            },
        ),
    )
}

impl McpClient {
    /// The arguments of create_connection.
    pub fn connection_arguments(host: &str, port: u16, language: &str, program: &Option<String>) -> (r:
        Json)
        ensures
            r@ == connection_args(host@, port, language@, opt_view(*program)),
    {
        let mut o: JsonObject = JsonObject::new();
        o.put_str("host", host);
        o.put("port", Json::unsigned(port as u64));
        o.put_str("language", language);
        assert(o@ =~= seq![
            ("host"@, JsonView::Str(host@)),
            ("port"@, number_view(port as int)),
            ("language"@, JsonView::Str(language@)),
        ]);
        o.put_opt_str("program", program);
        o.finish()
    }

    /// The arguments of a tool that takes one text.
    pub fn text_arguments(key: &str, value: &str) -> (r: Json)
        ensures
            r@ == text_args(key@, value@),
    {
        let mut o: JsonObject = JsonObject::new();
        o.put_str(key, value);
        o.finish()
    }

    /// The arguments of a tool that takes none.
    pub fn no_arguments() -> (r: Json)
        ensures
            r@ == JsonView::Object(Seq::empty()),
    {
        JsonObject::new().finish()
    }

    /// The arguments of toggle_metric.
    pub fn toggle_arguments(name: &str, enabled: bool) -> (r: Json)
        ensures
            r@ == JsonView::Object(
                seq![("name"@, JsonView::Str(name@)), ("enabled"@, JsonView::Bool(enabled))],
            ),
    {
        let mut o: JsonObject = JsonObject::new();
        o.put_str("name", name);
        o.put("enabled", Json::Bool(enabled));
        assert(o@ =~= seq![("name"@, JsonView::Str(name@)), ("enabled"@, JsonView::Bool(enabled))]);
        o.finish()
    }

    /// The arguments of query_metrics.
    pub fn query_arguments(metric_name: &str, limit: u32) -> (r: Json)
        ensures
            r@ == JsonView::Object(
                seq![
                    ("name"@, JsonView::Str(metric_name@)),
                    ("limit"@, number_view(limit as int)),
                    ("format"@, JsonView::Str("json"@)),
                ],
            ),
    {
        let mut o: JsonObject = JsonObject::new();
        o.put_str("name", metric_name);
        o.put("limit", Json::unsigned(limit as u64));
        o.put_str("format", "json");
        assert(o@ =~= seq![
            ("name"@, JsonView::Str(metric_name@)),
            ("limit"@, number_view(limit as int)),
            ("format"@, JsonView::Str("json"@)),
        ]);
        o.finish()
    }

    /// The arguments of validate_expression.
    pub fn validate_arguments(expression: &str, language: &str) -> (r: Json)
        ensures
            r@ == JsonView::Object(
                seq![
                    ("expression"@, JsonView::Str(expression@)),
                    ("language"@, JsonView::Str(language@)),
                ],
            ),
    {
        let mut o: JsonObject = JsonObject::new();
        o.put_str("expression", expression);
        o.put_str("language", language);
        assert(o@ =~= seq![
            ("expression"@, JsonView::Str(expression@)),
            ("language"@, JsonView::Str(language@)),
        ]);
        o.finish()
    }

    /// The arguments of update_config.
    pub fn update_config_arguments(config_toml: &str, persist: bool) -> (r: Json)
        ensures
            r@ == JsonView::Object(
                seq![
                    ("config_toml"@, JsonView::Str(config_toml@)),
                    ("persist"@, JsonView::Bool(persist)),
                ],
            ),
    {
        let mut o: JsonObject = JsonObject::new();
        o.put_str("config_toml", config_toml);
        o.put("persist", Json::Bool(persist));
        assert(o@ =~= seq![
            ("config_toml"@, JsonView::Str(config_toml@)),
            ("persist"@, JsonView::Bool(persist)),
        ]);
        o.finish()
    }

    /// The arguments of inspect_file.
    pub fn inspect_arguments(path: &str, line: Option<u32>, variable: &Option<String>) -> (r: Json)
        ensures
            r@ == inspect_args(path@, line, opt_view(*variable)),
    {
        let mut o: JsonObject = JsonObject::new();
        o.put_str("file_path", path);
        o.put_opt_u32("line", line);
        o.put_opt_str("find_variable", variable);
        o.finish()
    }

    /// The arguments of query_system_events.
    pub fn system_event_arguments(
        limit: u32,
        unacknowledged_only: bool,
        event_types: &Option<Vec<String>>,
    ) -> (r: Json)
        ensures
            r@ == system_event_args(
                limit,
                unacknowledged_only,
                match *event_types {
                    Some(t) => Some(views(t@)),
                    None => None,
                },
            ),
    {
        let mut o: JsonObject = JsonObject::new();
        o.put("limit", Json::unsigned(limit as u64));
        o.put("unacknowledged_only", Json::Bool(unacknowledged_only));
        o.put_str("format", "json");
        assert(o@ =~= seq![
            ("limit"@, number_view(limit as int)),
            ("unacknowledged_only"@, JsonView::Bool(unacknowledged_only)),
            ("format"@, JsonView::Str("json"@)),
        ]);
        match event_types {
            Some(types) => o.put("event_types", Json::strings(types)),
            None => {},
        }
        o.finish()
    }

    /// The arguments of acknowledge_events.
    pub fn acknowledge_arguments(event_ids: &Vec<i64>) -> (r: Json)
        ensures
            r@ == JsonView::Object(
                seq![("event_ids"@, crate::json::numbers_view(event_ids@))],
            ),
    {
        let mut o: JsonObject = JsonObject::new();
        o.put("event_ids", Json::numbers(event_ids));
        o.finish()
    }

    /// The arguments of add_metric.
    pub fn add_metric_arguments(request: &AddMetricRequest) -> (r: Json)
        ensures
            r@ == add_metric_args(request@),
    {
        let mut o: JsonObject = JsonObject::new();
        o.put_str("name", request.name.as_str());
        o.put_str("location", request.location.as_str());
        o.put("expressions", Json::strings(&request.expressions));
        o.put_str("connection_id", request.connection_id.as_str());
        assert(o@ =~= seq![
            ("name"@, JsonView::Str(request@.name)),
            ("location"@, JsonView::Str(request@.location)),
            ("expressions"@, strings_view(request@.expressions)),
            ("connection_id"@, JsonView::Str(request@.connection_id)),
        ]);
        o.put_opt_str("group", &request.group);
        o.put_opt_str("mode", &request.mode);
        o.put_opt_bool("enabled", request.enabled);
        o.put_opt_bool("capture_stack_trace", request.capture_stack_trace);
        o.put_opt_u64("stack_trace_ttl", request.stack_trace_ttl);
        o.put_opt_bool("stack_trace_full", request.stack_trace_full);
        o.put_opt_u32("stack_trace_head", request.stack_trace_head);
        o.put_opt_u32("stack_trace_tail", request.stack_trace_tail);
        o.put_opt_bool("capture_memory_snapshot", request.capture_memory_snapshot);
        o.put_opt_str("snapshot_scope", &request.snapshot_scope);
        o.put_opt_u64("snapshot_ttl", request.snapshot_ttl);
        o.finish()
    }

    /// The arguments of observe.
    pub fn observe_arguments(request: &ObserveRequest) -> (r: Json)
        ensures
            r@ == observe_args(request@),
    {
        let mut o: JsonObject = JsonObject::new();
        o.put_str("file", request.file.as_str());
        o.put("expressions", Json::strings(&request.expressions));
        assert(o@ =~= seq![
            ("file"@, JsonView::Str(request@.file)),
            ("expressions"@, strings_view(request@.expressions)),
        ]);
        o.put_opt_u32("line", request.line);
        o.put_opt_str("connection_id", &request.connection_id);
        o.put_opt_str("name", &request.name);
        o.put_opt_str("find_variable", &request.find_variable);
        o.put_opt_str("group", &request.group);
        o.put_opt_bool("capture_stack_trace", request.capture_stack_trace);
        o.put_opt_bool("capture_memory_snapshot", request.capture_memory_snapshot);
        o.put_opt_i64("ttl_seconds", request.ttl_seconds);
        o.finish()
    }

    /// The arguments of enable_from_diff.
    pub fn diff_arguments(request: &EnableFromDiffRequest) -> (r: Json)
        ensures
            r@ == diff_args(request@),
    {
        let mut o: JsonObject = JsonObject::new();
        o.put_str("diff", request.diff.as_str());
        o.put_opt_str("connection_id", &request.connection_id);
        o.put_opt_str("group", &request.group);
        o.put_opt_i64("ttl_seconds", request.ttl_seconds);
        o.finish()
    }
}

// ---------------------------------------------------------------------------
// Connections
// ---------------------------------------------------------------------------

/// The number of a port, or 0 where the text is none.
pub open spec fn port_or_zero(text: Seq<char>) -> u16 {
    match parsed_unsigned(text, u16::MAX as nat) {
        Some(p) => p as u16,
        None => 0,
    }
}

/// The connection that a line of a TOON table describes, if it describes one.
pub open spec fn connection_of_line(line: Seq<char>) -> Option<ConnectionInfoView> {
    let parts = pieces(trimmed(line), ',');
    if has_text(line, ","@) && !has_prefix(line, "["@) && !has_prefix(line, "Found"@) && parts.len()
        >= 5 {
        Some(
            ConnectionInfoView {
                connection_id: trimmed(parts[0]),
                host: trim_char_end(trim_char_start(trimmed(parts[1]), '"'), '"'),
                port: port_or_zero(trimmed(parts[2])),
                language: trimmed(parts[3]),
                status: trimmed(parts[4]),
                safe_mode: false,
            },
        )
    } else {
        None
    }
}

/// The connections that the first `n` lines describe.
pub open spec fn connections_of_lines(ls: Seq<Seq<char>>, n: nat) -> Seq<ConnectionInfoView>
    decreases n,
{
    if n == 0 {
        Seq::empty()
    } else {
        let rest = connections_of_lines(ls, (n - 1) as nat);
        match connection_of_line(ls[n - 1]) {
            Some(c) => rest.push(c),
            None => rest,
        }
    }
}

/// The connections that a text describes.
pub open spec fn connections_of_text(text: Seq<char>) -> Seq<ConnectionInfoView> {
    connections_of_lines(lines(text), lines(text).len())
}

/// The connections of a list.
pub open spec fn connection_views(list: Seq<ConnectionInfo>) -> Seq<ConnectionInfoView> {
    list.map_values(|c: ConnectionInfo| c@)
}

/// The id of the connection that an answer to create_connection names, or one made of host and
/// port.
pub open spec fn connection_id_of(text: Seq<char>, host: Seq<char>, port: u16) -> Seq<char> {
    match text_after(text, "connection_id: "@) {
        Some(rest) => match before_char(rest, ')') {
            Some(id) => trimmed(id),
            None => trimmed(rest),
        },
        None => match text_after(text, "\"connection_id\": \""@) {
            Some(rest) => match before_char(rest, '"') {
                Some(id) => id,
                None => Seq::empty(),
            },
            None => replaced(host, '.', '_') + "_"@ + decimal(port as nat),
        },
    }
}

impl McpClient {
    fn parse_connection_line(line: &str) -> (r: Option<ConnectionInfo>)
        ensures
            r is Some <==> connection_of_line(line@) is Some,
            r matches Some(c) ==> connection_of_line(line@) == Some(c@),
    {
        if !contains(line, ",") || starts_with(line, "[") || starts_with(line, "Found") {
            return None;
        }
        let parts: Vec<String> = split_char(trim(line).as_str(), ',');
        let ghost ps = views(parts@);
        if parts.len() < 5 {
            return None;
        }
        assert(ps[0] == parts@[0]@ && ps[1] == parts@[1]@ && ps[2] == parts@[2]@ && ps[3]
            == parts@[3]@ && ps[4] == parts@[4]@);
        let host: String = trim(parts[1].as_str());
        let port: u16 = match parse_u16(trim(parts[2].as_str()).as_str()) {
            Some(p) => p,
            None => 0,
        };
        Some(
            ConnectionInfo {
                connection_id: trim(parts[0].as_str()),
                host: strip_end(strip_start(host.as_str(), '"').as_str(), '"'),
                port,
                language: trim(parts[3].as_str()),
                status: trim(parts[4].as_str()),
                safe_mode: false,
            },
        )
    }

    /// The connections that an answer to list_connections describes.
    pub fn parse_connections(json: &Json) -> (r: Vec<ConnectionInfo>)
        ensures
            connection_views(r@) == (match content_text(json@) {
                Some(text) => connections_of_text(text),
                None => Seq::empty(),
            }),
    {
        let mut out: Vec<ConnectionInfo> = Vec::new();
        assert(connection_views(out@) =~= Seq::<ConnectionInfoView>::empty());
        let text: String = match Self::extract_text(json) {
            Some(t) => t,
            None => {
                return out;
            },
        };
        let ls: Vec<String> = split_lines(text.as_str());
        let ghost vs = views(ls@);
        let mut i: usize = 0;
        while i < ls.len()
            invariant
                i <= ls.len(),
                vs == views(ls@),
                connection_views(out@) == connections_of_lines(vs, i as nat),
            decreases ls.len() - i,
        {
            assert(vs[i as int] == ls@[i as int]@);
            match Self::parse_connection_line(ls[i].as_str()) {
                Some(c) => {
                    let ghost before = out@;
                    out.push(c);
                    assert(connection_views(out@) =~= connection_views(before).push(c@));
                },
                None => {},
            }
            i = i + 1;
        }
        out
    }

    /// The id of the connection that an answer to create_connection names, or one made of host
    /// and port.
    pub fn connection_id(text: &str, host: &str, port: u16) -> (r: String)
        ensures
            r@ == connection_id_of(text@, host@, port),
    {
        match after_text(text, "connection_id: ") {
            Some(rest) => match until_char(rest.as_str(), ')') {
                Some(id) => trim(id.as_str()),
                None => trim(rest.as_str()),
            },
            None => match after_text(text, "\"connection_id\": \"") {
                Some(rest) => match until_char(rest.as_str(), '"') {
                    Some(id) => id,
                    None => String::new(),
                },
                None => cat3(
                    replace_char(host, '.', '_').as_str(),
                    "_",
                    num(port as u64).as_str(),
                ),
            },
        }
    }

    /// The connection that create_connection has made. `status` is what the daemon calls a
    /// connection that is up.
    pub fn created_connection(
        json: &Json,
        host: &str,
        port: u16,
        language: &str,
        status: &str,
    ) -> (r: ConnectionInfo)
        ensures
            r@ == (ConnectionInfoView {
                connection_id: connection_id_of(content_text_or_empty(json@), host@, port),
                host: host@,
                port,
                language: language@,
                status: status@,
                safe_mode: false,
            }),
    {
        let text: String = Self::text_or_empty(json);
        ConnectionInfo {
            connection_id: Self::connection_id(text.as_str(), host, port),
            host: host.to_owned(),
            port,
            language: language.to_owned(),
            status: status.to_owned(),
            safe_mode: false,
        }
    }

    /// The connection that get_connection has found: the answer says no more than that there is
    /// one.
    pub fn known_connection(connection_id: &str, status: &str) -> (r: ConnectionInfo)
        ensures
            r@ == (ConnectionInfoView {
                connection_id: connection_id@,
                host: "127.0.0.1"@,
                port: 5678,
                language: "python"@,
                status: status@,
                safe_mode: false,
            }),
    {
        ConnectionInfo {
            connection_id: connection_id.to_owned(),
            host: "127.0.0.1".to_owned(),
            port: 5678,
            language: "python".to_owned(),
            status: status.to_owned(),
            safe_mode: false,
        }
    }
}

// ---------------------------------------------------------------------------
// Numbers in texts
// ---------------------------------------------------------------------------

/// The first number, at most `max`, among the words from position `i` on.
pub open spec fn first_number(ws: Seq<Seq<char>>, max: nat, i: nat) -> Option<nat>
    decreases ws.len() - i,
{
    if i >= ws.len() {
        None
    } else {
        match parsed_unsigned(ws[i as int], max) {
            Some(n) => Some(n),
            None => first_number(ws, max, i + 1),
        }
    }
}

/// The first whole number of a text, or 0.
pub open spec fn first_number_or_zero(text: Seq<char>, max: nat) -> nat {
    match first_number(words(text), max, 0) {
        Some(n) => n,
        None => 0,
    }
}

/// The position of the first word from `i` on that is a signed number.
pub open spec fn first_signed_word(ws: Seq<Seq<char>>, i: nat) -> Option<Seq<char>>
    decreases ws.len() - i,
{
    if i >= ws.len() {
        None
    } else if parsed_signed(ws[i as int], i64::MIN as int, i64::MAX as int) is Some {
        Some(ws[i as int])
    } else {
        first_signed_word(ws, i + 1)
    }
}

/// The first line from position `i` on that holds `ID`.
pub open spec fn first_id_line(ls: Seq<Seq<char>>, i: nat) -> Option<Seq<char>>
    decreases ls.len() - i,
{
    if i >= ls.len() {
        None
    } else if has_text(ls[i as int], "ID"@) {
        Some(ls[i as int])
    } else {
        first_id_line(ls, i + 1)
    }
}

/// The id of the metric that an answer to add_metric names: the first number on the first line
/// that holds `ID`, or `0`.
pub open spec fn metric_id_of(text: Seq<char>) -> Seq<char> {
    match first_id_line(lines(text), 0) {
        Some(line) => match first_signed_word(words(line), 0) {
            Some(w) => w,
            None => "0"@,
        },
        None => "0"@,
    }
}

impl McpClient {
    /// The first whole number of a text, or 0.
    pub fn parse_metric_count(text: &str) -> (r: usize)
        ensures
            r == first_number_or_zero(text@, usize::MAX as nat),
    {
        let ws: Vec<String> = split_words(text);
        let ghost vs = views(ws@);
        let mut i: usize = 0;
        while i < ws.len()
            invariant
                i <= ws.len(),
                vs == views(ws@),
                vs == words(text@),
                first_number(vs, usize::MAX as nat, i as nat) == first_number(
                    vs,
                    usize::MAX as nat,
                    0,
                ),
            decreases ws.len() - i,
        {
            assert(vs[i as int] == ws@[i as int]@);
            match parse_usize(ws[i].as_str()) {
                Some(n) => {
                    return n;
                },
                None => {},
            }
            i = i + 1;
        }
        0
    }

    /// How many events an answer to acknowledge_events says were acknowledged.
    pub fn parse_acknowledged(text: &str) -> (r: u64)
        ensures
            r == first_number_or_zero(text@, u64::MAX as nat),
    {
        let ws: Vec<String> = split_words(text);
        let ghost vs = views(ws@);
        let mut i: usize = 0;
        while i < ws.len()
            invariant
                i <= ws.len(),
                vs == views(ws@),
                vs == words(text@),
                first_number(vs, u64::MAX as nat, i as nat) == first_number(vs, u64::MAX as nat, 0),
            decreases ws.len() - i,
        {
            assert(vs[i as int] == ws@[i as int]@);
            match parse_u64(ws[i].as_str()) {
                Some(n) => {
                    return n;
                },
                None => {},
            }
            i = i + 1;
        }
        0
    }

    fn signed_word(line: &str) -> (r: Option<String>)
        ensures
            opt_view(r) == first_signed_word(words(line@), 0),
    {
        let ws: Vec<String> = split_words(line);
        let ghost vs = views(ws@);
        let mut i: usize = 0;
        while i < ws.len()
            invariant
                i <= ws.len(),
                vs == views(ws@),
                vs == words(line@),
                first_signed_word(vs, i as nat) == first_signed_word(vs, 0),
            decreases ws.len() - i,
        {
            assert(vs[i as int] == ws@[i as int]@);
            if parse_i64(ws[i].as_str()).is_some() {
                return Some(ws[i].clone());
            }
            i = i + 1;
        }
        None
    }

    /// The id of the metric that an answer to add_metric names, or `0`.
    pub fn metric_id(text: &str) -> (r: String)
        ensures
            r@ == metric_id_of(text@),
    {
        let ls: Vec<String> = split_lines(text);
        let ghost vs = views(ls@);
        let mut i: usize = 0;
        while i < ls.len()
            invariant
                i <= ls.len(),
                vs == views(ls@),
                vs == lines(text@),
                first_id_line(vs, i as nat) == first_id_line(vs, 0),
            decreases ls.len() - i,
        {
            assert(vs[i as int] == ls@[i as int]@);
            if contains(ls[i].as_str(), "ID") {
                return match Self::signed_word(ls[i].as_str()) {
                    Some(w) => w,
                    None => "0".to_owned(),
                };
            }
            i = i + 1;
        }
        "0".to_owned()
    }

    /// The status that an answer to get_status describes: active or sleeping, with no numbers.
    pub fn status_of(text: &str) -> (r: StatusInfo)
        ensures
            r@ == (StatusInfoView {
                mode: if has_text(text@, "active"@) {
                    "active"@
                } else {
                    "sleeping"@
                },
                uptime_seconds: 0,
                active_connections: 0,
                total_metrics: 0,
                enabled_metrics: 0,
            }),
    {
        StatusInfo {
            mode: if contains(text, "active") {
                "active".to_owned()
            } else {
                "sleeping".to_owned()
            },
            uptime_seconds: 0,
            active_connections: 0,
            total_metrics: 0,
            enabled_metrics: 0,
        }
    }

    /// The finding that an answer to validate_expression gives.
    pub fn validation_of(text: &str) -> (r: ValidationResult)
        ensures
            r@ == (ValidationResultView {
                is_safe: has_text(text@, "SAFE"@) && !has_text(text@, "UNSAFE"@),
                issues: Seq::empty(),
            }),
    {
        let r = ValidationResult {
            is_safe: contains(text, "SAFE") && !contains(text, "UNSAFE"),
            issues: Vec::new(),
        };
        assert(r@.issues =~= Seq::<Seq<char>>::empty());
        r
    }

    /// The finding that an answer to validate_config gives.
    pub fn config_is_valid(text: &str) -> (r: bool)
        ensures
            r == has_text(text@, "valid"@),
    {
        contains(text, "valid")
    }
}

} // verus!
