//! The bridge process `detrix mcp`: how it is started, and the JSON-RPC messages that go over
//! its standard streams.

use vstd::prelude::*;

use crate::json::{
    json_of_text, json_to_text, json_views, number_view, opt_json_view, parse_json, parse_view,
    text_of_json, Json, JsonObject, JsonView,
};
use crate::mcp::content_texts;
use crate::process::env_views;
use crate::text::{
    cat2, chars_of, find_char, index_of_char, join, joined, slice_string, trim, trimmed, views,
};

pub mod laws;

verus! {

/// How a bridge process is started.
#[derive(Debug)]
pub struct BridgeCommand {
    pub args: Vec<String>,
    /// Variables and their values.
    pub env: Vec<(String, String)>,
}

/// How a bridge process for a daemon is started.
pub fn bridge_command(daemon_url: &str, token: &str, file_server_host: Option<&str>) -> (r:
    BridgeCommand)
    ensures
        views(r.args@) == seq!["mcp"@, "--daemon-url"@, daemon_url@],
        env_views(r.env@) == (match file_server_host {
            Some(host) => seq![
                ("DETRIX_TOKEN"@, token@),
                ("DETRIX_FILE_SERVER_HOST"@, host@),
            ],
            None => seq![("DETRIX_TOKEN"@, token@)],
        }),
{
    let args: Vec<String> = vec![
        "mcp".to_owned(),
        "--daemon-url".to_owned(),
        daemon_url.to_owned(),
    ];
    let mut env: Vec<(String, String)> = Vec::new();
    env.push(("DETRIX_TOKEN".to_owned(), token.to_owned()));
    match file_server_host {
        Some(host) => {
            env.push(("DETRIX_FILE_SERVER_HOST".to_owned(), host.to_owned()));
            assert(env_views(env@) =~= seq![
                ("DETRIX_TOKEN"@, token@),
                ("DETRIX_FILE_SERVER_HOST"@, host@),
            ]);
        },
        None => {
            assert(env_views(env@) =~= seq![("DETRIX_TOKEN"@, token@)]);
        },
    }
    assert(views(args@) =~= seq!["mcp"@, "--daemon-url"@, daemon_url@]);
    BridgeCommand { args, env }
}

/// The requests of one bridge process, numbered from 1.
#[derive(Debug)]
pub struct McpBridgeProcess {
    pub next_id: u64,
}

/// The request that opens a session.
pub open spec fn initialize_message(id: u64) -> JsonView {
    JsonView::Object(
        seq![
            ("jsonrpc"@, JsonView::Str("2.0"@)),
            ("method"@, JsonView::Str("initialize"@)),
            (
                "params"@,
                JsonView::Object(
                    seq![
                        ("protocolVersion"@, JsonView::Str("2024-11-05"@)),
                        ("capabilities"@, JsonView::Object(Seq::empty())),
                        (
                            "clientInfo"@,
                            JsonView::Object(
                                seq![
                                    ("name"@, JsonView::Str("e2e-bridge"@)),
                                    ("version"@, JsonView::Str("1.0"@)),
                                ],
                            ),
                        ),
                    ],
                ),
            ),
            ("id"@, number_view(id as int)),
        ],
    )
}

/// The notification that a session is open.
pub open spec fn initialized_message() -> JsonView {
    JsonView::Object(
        seq![
            ("jsonrpc"@, JsonView::Str("2.0"@)),
            ("method"@, JsonView::Str("notifications/initialized"@)),
        ],
    )
}

/// The request that calls a tool.
pub open spec fn call_message(id: u64, name: Seq<char>, args: JsonView) -> JsonView {
    JsonView::Object(
        seq![
            ("jsonrpc"@, JsonView::Str("2.0"@)),
            ("method"@, JsonView::Str("tools/call"@)),
            (
                "params"@,
                JsonView::Object(seq![("name"@, JsonView::Str(name)), ("arguments"@, args)]),
            ),
            ("id"@, number_view(id as int)),
        ],
    )
}

impl McpBridgeProcess {
    /// What is written for a message: its JSON on a line of its own.
    pub fn write_message(message: &Json) -> (r: String)
        ensures
            r@ == text_of_json(message@) + "\n"@,
    {
        cat2(json_to_text(message).as_str(), "\n")
    }

    /// A process that has had no request yet.
    pub fn new() -> (r: Self)
        ensures
            r.next_id == 1,
    {
        McpBridgeProcess { next_id: 1 }
    }

    /// The request that opens the session.
    pub fn initialize(&mut self) -> (r: Json)
        requires
            old(self).next_id < u64::MAX,
        ensures
            r@ == initialize_message(old(self).next_id),
            final(self).next_id == old(self).next_id + 1,
    {
        let id: u64 = self.next_id;
        self.next_id = self.next_id + 1;
        let mut info: JsonObject = JsonObject::new();
        info.put_str("name", "e2e-bridge");
        info.put_str("version", "1.0");
        assert(info@ =~= seq![
            ("name"@, JsonView::Str("e2e-bridge"@)),
            ("version"@, JsonView::Str("1.0"@)),
        ]);
        let mut params: JsonObject = JsonObject::new();
        params.put_str("protocolVersion", "2024-11-05");
        params.put("capabilities", JsonObject::new().finish());
        params.put("clientInfo", info.finish());
        let ghost whole = initialize_message(id)->Object_0;
        assert(params@ =~= whole[2].1->Object_0);
        let mut body: JsonObject = JsonObject::new();
        body.put_str("jsonrpc", "2.0");
        body.put_str("method", "initialize");
        body.put("params", params.finish());
        body.put("id", Json::unsigned(id));
        assert(body@ =~= whole);
        body.finish()
    }

    /// The notification that the session is open.
    pub fn initialized() -> (r: Json)
        ensures
            r@ == initialized_message(),
    {
        let mut body: JsonObject = JsonObject::new();
        body.put_str("jsonrpc", "2.0");
        body.put_str("method", "notifications/initialized");
        assert(body@ =~= initialized_message()->Object_0);
        body.finish()
    }

    /// The request that calls a tool.
    pub fn call_tool(&mut self, name: &str, args: Json) -> (r: Json)
        requires
            old(self).next_id < u64::MAX,
        ensures
            r@ == call_message(old(self).next_id, name@, args@),
            final(self).next_id == old(self).next_id + 1,
    {
        let id: u64 = self.next_id;
        self.next_id = self.next_id + 1;
        let ghost whole = call_message(id, name@, args@)->Object_0;
        let mut params: JsonObject = JsonObject::new();
        params.put_str("name", name);
        params.put("arguments", args);
        assert(params@ =~= whole[2].1->Object_0);
        let mut body: JsonObject = JsonObject::new();
        body.put_str("jsonrpc", "2.0");
        body.put_str("method", "tools/call");
        body.put("params", params.finish());
        body.put("id", Json::unsigned(id));
        assert(body@ =~= whole);
        body.finish()
    }
}

/// A value is a response: it has an id that is not null. Notifications have none.
pub open spec fn is_response(value: JsonView) -> bool {
    value.field("id"@) is Some && value.field("id"@) != Some(JsonView::Null)
}

/// The response on a line, if the line is one.
pub open spec fn response_of(parsed: Result<JsonView, Seq<char>>) -> Option<JsonView> {
    match parsed {
        Ok(v) => if is_response(v) {
            Some(v)
        } else {
            None
        },
        Err(_) => None,
    }
}

/// The response among the readings of a line, if it is one.
pub fn accept_response(parsed: Result<Json, String>) -> (r: Option<Json>)
    ensures
        opt_json_view(r) == response_of(parse_view(parsed)),
{
    match parsed {
        Ok(v) => {
            let is_response: bool = match v.get("id") {
                Some(Json::Null) => false,
                Some(_) => true,
                None => false,
            };
            if is_response {
                Some(v)
            } else {
                None
            }
        },
        Err(_) => None,
    }
}

/// The response on a line, if the line is one.
pub fn read_response(line: &str) -> (r: Option<Json>)
    ensures
        opt_json_view(r) == response_of(json_of_text(trimmed(line@))),
{
    accept_response(parse_json(trim(line).as_str()))
}

/// The text of a tool result: the texts of its content, one per line.
pub open spec fn result_text(result: JsonView) -> Seq<char> {
    match result.items_field("content"@) {
        Some(items) => joined(content_texts(items, items.len()), "\n"@),
        None => Seq::empty(),
    }
}

/// The text of a tool result.
pub fn extract_text(result: &Json) -> (r: String)
    ensures
        r@ == result_text(result@),
{
    match result.get_array("content") {
        Some(items) => {
            let ghost vs = json_views(items@);
            assert(vs =~= items@.map_values(|j: Json| j@));
            let mut texts: Vec<String> = Vec::new();
            assert(views(texts@) =~= Seq::<Seq<char>>::empty());
            let mut i: usize = 0;
            while i < items.len()
                invariant
                    i <= items.len(),
                    vs == json_views(items@),
                    views(texts@) == content_texts(vs, i as nat),
                decreases items.len() - i,
            {
                assert(vs[i as int] == items@[i as int]@);
                match items[i].get_str("text") {
                    Some(t) => {
                        let ghost before = texts@;
                        let owned: String = t.to_owned();
                        texts.push(owned);
                        assert(views(texts@) =~= views(before).push(owned@));
                    },
                    None => {},
                }
                i = i + 1;
            }
            join(&texts, "\n")
        },
        None => String::new(),
    }
}

/// What a response to a tool call means: the result, or the text of the error.
pub open spec fn tool_outcome(response: JsonView) -> Result<JsonView, Seq<char>> {
    match response.field("error"@) {
        Some(error) => Err("JSON-RPC error: "@ + text_of_json(error)),
        None => match response.field("result"@) {
            Some(result) => if result.field("isError"@) == Some(JsonView::Bool(true)) {
                Err("Tool error: "@ + result_text(result))
            } else {
                Ok(result)
            },
            None => Err("no result"@),
        },
    }
}

/// What a response to a tool call means.
pub fn tool_result(response: &Json) -> (r: Result<Json, String>)
    ensures
        parse_view(r) == tool_outcome(response@),
{
    match response.get("error") {
        Some(error) => {
            return Err(cat2("JSON-RPC error: ", json_to_text(error).as_str()));
        },
        None => {},
    }
    match response.get("result") {
        Some(result) => {
            let is_error: bool = match result.get("isError") {
                Some(Json::Bool(true)) => true,
                _ => false,
            };
            if is_error {
                Err(cat2("Tool error: ", extract_text(result).as_str()))
            } else {
                Ok(result.duplicate())
            }
        },
        None => Err("no result".to_owned()),
    }
}

/// The names among the first `n` values.
pub open spec fn names_of(items: Seq<JsonView>, n: nat) -> Seq<Seq<char>>
    decreases n,
{
    if n == 0 {
        Seq::empty()
    } else {
        let rest = names_of(items, (n - 1) as nat);
        match items[n - 1].str_field("name"@) {
            Some(name) => rest.push(name),
            None => rest,
        }
    }
}

/// The names in a list of metrics that was read, or the error of reading it.
pub open spec fn names_in(parsed: Result<JsonView, Seq<char>>) -> Result<Seq<Seq<char>>, Seq<char>> {
    match parsed {
        Ok(j) => Ok(
            match j.items() {
                Some(items) => names_of(items, items.len()),
                None => Seq::empty(),
            },
        ),
        Err(e) => Err("Failed to parse list_metrics JSON: "@ + e),
    }
}

/// The view of a list of names.
pub open spec fn names_view(r: Result<Vec<String>, String>) -> Result<Seq<Seq<char>>, Seq<char>> {
    match r {
        Ok(names) => Ok(views(names@)),
        Err(e) => Err(e@),
    }
}

/// The text from its first bracket on.
pub open spec fn from_bracket(text: Seq<char>) -> Option<Seq<char>> {
    let k = index_of_char(text, '[') as int;
    if k < text.len() {
        Some(text.subrange(k, text.len() as int))
    } else {
        None
    }
}

/// The names in a list of metrics that was read.
pub fn metric_names(parsed: Result<Json, String>) -> (r: Result<Vec<String>, String>)
    ensures
        names_view(r) == names_in(parse_view(parsed)),
{
    let mut names: Vec<String> = Vec::new();
    assert(views(names@) =~= Seq::<Seq<char>>::empty());
    match parsed {
        Ok(j) => match j.as_array() {
            Some(items) => {
                let ghost vs = json_views(items@);
                assert(vs =~= items@.map_values(|j: Json| j@));
                let mut i: usize = 0;
                while i < items.len()
                    invariant
                        i <= items.len(),
                        vs == json_views(items@),
                        views(names@) == names_of(vs, i as nat),
                    decreases items.len() - i,
                {
                    assert(vs[i as int] == items@[i as int]@);
                    match items[i].get_str("name") {
                        Some(n) => {
                            let ghost before = names@;
                            let owned: String = n.to_owned();
                            names.push(owned);
                            assert(views(names@) =~= views(before).push(owned@));
                        },
                        None => {},
                    }
                    i = i + 1;
                }
                Ok(names)
            },
            None => Ok(names),
        },
        Err(e) => Err(cat2("Failed to parse list_metrics JSON: ", e.as_str())),
    }
}

/// The names of the metrics in the text of a list_metrics result.
pub fn list_metric_names(text: &str) -> (r: Result<Vec<String>, String>)
    ensures
        names_view(r) == (match from_bracket(text@) {
            Some(list) => names_in(json_of_text(list)),
            None => Err("No JSON array found in list_metrics output: "@ + text@),
        }),
{
    let v: Vec<char> = chars_of(text);
    assert(v@.subrange(0, v@.len() as int) =~= v@);
    let k: usize = find_char(&v, '[', 0);
    if k < v.len() {
        metric_names(parse_json(slice_string(&v, k, v.len()).as_str()))
    } else {
        Err(cat2("No JSON array found in list_metrics output: ", text))
    }
}

} // verus!
