//! What the messages to the bridge hold, and which of its responses are errors.

use vstd::prelude::*;

use crate::json::{
    holds_number, holds_text, lemma_field_absent, lemma_field_at, number_view, text_of_json,
    JsonView,
};
use crate::mcp_bridge::{
    call_message, from_bracket, initialize_message, initialized_message, names_in, names_of,
    response_of, tool_outcome,
};
use crate::text::{index_of_char, lemma_index_of_char, outline};

verus! {

/// A tool call succeeds exactly where its response has no `error`, and has a result that does not
/// set `isError`; what it gives is that result.
pub proof fn law_successful_calls(response: JsonView)
    ensures
        tool_outcome(response) is Ok <==> {
            &&& response.field("error"@) is None
            &&& response.field("result"@) is Some
            &&& response.field("result"@)->0.field("isError"@) != Some(JsonView::Bool(true))
        },
        tool_outcome(response) matches Ok(value) ==> response.field("result"@) == Some(value),
{
}

/// A text starts with another.
pub open spec fn starts_with(text: Seq<char>, start: Seq<char>) -> bool {
    start.len() <= text.len() && text.subrange(0, start.len() as int) == start
}

/// A call that fails says why: the error of the response before anything else, then that there is
/// no result, then that the tool failed.
pub proof fn law_failed_calls(response: JsonView)
    requires
        tool_outcome(response) is Err,
    ensures
        response.field("error"@) matches Some(error) ==> tool_outcome(response)->Err_0
            == "JSON-RPC error: "@ + text_of_json(error),
        response.field("error"@) is None && response.field("result"@) is None
            ==> tool_outcome(response)->Err_0 == "no result"@,
        response.field("error"@) is None && response.field("result"@) is Some ==> starts_with(
            tool_outcome(response)->Err_0,
            "Tool error: "@,
        ),
{
    if response.field("error"@) is None && response.field("result"@) is Some {
        let why = tool_outcome(response)->Err_0;
        assert(why.subrange(0, "Tool error: "@.len() as int) =~= "Tool error: "@);
    }
}

/// A line is a response exactly where it can be read and its `id` is there and not null; what is
/// handed on is what was read. Notifications and lines that are no JSON are passed over.
pub proof fn law_responses(parsed: Result<JsonView, Seq<char>>)
    ensures
        response_of(parsed) is Some <==> {
            &&& parsed is Ok
            &&& parsed->Ok_0.field("id"@) is Some
            &&& parsed->Ok_0.field("id"@)->0 !is Null
        },
        response_of(parsed) matches Some(value) ==> parsed == Ok::<JsonView, Seq<char>>(value),
{
}

/// What tells the names apart.
proof fn lemma_names()
    ensures
        outline("jsonrpc"@) == (7nat, 'j', 'c', 'n', 'p'),
        outline("method"@) == (6nat, 'm', 'd', 'h', 'o'),
        outline("params"@) == (6nat, 'p', 's', 'a', 'm'),
        outline("id"@) == (2nat, 'i', 'd', 'd', 'd'),
        outline("name"@) == (4nat, 'n', 'e', 'm', 'e'),
        outline("arguments"@) == (9nat, 'a', 's', 'm', 'n'),
        outline("protocolVersion"@) == (15nat, 'p', 'n', 'l', 's'),
        outline("capabilities"@) == (12nat, 'c', 's', 'l', 'i'),
        outline("clientInfo"@) == (10nat, 'c', 'o', 't', 'n'),
        outline("version"@) == (7nat, 'v', 'n', 's', 'o'),
{
    reveal_strlit("jsonrpc");
    reveal_strlit("method");
    reveal_strlit("params");
    reveal_strlit("id");
    reveal_strlit("name");
    reveal_strlit("arguments");
    reveal_strlit("protocolVersion");
    reveal_strlit("capabilities");
    reveal_strlit("clientInfo");
    reveal_strlit("version");
}

/// The entries of a message with a number.
proof fn lemma_message_fields(
    version: JsonView,
    method: JsonView,
    params: JsonView,
    id: JsonView,
)
    ensures
        ({
            let message = JsonView::Object(
                seq![
                    ("jsonrpc"@, version),
                    ("method"@, method),
                    ("params"@, params),
                    ("id"@, id),
                ],
            );
            &&& message.field("jsonrpc"@) == Some(version)
            &&& message.field("method"@) == Some(method)
            &&& message.field("params"@) == Some(params)
            &&& message.field("id"@) == Some(id)
        }),
{
    lemma_names();
    let entries = seq![
        ("jsonrpc"@, version),
        ("method"@, method),
        ("params"@, params),
        ("id"@, id),
    ];
    lemma_field_at(entries, "jsonrpc"@, 0);
    lemma_field_at(entries, "method"@, 1);
    lemma_field_at(entries, "params"@, 2);
    lemma_field_at(entries, "id"@, 3);
}

/// A tool call names the tool, carries its arguments unchanged and has the number that its
/// response is told by.
pub proof fn law_call_messages(id: u64, name: Seq<char>, args: JsonView)
    ensures
        ({
            let message = call_message(id, name, args);
            &&& holds_text(message, "jsonrpc"@, Some("2.0"@))
            &&& holds_text(message, "method"@, Some("tools/call"@))
            &&& holds_number(message, "id"@, Some(id as int))
            &&& message.field("params"@) is Some
            &&& holds_text(message.field("params"@)->0, "name"@, Some(name))
            &&& message.field("params"@)->0.field("arguments"@) == Some(args)
        }),
{
    let entries = seq![("name"@, JsonView::Str(name)), ("arguments"@, args)];
    lemma_names();
    lemma_field_at(entries, "name"@, 0);
    lemma_field_at(entries, "arguments"@, 1);
    lemma_message_fields(
        JsonView::Str("2.0"@),
        JsonView::Str("tools/call"@),
        JsonView::Object(entries),
        number_view(id as int),
    );
}

/// The first message introduces the client and has a number; the second has none, so that no
/// response to it is waited for.
pub proof fn law_greeting_messages(id: u64)
    ensures
        ({
            let first = initialize_message(id);
            let second = initialized_message();
            &&& holds_text(first, "jsonrpc"@, Some("2.0"@))
            &&& holds_text(first, "method"@, Some("initialize"@))
            &&& holds_number(first, "id"@, Some(id as int))
            &&& first.field("params"@) is Some
            &&& holds_text(first.field("params"@)->0, "protocolVersion"@, Some("2024-11-05"@))
            &&& first.field("params"@)->0.field("clientInfo"@) is Some
            &&& holds_text(
                first.field("params"@)->0.field("clientInfo"@)->0,
                "name"@,
                Some("e2e-bridge"@),
            )
            &&& holds_text(second, "jsonrpc"@, Some("2.0"@))
            &&& holds_text(second, "method"@, Some("notifications/initialized"@))
            &&& second.field("id"@) is None
        }),
{
    lemma_names();
    let info = seq![("name"@, JsonView::Str("e2e-bridge"@)), ("version"@, JsonView::Str("1.0"@))];
    lemma_field_at(info, "name"@, 0);
    let params = seq![
        ("protocolVersion"@, JsonView::Str("2024-11-05"@)),
        ("capabilities"@, JsonView::Object(Seq::empty())),
        ("clientInfo"@, JsonView::Object(info)),
    ];
    lemma_field_at(params, "protocolVersion"@, 0);
    lemma_field_at(params, "clientInfo"@, 2);
    lemma_message_fields(
        JsonView::Str("2.0"@),
        JsonView::Str("initialize"@),
        JsonView::Object(params),
        number_view(id as int),
    );
    let second = seq![
        ("jsonrpc"@, JsonView::Str("2.0"@)),
        ("method"@, JsonView::Str("notifications/initialized"@)),
    ];
    lemma_field_at(second, "jsonrpc"@, 0);
    lemma_field_at(second, "method"@, 1);
    lemma_field_absent(second, "id"@);
}

/// Names come out in the order of their items: an item behind the others adds its name behind
/// theirs, and nothing where it has no name that is a text.
pub proof fn law_names_keep_their_order(items: Seq<JsonView>, item: JsonView)
    ensures
        names_in(Ok(JsonView::Array(Seq::empty()))) == Ok::<Seq<Seq<char>>, Seq<char>>(
            Seq::empty(),
        ),
        names_in(Ok(JsonView::Array(items))) is Ok,
        names_in(Ok(JsonView::Array(items.push(item)))) == Ok::<Seq<Seq<char>>, Seq<char>>(
            match item.field("name"@) {
                Some(JsonView::Str(name)) => names_in(Ok(JsonView::Array(items)))->Ok_0.push(name),
                _ => names_in(Ok(JsonView::Array(items)))->Ok_0,
            },
        ),
{
    let longer = items.push(item);
    assert(longer[longer.len() - 1] == item);
    lemma_names_prefix(items, longer, items.len());
}

proof fn lemma_names_prefix(items: Seq<JsonView>, longer: Seq<JsonView>, n: nat)
    requires
        n <= items.len() <= longer.len(),
        forall|i: int| 0 <= i < items.len() ==> #[trigger] longer[i] == items[i],
    ensures
        names_of(longer, n) == names_of(items, n),
    decreases n,
{
    if n > 0 {
        lemma_names_prefix(items, longer, (n - 1) as nat);
        assert(longer[n - 1] == items[n - 1]);
    }
}

/// A list starts at the first bracket of a text: it is the rest of the text from there on, and
/// there is none exactly where the text has no bracket.
pub proof fn law_lists_start_at_a_bracket(text: Seq<char>)
    ensures
        from_bracket(text) is Some <==> text.contains('['),
        from_bracket(text) matches Some(list) ==> {
            &&& list.len() > 0 && list[0] == '['
            &&& exists|before: Seq<char>| text == #[trigger] (before + list) && !before.contains('[')
        },
{
    lemma_index_of_char(text, '[');
    let k = index_of_char(text, '[') as int;
    if k < text.len() {
        let before = text.subrange(0, k);
        let list = text.subrange(k, text.len() as int);
        assert(text =~= before + list);
        assert(text[k] == '[');
        assert(!before.contains('['));
    }
}

} // verus!
