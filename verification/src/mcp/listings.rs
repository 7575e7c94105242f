//! What is read from the listings and reports of the MCP backend.

use vstd::prelude::*;

use crate::client::{
    DiffMetricAddedView, DiffMetricFailedView, DiffMetricNeedsReviewView, EventInfo,
    GroupInfoView, McpUsageInfo, MetricInfoView,
};
use crate::exchange::ActionView;
use crate::json::{holds_number, holds_text, JsonView};
use crate::mcp::answers::{first_found, missing_in, McpReading};
use crate::mcp::notices::{notice_of_line, notices_of};
use crate::mcp::observe::{
    added_of, all_added, all_failed, all_reviews, alternatives_of, diff_of_json, embedded_json,
    failed_of, observe_of_json, observe_of_text, review_of, texts_of,
};
use crate::mcp::tables::{
    events_of, group_of_json, indent, least_indent, list_data, metric_of_json, metrics_of_json,
    read_ones, scan_lines, without_summary,
};
use crate::mcp::{
    connection_id_of, connection_of_line, connections_of_lines, content_text,
    content_text_or_empty, first_id_line, first_signed_word, metric_id_of,
};
use crate::text::laws::{law_found_texts, law_text_after, law_trimmed_of_a_character};
use crate::text::{
    before_char, decimal, has_prefix, has_text, lines, parsed_signed, parsed_unsigned, pieces,
    replaced, text_after, trim_char_start, trimmed, words,
};

verus! {

/// A text under a key; `unknown` where there is none.
pub open spec fn text_or_unknown(json: JsonView, key: Seq<char>) -> Seq<char> {
    match json.field(key) {
        Some(JsonView::Str(text)) => text,
        _ => "unknown"@,
    }
}

/// An observation that is reported as JSON succeeded exactly where the report says so. Its metric
/// and its context are read from theirs.
pub proof fn law_observations(json: JsonView, metric: JsonView, context: JsonView)
    requires
        json.field("metric"@) == Some(metric),
        json.field("context"@) == Some(context),
    ensures
        ({
            let r = observe_of_json(json);
            &&& r.success <==> json.field("success"@) == Some(JsonView::Bool(true))
            &&& r.metric_name == text_or_unknown(metric, "name"@)
            &&& r.expression == text_or_unknown(metric, "expression"@)
            &&& r.line_source == text_or_unknown(context, "line_source"@)
            &&& r.connection_id == text_or_unknown(context, "connection_id"@)
            &&& forall|id: i64|
                #[trigger] holds_number(metric, "id"@, Some(id as int)) ==> r.metric_id == id
            &&& metric.field("id"@) is None ==> r.metric_id == 0
            &&& context.field("alternatives"@) matches Some(JsonView::Array(items)) ==> r.alternatives
                == alternatives_of(items, items.len())
            &&& json.field("warnings"@) matches Some(JsonView::Array(items)) ==> r.warnings
                == texts_of(items, items.len())
        }),
{
}

/// An observation that is reported in words succeeded exactly where no error is named.
pub proof fn law_observations_in_words(text: Seq<char>)
    ensures
        observe_of_text(text).success <==> !(has_text(text, "Error"@) || has_text(text, "error:"@)),
        observe_of_text(text).alternatives.len() == 0,
        observe_of_text(text).warnings.len() == 0,
{
}

/// What came of a diff succeeded exactly where the report says so; each of its three lists is read
/// from the list of that name, and is empty where there is none.
pub proof fn law_diff_reports(json: JsonView)
    ensures
        ({
            let r = diff_of_json(json);
            &&& r.success <==> json.field("success"@) == Some(JsonView::Bool(true))
            &&& r.connection_id == text_or_unknown(json, "connection_id"@)
            &&& match json.field("added"@) {
                Some(JsonView::Array(items)) => r.added == all_added(items, items.len()),
                _ => r.added.len() == 0,
            }
            &&& match json.field("failed"@) {
                Some(JsonView::Array(items)) => r.failed == all_failed(items, items.len()),
                _ => r.failed.len() == 0,
            }
            &&& match json.field("needs_review"@) {
                Some(JsonView::Array(items)) => r.needs_review == all_reviews(items, items.len()),
                _ => r.needs_review.len() == 0,
            }
        }),
{
}

/// What a diff added, could not add, or leaves to be looked at is read back as it was written.
pub proof fn law_diff_items(
    item: JsonView,
    name: Seq<char>,
    file: Seq<char>,
    line: u32,
    id: i64,
    statement: Seq<char>,
    told: Seq<char>,
)
    requires
        holds_text(item, "file"@, Some(file)),
        holds_number(item, "line"@, Some(line as int)),
    ensures
        holds_text(item, "name"@, Some(name)) && holds_number(item, "id"@, Some(id as int))
            ==> added_of(item) == Some(DiffMetricAddedView { name, file, line, id }),
        holds_text(item, "statement"@, Some(statement)) && holds_text(item, "error"@, Some(told))
            ==> failed_of(item) == Some(
            DiffMetricFailedView { file, line, statement, error: told },
        ),
        holds_text(item, "statement"@, Some(statement)) && holds_text(
            item,
            "suggested_expression"@,
            Some(told),
        ) ==> review_of(item) == Some(
            DiffMetricNeedsReviewView { file, line, statement, suggested_expression: told },
        ),
{
    assert((line as u64) % 0x1_0000_0000 == line as u64);
}

/// Added metrics come in the order of the report; an item that is not whole is passed over.
pub proof fn law_added_metrics(items: Seq<JsonView>, item: JsonView)
    ensures
        all_added(Seq::empty(), 0) == Seq::<DiffMetricAddedView>::empty(),
        all_added(items.push(item), items.len() + 1) == (match added_of(item) {
            Some(m) => all_added(items, items.len()).push(m),
            None => all_added(items, items.len()),
        }),
{
    let longer = items.push(item);
    assert(longer[longer.len() - 1] == item);
    lemma_all_added_prefix(items, longer, items.len());
}

proof fn lemma_all_added_prefix(items: Seq<JsonView>, longer: Seq<JsonView>, n: nat)
    requires
        n <= items.len() <= longer.len(),
        forall|i: int| 0 <= i < items.len() ==> #[trigger] longer[i] == items[i],
    ensures
        all_added(longer, n) == all_added(items, n),
    decreases n,
{
    if n > 0 {
        lemma_all_added_prefix(items, longer, (n - 1) as nat);
        assert(longer[n - 1] == items[n - 1]);
    }
}

/// Metrics that failed come in the order of the report; an item that is not whole is passed over.
pub proof fn law_failed_metrics(items: Seq<JsonView>, item: JsonView)
    ensures
        all_failed(Seq::empty(), 0) == Seq::<DiffMetricFailedView>::empty(),
        all_failed(items.push(item), items.len() + 1) == (match failed_of(item) {
            Some(m) => all_failed(items, items.len()).push(m),
            None => all_failed(items, items.len()),
        }),
{
    let longer = items.push(item);
    assert(longer[longer.len() - 1] == item);
    lemma_all_failed_prefix(items, longer, items.len());
}

proof fn lemma_all_failed_prefix(items: Seq<JsonView>, longer: Seq<JsonView>, n: nat)
    requires
        n <= items.len() <= longer.len(),
        forall|i: int| 0 <= i < items.len() ==> #[trigger] longer[i] == items[i],
    ensures
        all_failed(longer, n) == all_failed(items, n),
    decreases n,
{
    if n > 0 {
        lemma_all_failed_prefix(items, longer, (n - 1) as nat);
        assert(longer[n - 1] == items[n - 1]);
    }
}

/// Metrics to be looked at come in the order of the report; an item that is not whole is passed
/// over.
pub proof fn law_reviews(items: Seq<JsonView>, item: JsonView)
    ensures
        all_reviews(Seq::empty(), 0) == Seq::<DiffMetricNeedsReviewView>::empty(),
        all_reviews(items.push(item), items.len() + 1) == (match review_of(item) {
            Some(m) => all_reviews(items, items.len()).push(m),
            None => all_reviews(items, items.len()),
        }),
{
    let longer = items.push(item);
    assert(longer[longer.len() - 1] == item);
    lemma_all_reviews_prefix(items, longer, items.len());
}

proof fn lemma_all_reviews_prefix(items: Seq<JsonView>, longer: Seq<JsonView>, n: nat)
    requires
        n <= items.len() <= longer.len(),
        forall|i: int| 0 <= i < items.len() ==> #[trigger] longer[i] == items[i],
    ensures
        all_reviews(longer, n) == all_reviews(items, n),
    decreases n,
{
    if n > 0 {
        lemma_all_reviews_prefix(items, longer, (n - 1) as nat);
        assert(longer[n - 1] == items[n - 1]);
    }
}

/// Metrics come in the order of the listing; an item without a name is passed over.
pub proof fn law_listed_metrics(items: Seq<JsonView>, item: JsonView)
    ensures
        metrics_of_json(Seq::empty(), 0) == Seq::<MetricInfoView>::empty(),
        metrics_of_json(items.push(item), items.len() + 1) == (match metric_of_json(item) {
            Some(m) => metrics_of_json(items, items.len()).push(m),
            None => metrics_of_json(items, items.len()),
        }),
{
    let longer = items.push(item);
    assert(longer[longer.len() - 1] == item);
    lemma_metrics_of_json_prefix(items, longer, items.len());
}

proof fn lemma_metrics_of_json_prefix(items: Seq<JsonView>, longer: Seq<JsonView>, n: nat)
    requires
        n <= items.len() <= longer.len(),
        forall|i: int| 0 <= i < items.len() ==> #[trigger] longer[i] == items[i],
    ensures
        metrics_of_json(longer, n) == metrics_of_json(items, n),
    decreases n,
{
    if n > 0 {
        lemma_metrics_of_json_prefix(items, longer, (n - 1) as nat);
        assert(longer[n - 1] == items[n - 1]);
    }
}

/// Events that could be read come in the order of their blocks; a block that could not be read is
/// passed over.
pub proof fn law_read_events(items: Seq<Option<EventInfo>>, item: Option<EventInfo>)
    ensures
        read_ones(Seq::empty(), 0) == Seq::<EventInfo>::empty(),
        read_ones(items.push(item), items.len() + 1) == (match item {
            Some(m) => read_ones(items, items.len()).push(m),
            None => read_ones(items, items.len()),
        }),
{
    let longer = items.push(item);
    assert(longer[longer.len() - 1] == item);
    lemma_read_ones_prefix(items, longer, items.len());
}

proof fn lemma_read_ones_prefix(items: Seq<Option<EventInfo>>, longer: Seq<Option<EventInfo>>, n: nat)
    requires
        n <= items.len() <= longer.len(),
        forall|i: int| 0 <= i < items.len() ==> #[trigger] longer[i] == items[i],
    ensures
        read_ones(longer, n) == read_ones(items, n),
    decreases n,
{
    if n > 0 {
        lemma_read_ones_prefix(items, longer, (n - 1) as nat);
        assert(longer[n - 1] == items[n - 1]);
    }
}

/// A metric that is listed has a name; it is enabled unless the listing says that it is not. Its
/// expression is the first of its expressions.
pub proof fn law_listed_metric(item: JsonView)
    ensures
        metric_of_json(item) is Some <==> (item.field("name"@) matches Some(v) && v is Str),
        metric_of_json(item) matches Some(m) ==> {
            &&& item.field("name"@) == Some(JsonView::Str(m.name))
            &&& !m.enabled <==> item.field("enabled"@) == Some(JsonView::Bool(false))
            &&& item.field("group"@) matches Some(JsonView::Str(group)) ==> m.group == Some(group)
            &&& item.field("mode"@) matches Some(JsonView::Str(mode)) ==> m.mode == Some(mode)
            &&& item.field("location"@) matches Some(JsonView::Str(place)) ==> m.location == place
            &&& m.expressions.len() > 0 ==> m.expression == m.expressions[0]
            &&& m.expressions.len() == 0 ==> m.expression == ""@
            &&& item.field("expressions"@) is None ==> (item.field("expression"@) matches Some(
                JsonView::Str(e),
            ) ==> m.expressions == seq![e])
        },
{
}

/// A group that is listed is read back as it was written.
pub proof fn law_listed_group(item: JsonView, name: Seq<char>, metrics: u32, enabled: u32)
    requires
        holds_text(item, "name"@, Some(name)),
        holds_number(item, "metric_count"@, Some(metrics as int)),
        holds_number(item, "enabled_count"@, Some(enabled as int)),
    ensures
        group_of_json(item) == Some(
            GroupInfoView { name, metric_count: metrics, enabled_count: enabled },
        ),
{
    assert((metrics as int) % 0x1_0000_0000 == metrics as int);
    assert((enabled as int) % 0x1_0000_0000 == enabled as int);
}

/// A reading in the first form that could be read wins; only where none could, the blocks that
/// could be read by themselves are taken.
pub proof fn law_first_reading_wins(
    toon: Option<Vec<EventInfo>>,
    data: Option<Vec<EventInfo>>,
    text: Option<Vec<EventInfo>>,
    blocks: Seq<Option<EventInfo>>,
)
    ensures
        toon matches Some(list) ==> events_of(toon, data, text, blocks) == list@,
        toon is None ==> (data matches Some(list) ==> events_of(toon, data, text, blocks) == list@),
        toon is None && data is None ==> (text matches Some(list) ==> events_of(
            toon,
            data,
            text,
            blocks,
        ) == list@),
        toon is None && data is None && text is None ==> events_of(toon, data, text, blocks)
            == read_ones(blocks, blocks.len()),
{
}

/// The summary lines at the head of a listing are dropped, and nothing else: what is left is the
/// rest of the lines, and does not begin with a summary.
pub proof fn law_summaries_are_dropped(ls: Seq<Seq<char>>)
    ensures
        without_summary(ls).len() <= ls.len(),
        without_summary(ls) == ls.subrange(ls.len() - without_summary(ls).len(), ls.len() as int),
        forall|i: int|
            0 <= i < ls.len() - without_summary(ls).len() ==> has_prefix(
                #[trigger] ls[i],
                "Found"@,
            ),
        without_summary(ls).len() > 0 ==> !has_prefix(without_summary(ls)[0], "Found"@),
    decreases ls.len(),
{
    if ls.len() > 0 && has_prefix(ls[0], "Found"@) {
        let rest = ls.drop_first();
        law_summaries_are_dropped(rest);
        let k = rest.len() - without_summary(rest).len();
        assert(rest.subrange(k, rest.len() as int) =~= ls.subrange(k + 1, ls.len() as int));
        assert forall|i: int| 0 <= i < k + 1 implies has_prefix(#[trigger] ls[i], "Found"@) by {
            if i > 0 {
                assert(rest[i - 1] == ls[i]);
            }
        }
    } else {
        assert(ls =~= ls.subrange(0, ls.len() as int));
    }
}

/// The indent that lines have in common is the least of the lines that are not blank.
pub proof fn law_least_indent(ls: Seq<Seq<char>>, n: nat)
    requires
        n <= ls.len(),
    ensures
        match least_indent(ls, n) {
            Some(k) => {
                &&& forall|i: int|
                    0 <= i < n && trimmed(#[trigger] ls[i]).len() > 0 ==> k <= indent(ls[i])
                &&& exists|i: int|
                    0 <= i < n && trimmed(#[trigger] ls[i]).len() > 0 && k == indent(ls[i])
            },
            None => forall|i: int| 0 <= i < n ==> trimmed(#[trigger] ls[i]).len() == 0,
        },
    decreases n,
{
    if n > 0 {
        law_least_indent(ls, (n - 1) as nat);
        let line = ls[n - 1];
        if trimmed(line).len() > 0 && least_indent(ls, n) == Some(indent(line)) {
            assert(ls[n - 1] == line);
        }
    }
}

/// Blocks are collected line by line: a block is open exactly while it has more opening than
/// closing braces, and blocks that were closed stay as they are.
pub proof fn law_blocks(ls: Seq<Seq<char>>, n: nat)
    requires
        0 < n <= ls.len(),
    ensures
        ({
            let before = scan_lines(ls, (n - 1) as nat);
            let after = scan_lines(ls, n);
            &&& after.inside <==> after.opened > after.closed
            &&& !after.inside ==> after.buffer.len() == 0 && after.opened == 0 && after.closed == 0
            &&& after.blocks.len() <= before.blocks.len() + 1
            &&& before.blocks.len() <= after.blocks.len()
            &&& forall|i: int|
                0 <= i < before.blocks.len() ==> #[trigger] after.blocks[i] == before.blocks[i]
            &&& after.blocks.len() > before.blocks.len() ==> after.blocks.last() == before.buffer
                + ls[n - 1] + "\n"@ && !after.inside
            &&& !before.inside && !has_prefix(trimmed(ls[n - 1]), "{"@) ==> after == before
        }),
    decreases n,
{
    let before = scan_lines(ls, (n - 1) as nat);
    if n > 1 {
        law_blocks(ls, (n - 1) as nat);
    } else {
        assert(before.blocks.len() == 0 && !before.inside && before.opened == before.closed);
    }
    assert(before.inside <==> before.opened > before.closed);
    assert(!before.inside ==> before.buffer.len() == 0 && before.opened == 0);
}

/// A line of a listing is a connection exactly where it has at least five parts between commas and
/// is neither a heading nor a summary; its parts are trimmed, and its host is without quotes.
pub proof fn law_listed_connection(line: Seq<char>)
    ensures
        connection_of_line(line) is Some <==> {
            &&& has_text(line, ","@)
            &&& !has_prefix(line, "["@)
            &&& !has_prefix(line, "Found"@)
            &&& pieces(trimmed(line), ',').len() >= 5
        },
        connection_of_line(line) matches Some(c) ==> {
            let parts = pieces(trimmed(line), ',');
            &&& c.connection_id == trimmed(parts[0])
            &&& c.language == trimmed(parts[3])
            &&& c.status == trimmed(parts[4])
            &&& !c.safe_mode
            &&& parsed_unsigned(trimmed(parts[2]), u16::MAX as nat) matches Some(port) ==> c.port
                == port
            &&& parsed_unsigned(trimmed(parts[2]), u16::MAX as nat) is None ==> c.port == 0
            &&& c.host.len() > 0 ==> c.host[0] != '"' && c.host.last() != '"'
        },
{
    let host = trimmed(pieces(trimmed(line), ',')[1]);
    law_trimmed_of_a_character(host, '"');
    law_trimmed_of_a_character(trim_char_start(host, '"'), '"');
}

/// Connections come in the order of their lines; other lines are passed over.
pub proof fn law_listed_connections(ls: Seq<Seq<char>>, line: Seq<char>)
    ensures
        connections_of_lines(Seq::empty(), 0).len() == 0,
        connections_of_lines(ls.push(line), ls.len() + 1) == (match connection_of_line(line) {
            Some(c) => connections_of_lines(ls, ls.len()).push(c),
            None => connections_of_lines(ls, ls.len()),
        }),
{
    let longer = ls.push(line);
    assert(longer[longer.len() - 1] == line);
    lemma_lines_prefix(ls, longer, ls.len());
}

proof fn lemma_lines_prefix(ls: Seq<Seq<char>>, longer: Seq<Seq<char>>, n: nat)
    requires
        n <= ls.len() <= longer.len(),
        forall|i: int| 0 <= i < ls.len() ==> #[trigger] longer[i] == ls[i],
    ensures
        connections_of_lines(longer, n) == connections_of_lines(ls, n),
    decreases n,
{
    if n > 0 {
        lemma_lines_prefix(ls, longer, (n - 1) as nat);
        assert(longer[n - 1] == ls[n - 1]);
    }
}

/// The id of a new connection is what stands behind its label, up to the bracket; without a label
/// it is made of the host and the port.
pub proof fn law_connection_ids(text: Seq<char>, host: Seq<char>, port: u16)
    ensures
        text_after(text, "connection_id: "@) matches Some(rest) ==> connection_id_of(
            text,
            host,
            port,
        ) == trimmed(
            match before_char(rest, ')') {
                Some(id) => id,
                None => rest,
            },
        ),
        !has_text(text, "connection_id: "@) && !has_text(text, "\"connection_id\": \""@)
            ==> connection_id_of(text, host, port) == replaced(host, '.', '_') + "_"@ + decimal(
            port as nat,
        ),
{
    law_text_after(text, "connection_id: "@);
    law_text_after(text, "\"connection_id\": \""@);
}

/// A word is the first whole number among the words.
pub open spec fn is_first_number(ws: Seq<Seq<char>>, word: Seq<char>) -> bool {
    exists|i: int|
        0 <= i < ws.len() && #[trigger] ws[i] == word && parsed_signed(
            word,
            i64::MIN as int,
            i64::MAX as int,
        ) is Some && forall|j: int|
            0 <= j < i ==> parsed_signed(
                #[trigger] ws[j],
                i64::MIN as int,
                i64::MAX as int,
            ) is None
}

/// The id of a new metric is the first whole number in the first line that speaks of an id, and 0
/// where there is no such line or no such number.
pub proof fn law_metric_ids(text: Seq<char>, k: int)
    requires
        0 <= k < lines(text).len(),
        has_text(lines(text)[k], "ID"@),
        forall|j: int| 0 <= j < k ==> !has_text(#[trigger] lines(text)[j], "ID"@),
    ensures
        is_first_number(words(lines(text)[k]), metric_id_of(text)) || metric_id_of(text) == "0"@
            && forall|j: int|
            0 <= j < words(lines(text)[k]).len() ==> parsed_signed(
                #[trigger] words(lines(text)[k])[j],
                i64::MIN as int,
                i64::MAX as int,
            ) is None,
{
    lemma_first_id_line(lines(text), 0, k);
    lemma_first_signed_word(words(lines(text)[k]), 0);
}

/// Without a line that speaks of an id, the id is 0.
pub proof fn law_no_metric_id(text: Seq<char>)
    requires
        forall|j: int| 0 <= j < lines(text).len() ==> !has_text(#[trigger] lines(text)[j], "ID"@),
    ensures
        metric_id_of(text) == "0"@,
{
    lemma_no_id_line(lines(text), 0);
}

proof fn lemma_no_id_line(ls: Seq<Seq<char>>, i: nat)
    requires
        forall|j: int| 0 <= j < ls.len() ==> !has_text(#[trigger] ls[j], "ID"@),
    ensures
        first_id_line(ls, i) is None,
    decreases ls.len() - i,
{
    if i < ls.len() {
        assert(!has_text(ls[i as int], "ID"@));
        lemma_no_id_line(ls, i + 1);
    }
}

proof fn lemma_first_id_line(ls: Seq<Seq<char>>, i: nat, k: int)
    requires
        i <= k < ls.len(),
        has_text(ls[k], "ID"@),
        forall|j: int| 0 <= j < k ==> !has_text(#[trigger] ls[j], "ID"@),
    ensures
        first_id_line(ls, i) == Some(ls[k]),
    decreases k - i,
{
    if i < k {
        assert(!has_text(ls[i as int], "ID"@));
        lemma_first_id_line(ls, i + 1, k);
    }
}

proof fn lemma_first_signed_word(ws: Seq<Seq<char>>, i: nat)
    requires
        i <= ws.len(),
        forall|j: int|
            0 <= j < i ==> parsed_signed(#[trigger] ws[j], i64::MIN as int, i64::MAX as int) is None,
    ensures
        match first_signed_word(ws, i) {
            Some(w) => is_first_number(ws, w),
            None => forall|j: int|
                0 <= j < ws.len() ==> parsed_signed(
                    #[trigger] ws[j],
                    i64::MIN as int,
                    i64::MAX as int,
                ) is None,
        },
    decreases ws.len() - i,
{
    if i < ws.len() {
        if parsed_signed(ws[i as int], i64::MIN as int, i64::MAX as int) is Some {
            assert(is_first_number(ws, ws[i as int]));
        } else {
            lemma_first_signed_word(ws, i + 1);
        }
    }
}

/// An answer to a diff that reports nothing added, and one on usage in which no usage is found,
/// are errors; no other answer is refused for what it lacks.
pub proof fn law_missing_reports(action: ActionView, json: JsonView, reading: McpReading)
    ensures
        missing_in(action, json, reading) is Some ==> action is EnableFromDiff || action
            is GetMcpUsage,
        action is EnableFromDiff ==> (missing_in(action, json, reading) is Some
            <==> embedded_json(content_text_or_empty(json), "\"added\""@, "added"@) is None),
        action is GetMcpUsage ==> (missing_in(action, json, reading) is Some <==> forall|i: int|
            0 <= i < reading->found@.len() ==> (#[trigger] reading->found@[i]) is None),
{
    lemma_first_found(reading->found@);
}

proof fn lemma_first_found(found: Seq<Option<McpUsageInfo>>)
    ensures
        first_found(found) is None <==> forall|i: int|
            0 <= i < found.len() ==> (#[trigger] found[i]) is None,
    decreases found.len(),
{
    if found.len() > 0 {
        if found[0] is None {
            let t = found.drop_first();
            lemma_first_found(t);
            assert forall|i: int| 0 <= i < found.len() && first_found(t) is None implies (
            #[trigger] found[i]) is None by {
                if i > 0 {
                    assert(t[i - 1] == found[i]);
                }
            }
            if first_found(t) is Some {
                let i = choose|i: int| 0 <= i < t.len() && (#[trigger] t[i]) is Some;
                assert(found[i + 1] == t[i]);
            }
        }
    }
}

/// A line gives a notice exactly where it is a connection with a port that is no port; the notice
/// names what stands there.
pub proof fn law_port_notices(line: Seq<char>)
    ensures
        notice_of_line(line) is Some <==> connection_of_line(line) is Some && parsed_unsigned(
            trimmed(pieces(trimmed(line), ',')[2]),
            u16::MAX as nat,
        ) is None,
        notice_of_line(line) matches Some(notice) ==> has_text(
            notice,
            trimmed(pieces(trimmed(line), ',')[2]),
        ),
{
    if let Some(notice) = notice_of_line(line) {
        let port = trimmed(pieces(trimmed(line), ',')[2]);
        let a = "[WARN] Failed to parse port '"@;
        let b = "' in connection response, defaulting to 0"@;
        assert(notice == a + port + b);
        law_found_texts(notice, port);
    }
}

/// Only a listing of connections, and a query whose listing holds something of which no event could
/// be read, give notices.
pub proof fn law_notices(action: ActionView, json: JsonView, reading: McpReading)
    ensures
        !(action is ListConnections) && !(action is QueryEvents) ==> notices_of(
            action,
            json,
            reading,
        ).len() == 0,
        action is QueryEvents && list_data(json) is None ==> notices_of(action, json, reading).len()
            == 0,
        action is QueryEvents ==> notices_of(action, json, reading).len() <= 1,
        action is ListConnections && content_text(json) is None ==> notices_of(
            action,
            json,
            reading,
        ).len() == 0,
{
}

} // verus!
