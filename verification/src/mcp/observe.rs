//! Answers of the observe and the enable_from_diff tools: JSON inside a text, or a sentence.

use vstd::prelude::*;

use crate::client::{
    plain_error, ApiError, ApiErrorView, DiffMetricAdded, DiffMetricAddedView, DiffMetricFailed,
    DiffMetricFailedView, DiffMetricNeedsReview, DiffMetricNeedsReviewView, EnableFromDiffResponse,
    EnableFromDiffResponseView, ObserveResponse, ObserveResponseView,
};
use crate::json::{json_of_text, json_views, parse_json, Json, JsonView};
use crate::mcp::McpClient;
use crate::text::{
    after_char, after_text, before_char, before_either, behind_char, cat2, contains, has_prefix,
    has_text, lines, parse_i64, parse_u32, parsed_signed, parsed_unsigned, rsplit_once,
    split_at_last, split_lines, split_words, starts_with, strip_prefix, text_after, trim, trimmed,
    until_char, until_either, views, without_prefix, words,
};

verus! {

// ---------------------------------------------------------------------------
// JSON inside a text
// ---------------------------------------------------------------------------

/// The JSON value of the first line, from position `i` on, that begins with a brace, holds the
/// marker and is JSON.
pub open spec fn json_line(ls: Seq<Seq<char>>, marker: Seq<char>, i: nat) -> Option<JsonView>
    decreases ls.len() - i,
{
    if i >= ls.len() {
        None
    } else {
        let t = trimmed(ls[i as int]);
        if has_prefix(t, "{"@) && has_text(t, marker) && json_of_text(t) is Ok {
            Some(json_of_text(t)->Ok_0)
        } else {
            json_line(ls, marker, i + 1)
        }
    }
}

/// The JSON value of a text, if it is one and has the key.
pub open spec fn json_with_key(text: Seq<char>, key: Seq<char>) -> Option<JsonView> {
    match json_of_text(text) {
        Ok(j) => if j.field(key) is Some {
            Some(j)
        } else {
            None
        },
        Err(_) => None,
    }
}

/// The text from the first line on that begins with a brace, not counting the first line.
pub open spec fn brace_block(text: Seq<char>) -> Option<Seq<char>> {
    match text_after(text, "\n{"@) {
        Some(rest) => Some("{"@ + rest),
        None => None,
    }
}

/// The JSON value inside a text: on a line of its own, from a later line on, or the whole.
pub open spec fn embedded_json(text: Seq<char>, marker: Seq<char>, key: Seq<char>) -> Option<
    JsonView,
> {
    match json_line(lines(text), marker, 0) {
        Some(j) => Some(j),
        None => {
            let block = match brace_block(text) {
                Some(b) => json_with_key(b, key),
                None => None,
            };
            match block {
                Some(j) => Some(j),
                None => if has_prefix(trimmed(text), "{"@) {
                    json_with_key(trimmed(text), key)
                } else {
                    None
                },
            }
        },
    }
}

fn parse_with_key(text: &str, key: &str) -> (r: Option<Json>)
    ensures
        crate::json::opt_json_view(r) == json_with_key(text@, key@),
{
    match parse_json(text) {
        Ok(j) => if j.get(key).is_some() {
            Some(j)
        } else {
            None
        },
        Err(_) => None,
    }
}

fn find_json_line(text: &str, marker: &str) -> (r: Option<Json>)
    ensures
        crate::json::opt_json_view(r) == json_line(lines(text@), marker@, 0),
{
    let ls: Vec<String> = split_lines(text);
    let ghost vs = views(ls@);
    let mut i: usize = 0;
    while i < ls.len()
        invariant
            i <= ls.len(),
            vs == views(ls@),
            vs == lines(text@),
            json_line(vs, marker@, i as nat) == json_line(vs, marker@, 0),
        decreases ls.len() - i,
    {
        assert(vs[i as int] == ls@[i as int]@);
        let t: String = trim(ls[i].as_str());
        if starts_with(t.as_str(), "{") && contains(t.as_str(), marker) {
            match parse_json(t.as_str()) {
                Ok(j) => {
                    return Some(j);
                },
                Err(_) => {},
            }
        }
        i = i + 1;
    }
    None
}

/// The JSON value inside a text.
pub fn find_embedded_json(text: &str, marker: &str, key: &str) -> (r: Option<Json>)
    ensures
        crate::json::opt_json_view(r) == embedded_json(text@, marker@, key@),
{
    match find_json_line(text, marker) {
        Some(j) => {
            return Some(j);
        },
        None => {},
    }
    match after_text(text, "\n{") {
        Some(rest) => match parse_with_key(cat2("{", rest.as_str()).as_str(), key) {
            Some(j) => {
                return Some(j);
            },
            None => {},
        },
        None => {},
    }
    let t: String = trim(text);
    if starts_with(t.as_str(), "{") {
        parse_with_key(t.as_str(), key)
    } else {
        None
    }
}

// ---------------------------------------------------------------------------
// The observe tool
// ---------------------------------------------------------------------------

/// The value under a key, or null.
pub open spec fn field_or_null(json: JsonView, key: Seq<char>) -> JsonView {
    match json.field(key) {
        Some(v) => v,
        None => JsonView::Null,
    }
}

/// A line number, or 0 where the text is none.
pub open spec fn line_or_zero(text: Seq<char>) -> u32 {
    match parsed_unsigned(text, u32::MAX as nat) {
        Some(n) => n as u32,
        None => 0,
    }
}

/// File and line of a location: what stands before and behind the last `#`; line 0 without one.
pub open spec fn file_and_line(location: Seq<char>) -> (Seq<char>, u32) {
    match split_at_last(location, '#') {
        Some((file, line)) => (file, line_or_zero(line)),
        None => (location, 0),
    }
}

/// A location without the `@` in front of it.
pub open spec fn without_at(location: Seq<char>) -> Seq<char> {
    match without_prefix(location, "@"@) {
        Some(rest) => rest,
        None => location,
    }
}

/// The alternative lines among the first `n` items: those with a line and a content.
pub open spec fn alternatives_of(items: Seq<JsonView>, n: nat) -> Seq<(u32, Seq<char>)>
    decreases n,
{
    if n == 0 {
        Seq::empty()
    } else {
        let rest = alternatives_of(items, (n - 1) as nat);
        let item = items[n - 1];
        match (item.u64_field("line"@), item.str_field("content"@)) {
            (Some(line), Some(content)) => rest.push((low_u32(line), content)),
            _ => rest,
        }
    }
}

/// The texts among the first `n` items.
pub open spec fn texts_of(items: Seq<JsonView>, n: nat) -> Seq<Seq<char>>
    decreases n,
{
    if n == 0 {
        Seq::empty()
    } else {
        let rest = texts_of(items, (n - 1) as nat);
        match items[n - 1].str_value() {
            Some(t) => rest.push(t),
            None => rest,
        }
    }
}

/// The low 32 bits of a number.
pub open spec fn low_u32(n: u64) -> u32 {
    (n % 0x1_0000_0000) as u32
}

/// The low 32 bits of a number.
pub fn truncate_u32(n: u64) -> (r: u32)
    ensures
        r == low_u32(n),
{
    (n % 0x1_0000_0000) as u32
}

/// What the JSON answer of the observe tool says.
pub open spec fn observe_of_json(json: JsonView) -> ObserveResponseView {
    let metric = field_or_null(json, "metric"@);
    let context = field_or_null(json, "context"@);
    let place = file_and_line(without_at(metric.str_field_or("location"@, "@unknown#0"@)));
    ObserveResponseView {
        success: match json.bool_field("success"@) {
            Some(b) => b,
            None => false,
        },
        metric_id: match metric.i64_field("id"@) {
            Some(n) => n,
            None => 0,
        },
        metric_name: metric.str_field_or("name"@, "unknown"@),
        file: place.0,
        line: place.1,
        expression: metric.str_field_or("expression"@, "unknown"@),
        line_source: context.str_field_or("line_source"@, "unknown"@),
        connection_id: context.str_field_or("connection_id"@, "unknown"@),
        alternatives: match context.items_field("alternatives"@) {
            Some(items) => alternatives_of(items, items.len()),
            None => Seq::empty(),
        },
        warnings: match json.items_field("warnings"@) {
            Some(items) => texts_of(items, items.len()),
            None => Seq::empty(),
        },
    }
}

/// The text behind a label up to an end mark, trimmed; empty without the mark, `unknown` without
/// the label.
pub open spec fn labelled(rest: Option<Seq<char>>, end: Option<Seq<char>>) -> Seq<char> {
    match rest {
        Some(_) => match end {
            Some(t) => trimmed(t),
            None => Seq::empty(),
        },
        None => "unknown"@,
    }
}

/// The first word of a text.
pub open spec fn first_word(text: Seq<char>) -> Option<Seq<char>> {
    if words(text).len() > 0 {
        Some(words(text)[0])
    } else {
        None
    }
}

/// The number behind the label `ID: `, or 0.
pub open spec fn labelled_id(text: Seq<char>) -> i64 {
    match text_after(text, "ID: "@) {
        Some(rest) => match first_word(rest) {
            Some(w) => match parsed_signed(w, i64::MIN as int, i64::MAX as int) {
                Some(n) => n as i64,
                None => 0,
            },
            None => 0,
        },
        None => 0,
    }
}

/// The place behind ` at `, up to the next blank.
pub open spec fn labelled_place(text: Seq<char>) -> (Seq<char>, u32) {
    match text_after(text, " at "@) {
        Some(rest) => match before_char(rest, ' ') {
            Some(location) => file_and_line(location),
            None => file_and_line(rest),
        },
        None => ("unknown"@, 0),
    }
}

/// The text between the first two single quotes.
pub open spec fn quoted(text: Seq<char>) -> Seq<char> {
    match after_char(text, '\'') {
        Some(rest) => match before_char(rest, '\'') {
            Some(t) => t,
            None => "unknown"@,
        },
        None => "unknown"@,
    }
}

/// How a sentence says that the line was found.
pub open spec fn source_of(text: Seq<char>) -> Seq<char> {
    if has_text(text, "explicit"@) || has_text(text, "specified"@) {
        "explicit"@
    } else if has_text(text, "auto"@) || has_text(text, "found"@) {
        "auto_found"@
    } else {
        "unknown"@
    }
}

/// What the answer of the observe tool says as a sentence.
pub open spec fn observe_of_text(text: Seq<char>) -> ObserveResponseView {
    let metric = text_after(text, "metric: "@);
    let connection = text_after(text, "connection: "@);
    let place = labelled_place(text);
    ObserveResponseView {
        success: !has_text(text, "Error"@) && !has_text(text, "error:"@),
        metric_id: labelled_id(text),
        metric_name: labelled(
            metric,
            match metric {
                Some(rest) => before_either(rest, ',', ')'),
                None => None,
            },
        ),
        file: place.0,
        line: place.1,
        expression: quoted(text),
        line_source: source_of(text),
        connection_id: labelled(
            connection,
            match connection {
                Some(rest) => before_char(rest, ')'),
                None => None,
            },
        ),
        alternatives: Seq::empty(),
        warnings: Seq::empty(),
    }
}

/// What the answer of the observe tool says.
pub open spec fn observe_of(text: Seq<char>) -> ObserveResponseView {
    match embedded_json(text, "\"metric\""@, "metric"@) {
        Some(json) => observe_of_json(json),
        None => observe_of_text(text),
    }
}

fn split_location(location: &str) -> (r: (String, u32))
    ensures
        (r.0@, r.1) == file_and_line(location@),
{
    match rsplit_once(location, '#') {
        Some((file, line)) => {
            let number: u32 = match parse_u32(line.as_str()) {
                Some(n) => n,
                None => 0,
            };
            (file, number)
        },
        None => (location.to_owned(), 0),
    }
}

fn collect_alternatives(items: &Vec<Json>) -> (r: Vec<(u32, String)>)
    ensures
        r@.map_values(|a: (u32, String)| (a.0, a.1@)) == alternatives_of(
            json_views(items@),
            items@.len(),
        ),
{
    let ghost vs = json_views(items@);
    let mut out: Vec<(u32, String)> = Vec::new();
    assert(out@.map_values(|a: (u32, String)| (a.0, a.1@)) =~= Seq::<(u32, Seq<char>)>::empty());
    let mut i: usize = 0;
    while i < items.len()
        invariant
            i <= items.len(),
            vs == json_views(items@),
            out@.map_values(|a: (u32, String)| (a.0, a.1@)) == alternatives_of(vs, i as nat),
        decreases items.len() - i,
    {
        assert(vs[i as int] == items@[i as int]@);
        match (items[i].get_u64("line"), items[i].get_str("content")) {
            (Some(line), Some(content)) => {
                let ghost before = out@;
                let item: (u32, String) = (truncate_u32(line), content.to_owned());
                out.push(item);
                assert(out@.map_values(|a: (u32, String)| (a.0, a.1@)) =~= before.map_values(
                    |a: (u32, String)| (a.0, a.1@),
                ).push((item.0, item.1@)));
            },
            _ => {},
        }
        i = i + 1;
    }
    out
}

/// The texts of a list.
pub fn collect_texts(items: &Vec<Json>) -> (r: Vec<String>)
    ensures
        views(r@) == texts_of(json_views(items@), items@.len()),
{
    let ghost vs = json_views(items@);
    let mut out: Vec<String> = Vec::new();
    assert(views(out@) =~= Seq::<Seq<char>>::empty());
    let mut i: usize = 0;
    while i < items.len()
        invariant
            i <= items.len(),
            vs == json_views(items@),
            views(out@) == texts_of(vs, i as nat),
        decreases items.len() - i,
    {
        assert(vs[i as int] == items@[i as int]@);
        match items[i].as_str() {
            Some(t) => {
                let ghost before = out@;
                let owned: String = t.to_owned();
                out.push(owned);
                assert(views(out@) =~= views(before).push(owned@));
            },
            None => {},
        }
        i = i + 1;
    }
    out
}

impl McpClient {
    /// What the JSON answer of the observe tool says.
    pub fn parse_observe_json(json: &Json) -> (r: ObserveResponse)
        ensures
            r@ == observe_of_json(json@),
    {
        let null: Json = Json::Null;
        let metric: &Json = match json.get("metric") {
            Some(v) => v,
            None => &null,
        };
        let context: &Json = match json.get("context") {
            Some(v) => v,
            None => &null,
        };
        let location: String = metric.get_str_or("location", "@unknown#0");
        let bare: String = match strip_prefix(location.as_str(), "@") {
            Some(rest) => rest,
            None => location,
        };
        let (file, line) = split_location(bare.as_str());
        let alternatives: Vec<(u32, String)> = match context.get_array("alternatives") {
            Some(items) => collect_alternatives(items),
            None => Vec::new(),
        };
        let warnings: Vec<String> = match json.get_array("warnings") {
            Some(items) => collect_texts(items),
            None => Vec::new(),
        };
        let r = ObserveResponse {
            success: match json.get_bool("success") {
                Some(b) => b,
                None => false,
            },
            metric_id: match metric.get_i64("id") {
                Some(n) => n,
                None => 0,
            },
            metric_name: metric.get_str_or("name", "unknown"),
            file,
            line,
            expression: metric.get_str_or("expression", "unknown"),
            line_source: context.get_str_or("line_source", "unknown"),
            connection_id: context.get_str_or("connection_id", "unknown"),
            alternatives,
            warnings,
        };
        assert(r@.alternatives =~= observe_of_json(json@).alternatives);
        assert(r@.warnings =~= observe_of_json(json@).warnings);
        r
    }

    /// What the answer of the observe tool says as a sentence.
    pub fn parse_observe_text(text: &str) -> (r: ObserveResponse)
        ensures
            r@ == observe_of_text(text@),
    {
        let metric_name: String = match after_text(text, "metric: ") {
            Some(rest) => match until_either(rest.as_str(), ',', ')') {
                Some(t) => trim(t.as_str()),
                None => String::new(),
            },
            None => "unknown".to_owned(),
        };
        let connection_id: String = match after_text(text, "connection: ") {
            Some(rest) => match until_char(rest.as_str(), ')') {
                Some(t) => trim(t.as_str()),
                None => String::new(),
            },
            None => "unknown".to_owned(),
        };
        let metric_id: i64 = match after_text(text, "ID: ") {
            Some(rest) => {
                let ws: Vec<String> = split_words(rest.as_str());
                let ghost vs = views(ws@);
                if ws.len() > 0 {
                    assert(vs[0] == ws@[0]@);
                    match parse_i64(ws[0].as_str()) {
                        Some(n) => n,
                        None => 0,
                    }
                } else {
                    0
                }
            },
            None => 0,
        };
        let (file, line) = match after_text(text, " at ") {
            Some(rest) => match until_char(rest.as_str(), ' ') {
                Some(location) => split_location(location.as_str()),
                None => split_location(rest.as_str()),
            },
            None => ("unknown".to_owned(), 0u32),
        };
        let expression: String = match behind_char(text, '\'') {
            Some(rest) => match until_char(rest.as_str(), '\'') {
                Some(t) => t,
                None => "unknown".to_owned(),
            },
            None => "unknown".to_owned(),
        };
        let line_source: String = if contains(text, "explicit") || contains(text, "specified") {
            "explicit".to_owned()
        } else if contains(text, "auto") || contains(text, "found") {
            "auto_found".to_owned()
        } else {
            "unknown".to_owned()
        };
        let r = ObserveResponse {
            success: !contains(text, "Error") && !contains(text, "error:"),
            metric_id,
            metric_name,
            file,
            line,
            expression,
            line_source,
            connection_id,
            alternatives: Vec::new(),
            warnings: Vec::new(),
        };
        assert(r@.alternatives =~= Seq::<(u32, Seq<char>)>::empty());
        assert(r@.warnings =~= Seq::<Seq<char>>::empty());
        r
    }

    /// What the answer of the observe tool says, given the JSON value inside it if there is one.
    pub fn observe_response(text: &str, json: &Option<Json>) -> (r: ObserveResponse)
        ensures
            r@ == (match *json {
                Some(j) => observe_of_json(j@),
                None => observe_of_text(text@),
            }),
    {
        match json {
            Some(j) => Self::parse_observe_json(j),
            None => Self::parse_observe_text(text),
        }
    }

    /// What the answer of the observe tool says.
    pub fn parse_observe_response(text: &str) -> (r: ObserveResponse)
        ensures
            r@ == observe_of(text@),
    {
        let json: Option<Json> = find_embedded_json(text, "\"metric\"", "metric");
        Self::observe_response(text, &json)
    }
}

// ---------------------------------------------------------------------------
// The enable_from_diff tool
// ---------------------------------------------------------------------------

/// An added metric, if the value has all its parts.
pub open spec fn added_of(item: JsonView) -> Option<DiffMetricAddedView> {
    match (
        item.str_field("name"@),
        item.str_field("file"@),
        item.u64_field("line"@),
        item.i64_field("id"@),
    ) {
        (Some(name), Some(file), Some(line), Some(id)) => Some(
            DiffMetricAddedView { name, file, line: low_u32(line), id },
        ),
        _ => None,
    }
}

/// A failed statement, if the value has all its parts.
pub open spec fn failed_of(item: JsonView) -> Option<DiffMetricFailedView> {
    match (
        item.str_field("file"@),
        item.u64_field("line"@),
        item.str_field("statement"@),
        item.str_field("error"@),
    ) {
        (Some(file), Some(line), Some(statement), Some(error)) => Some(
            DiffMetricFailedView { file, line: low_u32(line), statement, error },
        ),
        _ => None,
    }
}

/// A statement to be reviewed, if the value has all its parts.
pub open spec fn review_of(item: JsonView) -> Option<DiffMetricNeedsReviewView> {
    match (
        item.str_field("file"@),
        item.u64_field("line"@),
        item.str_field("statement"@),
        item.str_field("suggested_expression"@),
    ) {
        (Some(file), Some(line), Some(statement), Some(suggested_expression)) => Some(
            DiffMetricNeedsReviewView { file, line: low_u32(line), statement, suggested_expression },
        ),
        _ => None,
    }
}

/// The added metrics among the first `n` items.
pub open spec fn all_added(items: Seq<JsonView>, n: nat) -> Seq<DiffMetricAddedView>
    decreases n,
{
    if n == 0 {
        Seq::empty()
    } else {
        let rest = all_added(items, (n - 1) as nat);
        match added_of(items[n - 1]) {
            Some(m) => rest.push(m),
            None => rest,
        }
    }
}

/// The failed statements among the first `n` items.
pub open spec fn all_failed(items: Seq<JsonView>, n: nat) -> Seq<DiffMetricFailedView>
    decreases n,
{
    if n == 0 {
        Seq::empty()
    } else {
        let rest = all_failed(items, (n - 1) as nat);
        match failed_of(items[n - 1]) {
            Some(m) => rest.push(m),
            None => rest,
        }
    }
}

/// The statements to be reviewed among the first `n` items.
pub open spec fn all_reviews(items: Seq<JsonView>, n: nat) -> Seq<DiffMetricNeedsReviewView>
    decreases n,
{
    if n == 0 {
        Seq::empty()
    } else {
        let rest = all_reviews(items, (n - 1) as nat);
        match review_of(items[n - 1]) {
            Some(m) => rest.push(m),
            None => rest,
        }
    }
}

/// What the JSON answer of the enable_from_diff tool says.
pub open spec fn diff_of_json(json: JsonView) -> EnableFromDiffResponseView {
    EnableFromDiffResponseView {
        success: match json.bool_field("success"@) {
            Some(b) => b,
            None => false,
        },
        added: match json.items_field("added"@) {
            Some(items) => all_added(items, items.len()),
            None => Seq::empty(),
        },
        failed: match json.items_field("failed"@) {
            Some(items) => all_failed(items, items.len()),
            None => Seq::empty(),
        },
        needs_review: match json.items_field("needs_review"@) {
            Some(items) => all_reviews(items, items.len()),
            None => Seq::empty(),
        },
        connection_id: json.str_field_or("connection_id"@, "unknown"@),
    }
}

fn collect_added(items: &Vec<Json>) -> (r: Vec<DiffMetricAdded>)
    ensures
        r@.map_values(|m: DiffMetricAdded| m@) == all_added(json_views(items@), items@.len()),
{
    let ghost vs = json_views(items@);
    let mut out: Vec<DiffMetricAdded> = Vec::new();
    assert(out@.map_values(|m: DiffMetricAdded| m@) =~= Seq::<DiffMetricAddedView>::empty());
    let mut i: usize = 0;
    while i < items.len()
        invariant
            i <= items.len(),
            vs == json_views(items@),
            out@.map_values(|m: DiffMetricAdded| m@) == all_added(vs, i as nat),
        decreases items.len() - i,
    {
        let item: &Json = &items[i];
        assert(vs[i as int] == item@);
        match (
            item.get_str("name"),
            item.get_str("file"),
            item.get_u64("line"),
            item.get_i64("id"),
        ) {
            (Some(name), Some(file), Some(line), Some(id)) => {
                let ghost before = out@;
                let m = DiffMetricAdded {
                    name: name.to_owned(),
                    file: file.to_owned(),
                    line: truncate_u32(line),
                    id,
                };
                out.push(m);
                assert(out@.map_values(|m: DiffMetricAdded| m@) =~= before.map_values(
                    |m: DiffMetricAdded| m@,
                ).push(m@));
            },
            _ => {},
        }
        i = i + 1;
    }
    out
}

fn collect_failed(items: &Vec<Json>) -> (r: Vec<DiffMetricFailed>)
    ensures
        r@.map_values(|m: DiffMetricFailed| m@) == all_failed(json_views(items@), items@.len()),
{
    let ghost vs = json_views(items@);
    let mut out: Vec<DiffMetricFailed> = Vec::new();
    assert(out@.map_values(|m: DiffMetricFailed| m@) =~= Seq::<DiffMetricFailedView>::empty());
    let mut i: usize = 0;
    while i < items.len()
        invariant
            i <= items.len(),
            vs == json_views(items@),
            out@.map_values(|m: DiffMetricFailed| m@) == all_failed(vs, i as nat),
        decreases items.len() - i,
    {
        let item: &Json = &items[i];
        assert(vs[i as int] == item@);
        match (
            item.get_str("file"),
            item.get_u64("line"),
            item.get_str("statement"),
            item.get_str("error"),
        ) {
            (Some(file), Some(line), Some(statement), Some(error)) => {
                let ghost before = out@;
                let m = DiffMetricFailed {
                    file: file.to_owned(),
                    line: truncate_u32(line),
                    statement: statement.to_owned(),
                    error: error.to_owned(),
                };
                out.push(m);
                assert(out@.map_values(|m: DiffMetricFailed| m@) =~= before.map_values(
                    |m: DiffMetricFailed| m@,
                ).push(m@));
            },
            _ => {},
        }
        i = i + 1;
    }
    out
}

fn collect_reviews(items: &Vec<Json>) -> (r: Vec<DiffMetricNeedsReview>)
    ensures
        r@.map_values(|m: DiffMetricNeedsReview| m@) == all_reviews(
            json_views(items@),
            items@.len(),
        ),
{
    let ghost vs = json_views(items@);
    let mut out: Vec<DiffMetricNeedsReview> = Vec::new();
    assert(out@.map_values(|m: DiffMetricNeedsReview| m@)
        =~= Seq::<DiffMetricNeedsReviewView>::empty());
    let mut i: usize = 0;
    while i < items.len()
        invariant
            i <= items.len(),
            vs == json_views(items@),
            out@.map_values(|m: DiffMetricNeedsReview| m@) == all_reviews(vs, i as nat),
        decreases items.len() - i,
    {
        let item: &Json = &items[i];
        assert(vs[i as int] == item@);
        match (
            item.get_str("file"),
            item.get_u64("line"),
            item.get_str("statement"),
            item.get_str("suggested_expression"),
        ) {
            (Some(file), Some(line), Some(statement), Some(suggested)) => {
                let ghost before = out@;
                let m = DiffMetricNeedsReview {
                    file: file.to_owned(),
                    line: truncate_u32(line),
                    statement: statement.to_owned(),
                    suggested_expression: suggested.to_owned(),
                };
                out.push(m);
                assert(out@.map_values(|m: DiffMetricNeedsReview| m@) =~= before.map_values(
                    |m: DiffMetricNeedsReview| m@,
                ).push(m@));
            },
            _ => {},
        }
        i = i + 1;
    }
    out
}

/// The view of the answer of the enable_from_diff tool.
pub open spec fn diff_view(r: Result<EnableFromDiffResponse, ApiError>) -> Result<
    EnableFromDiffResponseView,
    ApiErrorView,
> {
    match r {
        Ok(v) => Ok(v@),
        Err(e) => Err(e@),
    }
}

impl McpClient {
    /// What the JSON answer of the enable_from_diff tool says.
    pub fn parse_enable_from_diff_json(json: &Json) -> (r: EnableFromDiffResponse)
        ensures
            r@ == diff_of_json(json@),
    {
        let r = EnableFromDiffResponse {
            success: match json.get_bool("success") {
                Some(b) => b,
                None => false,
            },
            added: match json.get_array("added") {
                Some(items) => collect_added(items),
                None => Vec::new(),
            },
            failed: match json.get_array("failed") {
                Some(items) => collect_failed(items),
                None => Vec::new(),
            },
            needs_review: match json.get_array("needs_review") {
                Some(items) => collect_reviews(items),
                None => Vec::new(),
            },
            connection_id: json.get_str_or("connection_id", "unknown"),
        };
        assert(r@.added =~= diff_of_json(json@).added);
        assert(r@.failed =~= diff_of_json(json@).failed);
        assert(r@.needs_review =~= diff_of_json(json@).needs_review);
        r
    }

    /// What the answer of the enable_from_diff tool says, given the JSON value inside it if
    /// there is one.
    pub fn enable_from_diff_response(json: &Option<Json>) -> (r: Result<
        EnableFromDiffResponse,
        ApiError,
    >)
        ensures
            diff_view(r) == (match *json {
                Some(j) => Ok::<EnableFromDiffResponseView, ApiErrorView>(diff_of_json(j@)),
                None => Err(plain_error("Failed to parse enable_from_diff response"@)),
            }),
    {
        match json {
            Some(j) => Ok(Self::parse_enable_from_diff_json(j)),
            None => Err(ApiError::new("Failed to parse enable_from_diff response".to_owned())),
        }
    }

    /// What the answer of the enable_from_diff tool says.
    pub fn parse_enable_from_diff_response(text: &str) -> (r: Result<
        EnableFromDiffResponse,
        ApiError,
    >)
        ensures
            diff_view(r) == (match embedded_json(text@, "\"added\""@, "added"@) {
                Some(j) => Ok::<EnableFromDiffResponseView, ApiErrorView>(diff_of_json(j)),
                None => Err(plain_error("Failed to parse enable_from_diff response"@)),
            }),
    {
        let json: Option<Json> = find_embedded_json(text, "\"added\"", "added");
        Self::enable_from_diff_response(&json)
    }
}

} // verus!
