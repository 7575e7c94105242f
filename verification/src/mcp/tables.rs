//! Answers that hold lists: metrics, events, groups and system events.
//!
//! The daemon sends such lists as TOON or as JSON behind a summary. Which part of a text is the
//! list, and which of several readings of it counts, is decided here; reading typed records out
//! of JSON is left to the caller, who hands the results in.

use vstd::prelude::*;

use super::content_text;
use super::observe::{collect_texts, texts_of};
use crate::client::{
    EventInfo, GroupInfo, GroupInfoView, MetricInfo, MetricInfoView, SystemEventInfo,
};
use crate::json::{json_of_text, json_views, parse_json, Json, JsonView};
use crate::mcp::McpClient;
use crate::text::{
    chars_in_bytes, chars_of, cut_bytes, find_char, has_prefix, index_of_char, join, joined,
    leading_spaces, lines, opt_view, own_opt, same_text, slice_string, split_lines, starts_with,
    strip_start, text_after, after_text, trim, trim_char_start, trim_end, trim_end_exec,
    trim_start_exec, trimmed, utf8_len, utf8_len_exec, views,
};

verus! {

// ---------------------------------------------------------------------------
// Metrics and events
// ---------------------------------------------------------------------------

/// The lines without the summary lines in front.
pub open spec fn without_summary(ls: Seq<Seq<char>>) -> Seq<Seq<char>>
    decreases ls.len(),
{
    if ls.len() > 0 && has_prefix(ls[0], "Found"@) {
        without_summary(ls.drop_first())
    } else {
        ls
    }
}

/// The text behind the summary.
pub open spec fn data_of(text: Seq<char>) -> Seq<char> {
    trimmed(joined(without_summary(lines(text)), "\n"@))
}

/// The data is an empty list, or nothing at all.
pub open spec fn is_empty_data(data: Seq<char>) -> bool {
    data.len() == 0 || data == "[]"@ || data == "[0]:"@
}

/// The data of an answer, where it is not an empty list.
pub open spec fn list_data(json: JsonView) -> Option<Seq<char>> {
    match content_text(json) {
        Some(text) => if is_empty_data(data_of(text)) {
            None
        } else {
            Some(data_of(text))
        },
        None => None,
    }
}

fn join_from(ls: &Vec<String>, from: usize) -> (r: String)
    requires
        from <= ls.len(),
    ensures
        r@ == joined(views(ls@).subrange(from as int, ls@.len() as int), "\n"@),
{
    let mut tail: Vec<String> = Vec::new();
    let mut i: usize = from;
    while i < ls.len()
        invariant
            from <= i <= ls.len(),
            tail@ == ls@.subrange(from as int, i as int),
        decreases ls.len() - i,
    {
        tail.push(ls[i].clone());
        i = i + 1;
        assert(tail@ =~= ls@.subrange(from as int, i as int));
    }
    assert(views(tail@) =~= views(ls@).subrange(from as int, ls@.len() as int));
    join(&tail, "\n")
}

/// The text behind the summary.
pub fn data_text(text: &str) -> (r: String)
    ensures
        r@ == data_of(text@),
{
    let ls: Vec<String> = split_lines(text);
    let ghost vs = views(ls@);
    let mut i: usize = 0;
    assert(vs.subrange(0, vs.len() as int) =~= vs);
    while i < ls.len() && starts_with(ls[i].as_str(), "Found")
        invariant
            i <= ls.len(),
            vs == views(ls@),
            without_summary(vs.subrange(i as int, vs.len() as int)) == without_summary(vs),
        decreases ls.len() - i,
    {
        let ghost rest = vs.subrange(i as int, vs.len() as int);
        assert(rest[0] == ls@[i as int]@);
        assert(rest.drop_first() =~= vs.subrange(i as int + 1, vs.len() as int));
        i = i + 1;
    }
    proof {
        let rest = vs.subrange(i as int, vs.len() as int);
        if i < ls.len() {
            assert(rest[0] == ls@[i as int]@);
        }
        assert(without_summary(rest) == rest);
    }
    trim(join_from(&ls, i).as_str())
}

/// Whether the data is an empty list, or nothing at all.
fn is_empty_data_exec(data: &str) -> (r: bool)
    ensures
        r == is_empty_data(data@),
{
    data.is_empty() || same_text(data, "[]") || same_text(data, "[0]:")
}

/// The metric that a JSON value describes; it must have a name.
pub open spec fn metric_of_json(m: JsonView) -> Option<MetricInfoView> {
    match m.str_field("name"@) {
        Some(name) => {
            let expressions = match m.items_field("expressions"@) {
                Some(items) => texts_of(items, items.len()),
                None => match m.str_field("expression"@) {
                    Some(e) => seq![e],
                    None => Seq::empty(),
                },
            };
            Some(
                MetricInfoView {
                    name,
                    location: m.str_field_or("location"@, ""@),
                    expression: if expressions.len() > 0 {
                        expressions[0]
                    } else {
                        ""@
                    },
                    expressions,
                    group: m.str_field("group"@),
                    enabled: match m.bool_field("enabled"@) {
                        Some(b) => b,
                        None => true,
                    },
                    mode: m.str_field("mode"@),
                },
            )
        },
        None => None,
    }
}

/// The metrics among the first `n` values.
pub open spec fn metrics_of_json(items: Seq<JsonView>, n: nat) -> Seq<MetricInfoView>
    decreases n,
{
    if n == 0 {
        Seq::empty()
    } else {
        let rest = metrics_of_json(items, (n - 1) as nat);
        match metric_of_json(items[n - 1]) {
            Some(m) => rest.push(m),
            None => rest,
        }
    }
}

/// The metrics of a list.
pub open spec fn metric_views(list: Seq<MetricInfo>) -> Seq<MetricInfoView> {
    list.map_values(|m: MetricInfo| m@)
}

/// The JSON array that stands in a text from its first bracket on.
pub open spec fn array_in(text: Seq<char>) -> Option<Seq<JsonView>> {
    let k = index_of_char(text, '[') as int;
    if k < text.len() {
        match json_of_text(text.subrange(k, text.len() as int)) {
            Ok(j) => j.items(),
            Err(_) => None,
        }
    } else {
        None
    }
}

/// The first of several readings that succeeded.
pub open spec fn first_reading<V>(a: Option<V>, b: Option<V>, c: Option<V>) -> Option<V> {
    match a {
        Some(v) => Some(v),
        None => match b {
            Some(v) => Some(v),
            None => c,
        },
    }
}

fn read_metric(m: &Json) -> (r: Option<MetricInfo>)
    ensures
        r is Some <==> metric_of_json(m@) is Some,
        r matches Some(i) ==> metric_of_json(m@) == Some(i@),
{
    let name: String = match m.get_str("name") {
        Some(n) => n.to_owned(),
        None => {
            return None;
        },
    };
    let expressions: Vec<String> = match m.get_array("expressions") {
        Some(items) => {
            assert(json_views(items@) =~= items@.map_values(|j: Json| j@));
            collect_texts(items)
        },
        None => match m.get_str("expression") {
            Some(e) => {
                let mut one: Vec<String> = Vec::new();
                one.push(e.to_owned());
                assert(views(one@) =~= seq![e@]);
                one
            },
            None => {
                let none: Vec<String> = Vec::new();
                assert(views(none@) =~= Seq::<Seq<char>>::empty());
                none
            },
        },
    };
    let ghost es = views(expressions@);
    let expression: String = if expressions.len() > 0 {
        assert(es[0] == expressions@[0]@);
        expressions[0].clone()
    } else {
        "".to_owned()
    };
    Some(
        MetricInfo {
            name,
            location: m.get_str_or("location", ""),
            expression,
            expressions,
            group: own_opt(m.get_str("group")),
            enabled: match m.get_bool("enabled") {
                Some(b) => b,
                None => true,
            },
            mode: own_opt(m.get_str("mode")),
        },
    )
}

/// The metrics among the values.
pub fn read_metrics(items: &Vec<Json>) -> (r: Vec<MetricInfo>)
    ensures
        metric_views(r@) == metrics_of_json(json_views(items@), items@.len()),
{
    let ghost vs = json_views(items@);
    let mut out: Vec<MetricInfo> = Vec::new();
    assert(metric_views(out@) =~= Seq::<MetricInfoView>::empty());
    let mut i: usize = 0;
    while i < items.len()
        invariant
            i <= items.len(),
            vs == json_views(items@),
            metric_views(out@) == metrics_of_json(vs, i as nat),
        decreases items.len() - i,
    {
        assert(vs[i as int] == items@[i as int]@);
        match read_metric(&items[i]) {
            Some(m) => {
                let ghost before = out@;
                out.push(m);
                assert(metric_views(out@) =~= metric_views(before).push(m@));
            },
            None => {},
        }
        i = i + 1;
    }
    out
}

/// The metrics of an answer: none where it has no data, else what the first reader that could
/// read it found: TOON, a JSON array in the text, JSON.
pub open spec fn metrics_are(
    json: JsonView,
    toon: Option<Vec<MetricInfo>>,
    direct: Option<Vec<MetricInfo>>,
    list: Seq<MetricInfo>,
) -> bool {
    if list_data(json) is None {
        list.len() == 0
    } else {
        match toon {
            Some(found) => list == found@,
            None => match array_in(content_text(json)->0) {
                Some(items) => metric_views(list) == metrics_of_json(items, items.len()),
                None => match direct {
                    Some(found) => list == found@,
                    None => list.len() == 0,
                },
            },
        }
    }
}

impl McpClient {
    /// The data of an answer, where it is not an empty list.
    pub fn list_content(json: &Json) -> (r: Option<String>)
        ensures
            opt_view(r) == list_data(json@),
    {
        match Self::extract_text(json) {
            Some(text) => {
                let data: String = data_text(text.as_str());
                if is_empty_data_exec(data.as_str()) {
                    None
                } else {
                    Some(data)
                }
            },
            None => None,
        }
    }

    /// The metrics of the JSON array that stands in a text, if one does.
    pub fn metrics_in_text(text: &str) -> (r: Option<Vec<MetricInfo>>)
        ensures
            r is Some <==> array_in(text@) is Some,
            r matches Some(list) ==> metric_views(list@) == metrics_of_json(
                array_in(text@)->0,
                array_in(text@)->0.len(),
            ),
    {
        let v: Vec<char> = chars_of(text);
        assert(v@.subrange(0, v@.len() as int) =~= v@);
        let k: usize = find_char(&v, '[', 0);
        if k >= v.len() {
            return None;
        }
        match parse_json(slice_string(&v, k, v.len()).as_str()) {
            Ok(j) => match j.as_array() {
                Some(items) => {
                    assert(json_views(items@) =~= items@.map_values(|j: Json| j@));
                    Some(read_metrics(items))
                },
                None => None,
            },
            Err(_) => None,
        }
    }

    /// The metrics of an answer to list_metrics, given three readings of it in the order in
    /// which they count: its data as TOON, the JSON array in its text, its data as JSON.
    pub fn choose_metrics(
        has_data: bool,
        toon: Option<Vec<MetricInfo>>,
        array: Option<Vec<MetricInfo>>,
        direct: Option<Vec<MetricInfo>>,
    ) -> (r: Vec<MetricInfo>)
        ensures
            r@ == (match first_reading(toon, array, direct) {
                Some(list) => if has_data {
                    list@
                } else {
                    Seq::empty()
                },
                None => Seq::empty(),
            }),
    {
        if !has_data {
            return Vec::new();
        }
        match toon {
            Some(list) => list,
            None => match array {
                Some(list) => list,
                None => match direct {
                    Some(list) => list,
                    None => Vec::new(),
                },
            },
        }
    }

    /// The metrics of an answer to list_metrics. `toon` and `direct` are the typed readings of
    /// its data as TOON and as JSON, if they succeeded.
    pub fn parse_metrics_response(
        json: &Json,
        toon: Option<Vec<MetricInfo>>,
        direct: Option<Vec<MetricInfo>>,
    ) -> (r: Vec<MetricInfo>)
        ensures
            metrics_are(json@, toon, direct, r@),
    {
        let has_data: bool = Self::list_content(json).is_some();
        let array: Option<Vec<MetricInfo>> = match Self::extract_text(json) {
            Some(text) => Self::metrics_in_text(text.as_str()),
            None => None,
        };
        Self::choose_metrics(has_data, toon, array, direct)
    }
}

// ---------------------------------------------------------------------------
// JSON objects over several lines
// ---------------------------------------------------------------------------

/// How often a character occurs.
pub open spec fn occurrences(s: Seq<char>, c: char) -> nat
    decreases s.len(),
{
    if s.len() == 0 {
        0
    } else {
        occurrences(s.drop_last(), c) + (if s.last() == c {
            1nat
        } else {
            0nat
        })
    }
}

fn count_char(s: &str, c: char) -> (r: usize)
    ensures
        r == occurrences(s@, c),
{
    let v: Vec<char> = chars_of(s);
    let mut n: usize = 0;
    let mut i: usize = 0;
    assert(v@.subrange(0, 0) =~= Seq::<char>::empty());
    while i < v.len()
        invariant
            i <= v.len(),
            n <= i,
            n == occurrences(v@.subrange(0, i as int), c),
        decreases v.len() - i,
    {
        assert(v@.subrange(0, i + 1).drop_last() =~= v@.subrange(0, i as int));
        if v[i] == c {
            n = n + 1;
        }
        i = i + 1;
    }
    assert(v@.subrange(0, v@.len() as int) =~= v@);
    n
}

/// The state of a scan for JSON objects.
pub struct Scan {
    /// The lines of the object that is open.
    pub buffer: Seq<char>,
    pub inside: bool,
    pub opened: nat,
    pub closed: nat,
    /// The objects that were closed.
    pub blocks: Seq<Seq<char>>,
}

/// The scan of the first `n` lines. An object begins on a line that begins with a brace, and
/// ends on the first line behind which no more braces were opened than closed. Summary lines and
/// blank lines do not count.
pub open spec fn scan_lines(ls: Seq<Seq<char>>, n: nat) -> Scan
    decreases n,
{
    if n == 0 {
        Scan {
            buffer: Seq::empty(),
            inside: false,
            opened: 0,
            closed: 0,
            blocks: Seq::empty(),
        }
    } else {
        let s = scan_lines(ls, (n - 1) as nat);
        let t = trimmed(ls[n - 1]);
        if has_prefix(t, "Found"@) || t.len() == 0 || !(has_prefix(t, "{"@) || s.inside) {
            s
        } else {
            let buffer = s.buffer + ls[n - 1] + "\n"@;
            let opened = s.opened + occurrences(t, '{');
            let closed = s.closed + occurrences(t, '}');
            if opened <= closed {
                Scan {
                    buffer: Seq::empty(),
                    inside: false,
                    opened: 0,
                    closed: 0,
                    blocks: s.blocks.push(buffer),
                }
            } else {
                Scan { buffer, inside: true, opened, closed, blocks: s.blocks }
            }
        }
    }
}

/// The objects that a text holds, one after the other.
pub open spec fn json_blocks(text: Seq<char>) -> Seq<Seq<char>> {
    scan_lines(lines(text), lines(text).len()).blocks
}

/// The objects that a text holds, one after the other.
pub fn find_json_blocks(text: &str) -> (r: Vec<String>)
    ensures
        views(r@) == json_blocks(text@),
{
    let ls: Vec<String> = split_lines(text);
    let ghost vs = views(ls@);
    let mut blocks: Vec<String> = Vec::new();
    let mut buffer: String = String::new();
    let mut inside: bool = false;
    let mut opened: u128 = 0;
    let mut closed: u128 = 0;
    let mut i: usize = 0;
    assert(views(blocks@) =~= Seq::<Seq<char>>::empty());
    while i < ls.len()
        invariant
            i <= ls.len(),
            vs == views(ls@),
            opened <= i * usize::MAX,
            closed <= i * usize::MAX,
            scan_lines(vs, i as nat) == (Scan {
                buffer: buffer@,
                inside,
                opened: opened as nat,
                closed: closed as nat,
                blocks: views(blocks@),
            }),
        decreases ls.len() - i,
    {
        assert(vs[i as int] == ls@[i as int]@);
        let t: String = trim(ls[i].as_str());
        proof {
            assert(i * usize::MAX <= (i + 1) * usize::MAX) by (nonlinear_arith);
        }
        if !(starts_with(t.as_str(), "Found") || t.as_str().is_empty() || !(starts_with(
            t.as_str(),
            "{",
        ) || inside)) {
            buffer.append(ls[i].as_str());
            buffer.append("\n");
            let more: usize = count_char(t.as_str(), '{');
            let fewer: usize = count_char(t.as_str(), '}');
            proof {
                assert((i + 1) * usize::MAX == i * usize::MAX + usize::MAX) by (nonlinear_arith);
                assert((i + 1) * usize::MAX <= u128::MAX) by (nonlinear_arith)
                    requires
                        0 <= i < usize::MAX,
                ;
            }
            opened = opened + more as u128;
            closed = closed + fewer as u128;
            inside = true;
            if opened <= closed {
                let ghost before = blocks@;
                let done: String = buffer.clone();
                blocks.push(done);
                assert(views(blocks@) =~= views(before).push(done@));
                buffer = String::new();
                inside = false;
                opened = 0;
                closed = 0;
                assert(buffer@ =~= Seq::<char>::empty());
            }
        }
        i = i + 1;
    }
    blocks
}

/// The events among the readings of single objects.
pub open spec fn read_ones(items: Seq<Option<EventInfo>>, n: nat) -> Seq<EventInfo>
    decreases n,
{
    if n == 0 {
        Seq::empty()
    } else {
        let rest = read_ones(items, (n - 1) as nat);
        match items[n - 1] {
            Some(e) => rest.push(e),
            None => rest,
        }
    }
}

/// What a list of events is read as: the first reading of the whole that succeeded, or else
/// those single objects that could be read.
pub open spec fn events_of(
    toon: Option<Vec<EventInfo>>,
    data: Option<Vec<EventInfo>>,
    text: Option<Vec<EventInfo>>,
    blocks: Seq<Option<EventInfo>>,
) -> Seq<EventInfo> {
    match first_reading(toon, data, text) {
        Some(list) => list@,
        None => read_ones(blocks, blocks.len()),
    }
}

impl McpClient {
    /// The objects of the text of an answer.
    pub fn event_blocks(json: &Json) -> (r: Vec<String>)
        ensures
            views(r@) == (match content_text(json@) {
                Some(text) => json_blocks(text),
                None => Seq::empty(),
            }),
    {
        match Self::extract_text(json) {
            Some(text) => find_json_blocks(text.as_str()),
            None => {
                let none: Vec<String> = Vec::new();
                assert(views(none@) =~= Seq::<Seq<char>>::empty());
                none
            },
        }
    }

    /// The events of an answer to query_metrics. The readings are those of its data as TOON, of
    /// its data as JSON, of its whole text as JSON, and of its single objects.
    pub fn parse_events(
        json: &Json,
        toon: Option<Vec<EventInfo>>,
        data: Option<Vec<EventInfo>>,
        text: Option<Vec<EventInfo>>,
        blocks: Vec<Option<EventInfo>>,
    ) -> (r: Vec<EventInfo>)
        ensures
            r@ == (if list_data(json@) is Some {
                events_of(toon, data, text, blocks@)
            } else {
                Seq::empty()
            }),
    {
        if Self::list_content(json).is_none() {
            return Vec::new();
        }
        match toon {
            Some(list) => {
                return list;
            },
            None => {},
        }
        match data {
            Some(list) => {
                return list;
            },
            None => {},
        }
        match text {
            Some(list) => {
                return list;
            },
            None => {},
        }
        let mut rest: Vec<Option<EventInfo>> = blocks;
        let mut reversed: Vec<EventInfo> = Vec::new();
        let ghost all = rest@;
        while rest.len() > 0
            invariant
                rest@ == all.subrange(0, rest@.len() as int),
                rest@.len() <= all.len(),
                read_ones(all, rest@.len()) + reversed@.reverse() == read_ones(all, all.len()),
            decreases rest.len(),
        {
            let ghost n = rest@.len();
            let ghost before = reversed@;
            let last: Option<EventInfo> = rest.pop().unwrap();
            assert(last == all[n - 1]);
            assert(rest@ =~= all.subrange(0, n - 1));
            match last {
                Some(e) => {
                    reversed.push(e);
                    assert(reversed@.reverse() =~= seq![e] + before.reverse());
                    assert(read_ones(all, n).drop_last() =~= read_ones(all, (n - 1) as nat));
                    assert(read_ones(all, n) + before.reverse() =~= read_ones(all, (n - 1) as nat)
                        + reversed@.reverse());
                },
                None => {},
            }
        }
        assert(read_ones(all, 0) + reversed@.reverse() =~= reversed@.reverse());
        let mut out: Vec<EventInfo> = Vec::new();
        let ghost back = reversed@;
        while reversed.len() > 0
            invariant
                reversed@ == back.subrange(0, reversed@.len() as int),
                reversed@.len() <= back.len(),
                out@ == back.reverse().subrange(0, back.len() - reversed@.len()),
            decreases reversed.len(),
        {
            let ghost n = reversed@.len();
            let e: EventInfo = reversed.pop().unwrap();
            out.push(e);
            assert(reversed@ =~= back.subrange(0, n - 1));
            assert(out@ =~= back.reverse().subrange(0, back.len() - n + 1));
        }
        assert(out@ =~= back.reverse());
        out
    }
}

// ---------------------------------------------------------------------------
// Groups
// ---------------------------------------------------------------------------

/// The low 32 bits of a signed number.
pub open spec fn low_bits(n: i64) -> u32 {
    (n as int % 0x1_0000_0000) as u32
}

fn low_bits_exec(n: i64) -> (r: u32)
    ensures
        r == low_bits(n),
{
    let wide: i128 = n as i128;
    let shifted: i128 = wide + 0x1_0000_0000_0000_0000;
    proof {
        assert(shifted as int % 0x1_0000_0000 == n as int % 0x1_0000_0000) by {
            vstd::arithmetic::div_mod::lemma_mod_multiples_vanish(
                0x1_0000_0000,
                n as int,
                0x1_0000_0000,
            );
        }
    }
    (shifted % 0x1_0000_0000) as u32
}

/// The group that a JSON value describes, if it has all its parts.
pub open spec fn group_of_json(item: JsonView) -> Option<GroupInfoView> {
    match (
        item.str_field("name"@),
        item.i64_field("metric_count"@),
        item.i64_field("enabled_count"@),
    ) {
        (Some(name), Some(metrics), Some(enabled)) => Some(
            GroupInfoView {
                name,
                metric_count: low_bits(metrics),
                enabled_count: low_bits(enabled),
            },
        ),
        _ => None,
    }
}

/// The groups among the first `n` values, behind those that are known already.
pub open spec fn groups_of_json(
    known: Seq<GroupInfoView>,
    items: Seq<JsonView>,
    n: nat,
) -> Seq<GroupInfoView>
    decreases n,
{
    if n == 0 {
        known
    } else {
        let rest = groups_of_json(known, items, (n - 1) as nat);
        match group_of_json(items[n - 1]) {
            Some(g) => rest.push(g),
            None => rest,
        }
    }
}

/// The groups on those of the first `n` lines that are JSON arrays.
pub open spec fn groups_of_lines(ls: Seq<Seq<char>>, n: nat) -> Seq<GroupInfoView>
    decreases n,
{
    if n == 0 {
        Seq::empty()
    } else {
        let known = groups_of_lines(ls, (n - 1) as nat);
        if has_prefix(ls[n - 1], "["@) {
            match json_of_text(ls[n - 1]) {
                Ok(j) => match j.items() {
                    Some(items) => groups_of_json(known, items, items.len()),
                    None => known,
                },
                Err(_) => known,
            }
        } else {
            known
        }
    }
}

/// The groups of a list.
pub open spec fn group_views(list: Seq<GroupInfo>) -> Seq<GroupInfoView> {
    list.map_values(|g: GroupInfo| g@)
}

fn read_groups(out: &mut Vec<GroupInfo>, items: &Vec<Json>)
    ensures
        group_views(final(out)@) == groups_of_json(
            group_views(old(out)@),
            json_views(items@),
            items@.len(),
        ),
{
    let ghost vs = json_views(items@);
    let mut i: usize = 0;
    while i < items.len()
        invariant
            i <= items.len(),
            vs == json_views(items@),
            group_views(out@) == groups_of_json(group_views(old(out)@), vs, i as nat),
        decreases items.len() - i,
    {
        let item: &Json = &items[i];
        assert(vs[i as int] == item@);
        match (
            item.get_str("name"),
            item.get_i64("metric_count"),
            item.get_i64("enabled_count"),
        ) {
            (Some(name), Some(metrics), Some(enabled)) => {
                let ghost before = out@;
                let g = GroupInfo {
                    name: name.to_owned(),
                    metric_count: low_bits_exec(metrics),
                    enabled_count: low_bits_exec(enabled),
                };
                out.push(g);
                assert(group_views(out@) =~= group_views(before).push(g@));
            },
            _ => {},
        }
        i = i + 1;
    }
}

impl McpClient {
    /// The groups of an answer to list_groups.
    pub fn parse_groups(json: &Json) -> (r: Vec<GroupInfo>)
        ensures
            group_views(r@) == (match content_text(json@) {
                Some(text) => groups_of_lines(lines(text), lines(text).len()),
                None => Seq::empty(),
            }),
    {
        let mut out: Vec<GroupInfo> = Vec::new();
        assert(group_views(out@) =~= Seq::<GroupInfoView>::empty());
        let text: String = match Self::extract_text(json) {
            Some(t) => t,
            None => {
                return out;
            },
        };
        let ls: Vec<String> = split_lines(text.as_str());
        let ghost vs = views(ls@);
        let mut i: usize = 0;
        while i < ls.len()
            invariant
                i <= ls.len(),
                vs == views(ls@),
                group_views(out@) == groups_of_lines(vs, i as nat),
            decreases ls.len() - i,
        {
            assert(vs[i as int] == ls@[i as int]@);
            if starts_with(ls[i].as_str(), "[") {
                match parse_json(ls[i].as_str()) {
                    Ok(j) => match j.as_array() {
                        Some(items) => {
                            assert(json_views(items@) =~= items@.map_values(|j: Json| j@));
                            read_groups(&mut out, items);
                        },
                        None => {},
                    },
                    Err(_) => {},
                }
            }
            i = i + 1;
        }
        out
    }
}

// ---------------------------------------------------------------------------
// System events
// ---------------------------------------------------------------------------

/// A line in front of the list of system events.
pub open spec fn is_event_summary(line: Seq<char>) -> bool {
    has_prefix(line, "Found"@) || has_prefix(line, "⚠️"@) || has_prefix(line, "✅"@)
}

/// The lines without the summary lines in front.
pub open spec fn without_event_summary(ls: Seq<Seq<char>>) -> Seq<Seq<char>>
    decreases ls.len(),
{
    if ls.len() > 0 && is_event_summary(ls[0]) {
        without_event_summary(ls.drop_first())
    } else {
        ls
    }
}

/// The text behind the summary.
pub open spec fn event_data(text: Seq<char>) -> Seq<char> {
    trimmed(joined(without_event_summary(lines(text)), "\n"@))
}

/// The number of bytes of the white space in front of a line.
pub open spec fn indent(line: Seq<char>) -> nat {
    utf8_len(line.subrange(0, leading_spaces(line) as int))
}

/// The smallest indent of those among the first `n` lines that are not blank.
pub open spec fn least_indent(ls: Seq<Seq<char>>, n: nat) -> Option<nat>
    decreases n,
{
    if n == 0 {
        None
    } else {
        let rest = least_indent(ls, (n - 1) as nat);
        let line = ls[n - 1];
        if trimmed(line).len() == 0 {
            rest
        } else {
            match rest {
                Some(k) => if k <= indent(line) {
                    Some(k)
                } else {
                    Some(indent(line))
                },
                None => Some(indent(line)),
            }
        }
    }
}

/// The smallest indent of the lines that are not blank, or 0.
pub open spec fn common_indent(ls: Seq<Seq<char>>) -> nat {
    match least_indent(ls, ls.len()) {
        Some(k) => k,
        None => 0,
    }
}

/// A line without its first `k` bytes, or the whole where it is shorter.
pub open spec fn dedented(line: Seq<char>, k: nat) -> Seq<char> {
    if utf8_len(line) >= k {
        line.subrange(chars_in_bytes(line, k)->0 as int, line.len() as int)
    } else {
        line
    }
}

/// No line has a character across the byte at which it is cut.
pub open spec fn can_dedent(ls: Seq<Seq<char>>) -> bool {
    forall|i: int|
        0 <= i < ls.len() && utf8_len(#[trigger] ls[i]) >= common_indent(ls) ==> chars_in_bytes(
            ls[i],
            common_indent(ls),
        ) is Some
}

/// The text behind the count prefix, without the newlines in front and the white space behind.
pub open spec fn after_count(data: Seq<char>) -> Option<Seq<char>> {
    if has_prefix(data, "["@) {
        match text_after(data, "]:"@) {
            Some(rest) => Some(trim_end(trim_char_start(rest, '\n'))),
            None => None,
        }
    } else {
        None
    }
}

/// The list of system events in a text: behind the summary, and behind the count prefix where
/// there is one, with the common indent taken off. None where there are no events.
pub open spec fn system_data(text: Seq<char>) -> Option<Seq<char>> {
    let data = event_data(text);
    if data.len() == 0 || data == "[]"@ {
        None
    } else {
        match after_count(data) {
            Some(rest) => if rest.len() == 0 {
                None
            } else {
                let ls = lines(rest);
                Some(joined(ls.map_values(|l: Seq<char>| dedented(l, common_indent(ls))), "\n"@))
            },
            None => Some(data),
        }
    }
}

/// The common indent of the list, where it is taken off, does not cut a character.
pub open spec fn system_data_ok(text: Seq<char>) -> bool {
    match after_count(event_data(text)) {
        Some(rest) => can_dedent(lines(rest)),
        None => true,
    }
}

fn is_event_summary_exec(line: &str) -> (r: bool)
    ensures
        r == is_event_summary(line@),
{
    starts_with(line, "Found") || starts_with(line, "⚠️") || starts_with(line, "✅")
}

fn event_data_text(text: &str) -> (r: String)
    ensures
        r@ == event_data(text@),
{
    let ls: Vec<String> = split_lines(text);
    let ghost vs = views(ls@);
    let mut i: usize = 0;
    assert(vs.subrange(0, vs.len() as int) =~= vs);
    while i < ls.len() && is_event_summary_exec(ls[i].as_str())
        invariant
            i <= ls.len(),
            vs == views(ls@),
            without_event_summary(vs.subrange(i as int, vs.len() as int)) == without_event_summary(
                vs,
            ),
        decreases ls.len() - i,
    {
        let ghost rest = vs.subrange(i as int, vs.len() as int);
        assert(rest[0] == ls@[i as int]@);
        assert(rest.drop_first() =~= vs.subrange(i as int + 1, vs.len() as int));
        i = i + 1;
    }
    proof {
        let rest = vs.subrange(i as int, vs.len() as int);
        if i < ls.len() {
            assert(rest[0] == ls@[i as int]@);
        }
        assert(without_event_summary(rest) == rest);
    }
    trim(join_from(&ls, i).as_str())
}

fn after_count_exec(data: &str) -> (r: Option<String>)
    ensures
        opt_view(r) == after_count(data@),
{
    if starts_with(data, "[") {
        match after_text(data, "]:") {
            Some(rest) => Some(trim_end_exec(strip_start(rest.as_str(), '\n').as_str())),
            None => None,
        }
    } else {
        None
    }
}

fn common_indent_exec(ls: &Vec<String>) -> (r: u128)
    ensures
        r == common_indent(views(ls@)),
{
    let ghost vs = views(ls@);
    let mut least: Option<u128> = None;
    let mut i: usize = 0;
    while i < ls.len()
        invariant
            i <= ls.len(),
            vs == views(ls@),
            match least {
                Some(k) => least_indent(vs, i as nat) == Some(k as nat),
                None => least_indent(vs, i as nat) is None,
            },
        decreases ls.len() - i,
    {
        assert(vs[i as int] == ls@[i as int]@);
        let line: &str = ls[i].as_str();
        if !trim(line).as_str().is_empty() {
            let all: Vec<char> = chars_of(line);
            let bare: Vec<char> = chars_of(trim_start_exec(line).as_str());
            proof {
                crate::text::lemma_leading_spaces_bound(line@);
            }
            let width: u128 = utf8_len_exec(&all, all.len() - bare.len());
            least = match least {
                Some(k) => if k <= width {
                    Some(k)
                } else {
                    Some(width)
                },
                None => Some(width),
            };
        }
        i = i + 1;
    }
    match least {
        Some(k) => k,
        None => 0,
    }
}

fn dedent(ls: &Vec<String>) -> (r: String)
    requires
        can_dedent(views(ls@)),
    ensures
        r@ == joined(
            views(ls@).map_values(|l: Seq<char>| dedented(l, common_indent(views(ls@)))),
            "\n"@,
        ),
{
    let ghost vs = views(ls@);
    let k: u128 = common_indent_exec(ls);
    let mut out: Vec<String> = Vec::new();
    let mut i: usize = 0;
    while i < ls.len()
        invariant
            i <= ls.len(),
            vs == views(ls@),
            can_dedent(vs),
            k == common_indent(vs),
            out.len() == i,
            forall|j: int| 0 <= j < i ==> (#[trigger] out@[j])@ == dedented(vs[j], k as nat),
        decreases ls.len() - i,
    {
        assert(vs[i as int] == ls@[i as int]@);
        let v: Vec<char> = chars_of(ls[i].as_str());
        assert(v@.subrange(0, v@.len() as int) =~= v@);
        let whole: u128 = utf8_len_exec(&v, v.len());
        if whole >= k {
            let cut: usize = match cut_bytes(&v, k) {
                Some(n) => n,
                None => 0,
            };
            out.push(slice_string(&v, cut, v.len()));
        } else {
            out.push(ls[i].clone());
        }
        i = i + 1;
    }
    assert(views(out@) =~= vs.map_values(|l: Seq<char>| dedented(l, common_indent(vs))));
    join(&out, "\n")
}

impl McpClient {
    /// Whether the indent of a list of system events can be taken off: no character stands
    /// across the byte at which a line is cut.
    pub fn system_events_can_dedent(text: &str) -> (r: bool)
        ensures
            r == system_data_ok(text@),
    {
        match after_count_exec(event_data_text(text).as_str()) {
            Some(rest) => {
                let ls: Vec<String> = split_lines(rest.as_str());
                let ghost vs = views(ls@);
                let k: u128 = common_indent_exec(&ls);
                let mut i: usize = 0;
                while i < ls.len()
                    invariant
                        i <= ls.len(),
                        vs == views(ls@),
                        vs == lines(rest@),
                        after_count(event_data(text@)) == Some(rest@),
                        k == common_indent(vs),
                        forall|j: int|
                            0 <= j < i && utf8_len(#[trigger] vs[j]) >= k ==> chars_in_bytes(
                                vs[j],
                                k as nat,
                            ) is Some,
                    decreases ls.len() - i,
                {
                    assert(vs[i as int] == ls@[i as int]@);
                    let v: Vec<char> = chars_of(ls[i].as_str());
                    assert(v@.subrange(0, v@.len() as int) =~= v@);
                    if utf8_len_exec(&v, v.len()) >= k && cut_bytes(&v, k).is_none() {
                        return false;
                    }
                    i = i + 1;
                }
                true
            },
            None => true,
        }
    }

    /// The list of system events in the text of an answer, if there are any.
    pub fn system_events_content(text: &str) -> (r: Option<String>)
        requires
            system_data_ok(text@),
        ensures
            opt_view(r) == system_data(text@),
    {
        let data: String = event_data_text(text);
        if data.as_str().is_empty() || same_text(data.as_str(), "[]") {
            return None;
        }
        match after_count_exec(data.as_str()) {
            Some(rest) => {
                if rest.as_str().is_empty() {
                    None
                } else {
                    let ls: Vec<String> = split_lines(rest.as_str());
                    Some(dedent(&ls))
                }
            },
            None => Some(data),
        }
    }

    /// The system events of an answer, given three readings in the order in which they count:
    /// the list as JSON, the list as TOON, the whole text as JSON.
    pub fn parse_system_events(
        has_data: bool,
        data: Option<Vec<SystemEventInfo>>,
        toon: Option<Vec<SystemEventInfo>>,
        text: Option<Vec<SystemEventInfo>>,
    ) -> (r: Vec<SystemEventInfo>)
        ensures
            r@ == (match first_reading(data, toon, text) {
                Some(list) => if has_data {
                    list@
                } else {
                    Seq::empty()
                },
                None => Seq::empty(),
            }),
    {
        if !has_data {
            return Vec::new();
        }
        match data {
            Some(list) => list,
            None => match toon {
                Some(list) => list,
                None => match text {
                    Some(list) => list,
                    None => Vec::new(),
                },
            },
        }
    }
}

} // verus!
