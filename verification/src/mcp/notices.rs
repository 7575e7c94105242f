//! What is reported of an answer that could not be read in full.

use vstd::prelude::*;

use super::answers::McpReading;
use super::connection_of_line;
use super::content_text;
use super::tables::{first_reading, list_data, read_ones};
use crate::client::EventInfo;
use crate::exchange::{Action, ActionView};
use crate::json::{Json, JsonView};
use crate::mcp::McpClient;
use crate::text::{
    cat3, contains, lines, parse_u16, parsed_unsigned, pieces, split_char, split_lines, starts_with,
    trim, trimmed, views,
};

verus! {

/// What is reported of a port that is no number.
pub open spec fn bad_port_notice(port: Seq<char>) -> Seq<char> {
    "[WARN] Failed to parse port '"@ + port + "' in connection response, defaulting to 0"@
}

/// What is reported of an answer in which no event was found.
pub open spec fn no_events_notice() -> Seq<char> {
    "[DEBUG parse_events] No events parsed from any format"@
}

/// What is reported of a line: the port of the connection that it describes, where that is no
/// number.
pub open spec fn notice_of_line(line: Seq<char>) -> Option<Seq<char>> {
    let port = trimmed(pieces(trimmed(line), ',')[2]);
    if connection_of_line(line) is Some && parsed_unsigned(port, u16::MAX as nat) is None {
        Some(bad_port_notice(port))
    } else {
        None
    }
}

/// What is reported of the first `n` lines.
pub open spec fn notices_of_lines(ls: Seq<Seq<char>>, n: nat) -> Seq<Seq<char>>
    decreases n,
{
    if n == 0 {
        Seq::empty()
    } else {
        let rest = notices_of_lines(ls, (n - 1) as nat);
        match notice_of_line(ls[n - 1]) {
            Some(notice) => rest.push(notice),
            None => rest,
        }
    }
}

/// No reading of the whole succeeded, and none of a single object.
pub open spec fn finds_no_events(
    toon: Option<Vec<EventInfo>>,
    data: Option<Vec<EventInfo>>,
    text: Option<Vec<EventInfo>>,
    blocks: Seq<Option<EventInfo>>,
) -> bool {
    &&& first_reading(toon, data, text) is None
    &&& read_ones(blocks, blocks.len()).len() == 0
}

/// What is reported of an answer: each port of a list of connections that is no number, and that
/// a list of events that is there could not be read.
pub open spec fn notices_of(action: ActionView, json: JsonView, reading: McpReading) -> Seq<
    Seq<char>,
> {
    match action {
        ActionView::ListConnections => match content_text(json) {
            Some(text) => notices_of_lines(lines(text), lines(text).len()),
            None => Seq::empty(),
        },
        ActionView::QueryEvents(..) => match reading {
            McpReading::Events { toon, data, text, blocks } => if list_data(json) is Some
                && finds_no_events(toon, data, text, blocks@) {
                seq![no_events_notice()]
            } else {
                Seq::empty()
            },
            _ => Seq::empty(),
        },
        _ => Seq::empty(),
    }
}

proof fn lemma_read_ones_empty(items: Seq<Option<EventInfo>>, n: nat)
    requires
        n <= items.len(),
    ensures
        read_ones(items, n).len() == 0 <==> forall|i: int|
            0 <= i < n ==> #[trigger] items[i] is None,
    decreases n,
{
    if n > 0 {
        lemma_read_ones_empty(items, (n - 1) as nat);
        if read_ones(items, n).len() == 0 {
            assert(items[n - 1] is None);
        }
    }
}

fn line_notice(line: &str) -> (r: Option<String>)
    ensures
        r is Some <==> notice_of_line(line@) is Some,
        r matches Some(n) ==> notice_of_line(line@) == Some(n@),
{
    if !contains(line, ",") || starts_with(line, "[") || starts_with(line, "Found") {
        return None;
    }
    let parts: Vec<String> = split_char(trim(line).as_str(), ',');
    let ghost ps = views(parts@);
    if parts.len() < 5 {
        return None;
    }
    assert(ps[2] == parts@[2]@);
    let port: String = trim(parts[2].as_str());
    match parse_u16(port.as_str()) {
        Some(_) => None,
        None => Some(
            cat3(
                "[WARN] Failed to parse port '",
                port.as_str(),
                "' in connection response, defaulting to 0",
            ),
        ),
    }
}

fn lines_notices(text: &str) -> (r: Vec<String>)
    ensures
        views(r@) == notices_of_lines(lines(text@), lines(text@).len()),
{
    let mut out: Vec<String> = Vec::new();
    assert(views(out@) =~= Seq::<Seq<char>>::empty());
    let ls: Vec<String> = split_lines(text);
    let ghost vs = views(ls@);
    let mut i: usize = 0;
    while i < ls.len()
        invariant
            i <= ls.len(),
            vs == views(ls@),
            views(out@) == notices_of_lines(vs, i as nat),
        decreases ls.len() - i,
    {
        assert(vs[i as int] == ls@[i as int]@);
        match line_notice(ls[i].as_str()) {
            Some(notice) => {
                let ghost before = out@;
                out.push(notice);
                assert(views(out@) =~= views(before).push(notice@));
            },
            None => {},
        }
        i = i + 1;
    }
    out
}

fn all_unread(blocks: &Vec<Option<EventInfo>>) -> (r: bool)
    ensures
        r == (read_ones(blocks@, blocks@.len()).len() == 0),
{
    proof {
        lemma_read_ones_empty(blocks@, blocks@.len());
    }
    let mut i: usize = 0;
    while i < blocks.len()
        invariant
            i <= blocks.len(),
            forall|j: int| 0 <= j < i ==> #[trigger] blocks@[j] is None,
            read_ones(blocks@, blocks@.len()).len() == 0 <==> forall|j: int|
                0 <= j < blocks@.len() ==> #[trigger] blocks@[j] is None,
        decreases blocks.len() - i,
    {
        if blocks[i].is_some() {
            assert(blocks@[i as int] is Some);
            return false;
        }
        i = i + 1;
    }
    true
}

impl McpClient {
    /// What is reported of an answer before it is taken.
    pub fn notices(action: &Action, json: &Json, reading: &McpReading) -> (r: Vec<String>)
        ensures
            views(r@) == notices_of(action@, json@, *reading),
    {
        let mut out: Vec<String> = Vec::new();
        assert(views(out@) =~= Seq::<Seq<char>>::empty());
        match action {
            Action::ListConnections => match Self::extract_text(json) {
                Some(text) => lines_notices(text.as_str()),
                None => out,
            },
            Action::QueryEvents { .. } => {
                match reading {
                    McpReading::Events { toon, data, text, blocks } => {
                        if Self::list_content(json).is_some() && toon.is_none() && data.is_none()
                            && text.is_none() && all_unread(blocks) {
                            let notice: String =
                                "[DEBUG parse_events] No events parsed from any format".to_owned();
                            out.push(notice);
                            assert(views(out@) =~= seq![no_events_notice()]);
                        }
                    },
                    _ => {},
                }
                out
            },
            _ => out,
        }
    }
}

} // verus!
