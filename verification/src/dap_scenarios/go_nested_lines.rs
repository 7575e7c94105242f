//! Lines of the Go nested types fixture (`func main()`).

use vstd::prelude::*;

use super::{well_ordered, FixtureCodeMap};

verus! {

/// The line that all offsets are counted from.
pub const NESTED_MAIN_LINE: u32 = 126;

/// The symbols of the fixture: name, offset of the declaration, offset of the first safe logpoint.
pub open spec fn symbol_map() -> Seq<(Seq<char>, u32, u32)> {
    seq![
        ("order"@, 28u32, 30u32),
        ("history"@, 35u32, 36u32),
        ("ptrWrapper"@, 39u32, 40u32),
        ("logOrder"@, 42u32, 42u32),
        ("i"@, 46u32, 47u32),
        ("item"@, 46u32, 47u32),
        ("key"@, 52u32, 53u32),
        ("tag"@, 52u32, 53u32),
        ("status"@, 57u32, 58u32),
        ("categoryName"@, 60u32, 61u32),
        ("timestamp"@, 63u32, 64u32),
    ]
}

/// The code map of the fixture.
pub fn codemap() -> (r: FixtureCodeMap)
    ensures
        r.base == NESTED_MAIN_LINE,
        r.entries() == symbol_map(),
{
    let symbols: Vec<(&'static str, u32, u32)> = vec![
        ("order", 28, 30),
        ("history", 35, 36),
        ("ptrWrapper", 39, 40),
        ("logOrder", 42, 42),
        ("i", 46, 47),
        ("item", 46, 47),
        ("key", 52, 53),
        ("tag", 52, 53),
        ("status", 57, 58),
        ("categoryName", 60, 61),
        ("timestamp", 63, 64),
    ];
    let r = FixtureCodeMap::new(NESTED_MAIN_LINE, symbols);
    assert(r.entries() =~= symbol_map());
    r
}

/// The line at an offset.
pub fn line(offset: u32) -> (r: u32)
    requires
        NESTED_MAIN_LINE + offset <= u32::MAX,
    ensures
        r == NESTED_MAIN_LINE + offset,
{
    NESTED_MAIN_LINE + offset
}

/// Every variable is observed only behind the line that declares it, every call on its own line, and
/// no name occurs twice.
pub proof fn law_symbols()
    ensures
        well_ordered(symbol_map()),
{
    reveal_strlit("order");
    reveal_strlit("history");
    reveal_strlit("ptrWrapper");
    reveal_strlit("logOrder");
    reveal_strlit("i");
    reveal_strlit("item");
    reveal_strlit("key");
    reveal_strlit("tag");
    reveal_strlit("status");
    reveal_strlit("categoryName");
    reveal_strlit("timestamp");
    assert("order"@.len() == 5);
    assert("history"@.len() == 7);
    assert("ptrWrapper"@.len() == 10);
    assert("logOrder"@.len() == 8);
    assert("i"@.len() == 1);
    assert("item"@.len() == 4);
    assert("key"@.len() == 3);
    assert("tag"@.len() == 3);
    assert("status"@.len() == 6);
    assert("categoryName"@.len() == 12);
    assert("timestamp"@.len() == 9);
    assert("key"@[0] != "tag"@[0]);
    reveal_strlit("log");
    assert("log"@.len() == 3);
    reveal_strlit("print1");
    assert("print1"@.len() == 6);
    reveal_strlit("flush");
    assert("flush"@.len() == 5);
    reveal_strlit("sleep");
    assert("sleep"@.len() == 5);
    assert("order"@[0] != "flush"@[0]);
    assert("order"@[0] != "sleep"@[0]);
    assert("key"@[0] != "log"@[0]);
    assert("tag"@[0] != "log"@[0]);
    assert("status"@[0] != "print1"@[0]);
}

} // verus!
