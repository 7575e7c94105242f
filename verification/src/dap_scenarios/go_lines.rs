//! Lines of the Go string capture fixture (`func tradeTick()`).

use vstd::prelude::*;

use super::{lemma_found, well_ordered, FixtureCodeMap};

verus! {

/// The line that all offsets are counted from.
pub const MAIN_LINE: u32 = 103;

/// The last line of the `Order` struct.
pub const ORDER_STRUCT_END: u32 = 87;

/// The symbols of the fixture: name, offset of the declaration, offset of the first safe logpoint.
pub open spec fn symbol_map() -> Seq<(Seq<char>, u32, u32)> {
    seq![
        ("iteration"@, 4u32, 5u32),
        ("symbol"@, 5u32, 6u32),
        ("quantity"@, 6u32, 7u32),
        ("price"@, 7u32, 8u32),
        ("direction"@, 8u32, 12u32),
        ("labelConcat"@, 12u32, 17u32),
        ("labelSprintf"@, 14u32, 17u32),
        ("orderID"@, 17u32, 20u32),
        ("entryPrice"@, 20u32, 21u32),
        ("currentPrice"@, 21u32, 22u32),
        ("pnl"@, 22u32, 25u32),
        ("totalPnl"@, 25u32, 26u32),
        ("lastOrderID"@, 26u32, 29u32),
        ("log"@, 29u32, 29u32),
        ("sleep"@, 31u32, 31u32),
    ]
}

/// The code map of the fixture.
pub fn codemap() -> (r: FixtureCodeMap)
    ensures
        r.base == MAIN_LINE,
        r.entries() == symbol_map(),
{
    let symbols: Vec<(&'static str, u32, u32)> = vec![
        ("iteration", 4, 5),
        ("symbol", 5, 6),
        ("quantity", 6, 7),
        ("price", 7, 8),
        ("direction", 8, 12),
        ("labelConcat", 12, 17),
        ("labelSprintf", 14, 17),
        ("orderID", 17, 20),
        ("entryPrice", 20, 21),
        ("currentPrice", 21, 22),
        ("pnl", 22, 25),
        ("totalPnl", 25, 26),
        ("lastOrderID", 26, 29),
        ("log", 29, 29),
        ("sleep", 31, 31),
    ];
    let r = FixtureCodeMap::new(MAIN_LINE, symbols);
    assert(r.entries() =~= symbol_map());
    r
}

/// The line at an offset.
pub fn line(offset: u32) -> (r: u32)
    requires
        MAIN_LINE + offset <= u32::MAX,
    ensures
        r == MAIN_LINE + offset,
{
    MAIN_LINE + offset
}

/// Every variable is observed only behind the line that declares it, every call on its own line, and
/// no name occurs twice.
pub proof fn law_symbols()
    ensures
        well_ordered(symbol_map()),
{
    reveal_strlit("iteration");
    reveal_strlit("symbol");
    reveal_strlit("quantity");
    reveal_strlit("price");
    reveal_strlit("direction");
    reveal_strlit("labelConcat");
    reveal_strlit("labelSprintf");
    reveal_strlit("orderID");
    reveal_strlit("entryPrice");
    reveal_strlit("currentPrice");
    reveal_strlit("pnl");
    reveal_strlit("totalPnl");
    reveal_strlit("lastOrderID");
    reveal_strlit("log");
    reveal_strlit("sleep");
    assert("iteration"@.len() == 9);
    assert("symbol"@.len() == 6);
    assert("quantity"@.len() == 8);
    assert("price"@.len() == 5);
    assert("direction"@.len() == 9);
    assert("labelConcat"@.len() == 11);
    assert("labelSprintf"@.len() == 12);
    assert("orderID"@.len() == 7);
    assert("entryPrice"@.len() == 10);
    assert("currentPrice"@.len() == 12);
    assert("pnl"@.len() == 3);
    assert("totalPnl"@.len() == 8);
    assert("lastOrderID"@.len() == 11);
    assert("log"@.len() == 3);
    assert("sleep"@.len() == 5);
    assert("iteration"@[0] != "direction"@[0]);
    assert("quantity"@[0] != "totalPnl"@[0]);
    assert("price"@[0] != "sleep"@[0]);
    assert("labelConcat"@[2] != "lastOrderID"@[2]);
    assert("labelSprintf"@[0] != "currentPrice"@[0]);
    assert("pnl"@[0] != "log"@[0]);
    reveal_strlit("logOrder");
    assert("logOrder"@.len() == 8);
    reveal_strlit("print1");
    assert("print1"@.len() == 6);
    reveal_strlit("flush");
    assert("flush"@.len() == 5);
    assert("symbol"@[0] != "print1"@[0]);
    assert("quantity"@[0] != "logOrder"@[0]);
    assert("price"@[0] != "flush"@[0]);
    assert("totalPnl"@[0] != "logOrder"@[0]);
}

/// The lines of every symbol.
pub proof fn lemma_lines(map: &FixtureCodeMap)
    requires
        map.base == MAIN_LINE,
        map.entries() == symbol_map(),
    ensures
        map.has("iteration"@) && map.decl_line("iteration"@) == 107 && map.logpoint_line("iteration"@) == 108,
        map.has("symbol"@) && map.decl_line("symbol"@) == 108 && map.logpoint_line("symbol"@) == 109,
        map.has("quantity"@) && map.decl_line("quantity"@) == 109 && map.logpoint_line("quantity"@) == 110,
        map.has("price"@) && map.decl_line("price"@) == 110 && map.logpoint_line("price"@) == 111,
        map.has("direction"@) && map.decl_line("direction"@) == 111 && map.logpoint_line("direction"@) == 115,
        map.has("labelConcat"@) && map.decl_line("labelConcat"@) == 115 && map.logpoint_line("labelConcat"@) == 120,
        map.has("labelSprintf"@) && map.decl_line("labelSprintf"@) == 117 && map.logpoint_line("labelSprintf"@) == 120,
        map.has("orderID"@) && map.decl_line("orderID"@) == 120 && map.logpoint_line("orderID"@) == 123,
        map.has("entryPrice"@) && map.decl_line("entryPrice"@) == 123 && map.logpoint_line("entryPrice"@) == 124,
        map.has("currentPrice"@) && map.decl_line("currentPrice"@) == 124 && map.logpoint_line("currentPrice"@) == 125,
        map.has("pnl"@) && map.decl_line("pnl"@) == 125 && map.logpoint_line("pnl"@) == 128,
        map.has("totalPnl"@) && map.decl_line("totalPnl"@) == 128 && map.logpoint_line("totalPnl"@) == 129,
        map.has("lastOrderID"@) && map.decl_line("lastOrderID"@) == 129 && map.logpoint_line("lastOrderID"@) == 132,
        map.has("log"@) && map.decl_line("log"@) == 132 && map.logpoint_line("log"@) == 132,
        map.has("sleep"@) && map.decl_line("sleep"@) == 134 && map.logpoint_line("sleep"@) == 134,
{
    law_symbols();
    let m = symbol_map();
    lemma_found(m, 0);
    lemma_found(m, 1);
    lemma_found(m, 2);
    lemma_found(m, 3);
    lemma_found(m, 4);
    lemma_found(m, 5);
    lemma_found(m, 6);
    lemma_found(m, 7);
    lemma_found(m, 8);
    lemma_found(m, 9);
    lemma_found(m, 10);
    lemma_found(m, 11);
    lemma_found(m, 12);
    lemma_found(m, 13);
    lemma_found(m, 14);
}

} // verus!
