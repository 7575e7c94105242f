//! Lines of the Rust fixture (`fn main()`).

use vstd::prelude::*;

use super::{lemma_found, well_ordered, FixtureCodeMap};

verus! {

/// The line that all offsets are counted from.
pub const MAIN_LINE: u32 = 76;

/// The symbols of the fixture: name, offset of the declaration, offset of the first safe logpoint.
pub open spec fn symbol_map() -> Seq<(Seq<char>, u32, u32)> {
    seq![
        ("symbol"@, 31u32, 33u32),
        ("quantity"@, 33u32, 35u32),
        ("price"@, 35u32, 38u32),
        ("order_id"@, 38u32, 41u32),
        ("entry_price"@, 41u32, 43u32),
        ("current_price"@, 43u32, 45u32),
        ("pnl"@, 45u32, 52u32),
        ("log"@, 52u32, 52u32),
        ("flush"@, 54u32, 54u32),
        ("sleep"@, 56u32, 56u32),
    ]
}

/// The code map of the fixture.
pub fn codemap() -> (r: FixtureCodeMap)
    ensures
        r.base == MAIN_LINE,
        r.entries() == symbol_map(),
{
    let symbols: Vec<(&'static str, u32, u32)> = vec![
        ("symbol", 31, 33),
        ("quantity", 33, 35),
        ("price", 35, 38),
        ("order_id", 38, 41),
        ("entry_price", 41, 43),
        ("current_price", 43, 45),
        ("pnl", 45, 52),
        ("log", 52, 52),
        ("flush", 54, 54),
        ("sleep", 56, 56),
    ];
    let r = FixtureCodeMap::new(MAIN_LINE, symbols);
    assert(r.entries() =~= symbol_map());
    r
}

/// Every variable is observed only behind the line that declares it, every call on its own line, and
/// no name occurs twice.
pub proof fn law_symbols()
    ensures
        well_ordered(symbol_map()),
{
    reveal_strlit("symbol");
    reveal_strlit("quantity");
    reveal_strlit("price");
    reveal_strlit("order_id");
    reveal_strlit("entry_price");
    reveal_strlit("current_price");
    reveal_strlit("pnl");
    reveal_strlit("log");
    reveal_strlit("flush");
    reveal_strlit("sleep");
    assert("symbol"@.len() == 6);
    assert("quantity"@.len() == 8);
    assert("price"@.len() == 5);
    assert("order_id"@.len() == 8);
    assert("entry_price"@.len() == 11);
    assert("current_price"@.len() == 13);
    assert("pnl"@.len() == 3);
    assert("log"@.len() == 3);
    assert("flush"@.len() == 5);
    assert("sleep"@.len() == 5);
    assert("quantity"@[0] != "order_id"@[0]);
    assert("price"@[0] != "flush"@[0]);
    assert("price"@[0] != "sleep"@[0]);
    assert("flush"@[0] != "sleep"@[0]);
    assert("pnl"@[0] != "log"@[0]);
    reveal_strlit("logOrder");
    assert("logOrder"@.len() == 8);
    reveal_strlit("print1");
    assert("print1"@.len() == 6);
    assert("symbol"@[0] != "print1"@[0]);
    assert("quantity"@[0] != "logOrder"@[0]);
    assert("order_id"@[0] != "logOrder"@[0]);
}

/// The lines of every symbol.
pub proof fn lemma_lines(map: &FixtureCodeMap)
    requires
        map.base == MAIN_LINE,
        map.entries() == symbol_map(),
    ensures
        map.has("symbol"@) && map.decl_line("symbol"@) == 107 && map.logpoint_line("symbol"@) == 109,
        map.has("quantity"@) && map.decl_line("quantity"@) == 109 && map.logpoint_line("quantity"@) == 111,
        map.has("price"@) && map.decl_line("price"@) == 111 && map.logpoint_line("price"@) == 114,
        map.has("order_id"@) && map.decl_line("order_id"@) == 114 && map.logpoint_line("order_id"@) == 117,
        map.has("entry_price"@) && map.decl_line("entry_price"@) == 117 && map.logpoint_line("entry_price"@) == 119,
        map.has("current_price"@) && map.decl_line("current_price"@) == 119 && map.logpoint_line("current_price"@) == 121,
        map.has("pnl"@) && map.decl_line("pnl"@) == 121 && map.logpoint_line("pnl"@) == 128,
        map.has("log"@) && map.decl_line("log"@) == 128 && map.logpoint_line("log"@) == 128,
        map.has("flush"@) && map.decl_line("flush"@) == 130 && map.logpoint_line("flush"@) == 130,
        map.has("sleep"@) && map.decl_line("sleep"@) == 132 && map.logpoint_line("sleep"@) == 132,
{
    law_symbols();
    let m = symbol_map();
    lemma_found(m, 0);
    lemma_found(m, 1);
    lemma_found(m, 2);
    lemma_found(m, 3);
    lemma_found(m, 4);
    lemma_found(m, 5);
    lemma_found(m, 6);
    lemma_found(m, 7);
    lemma_found(m, 8);
    lemma_found(m, 9);
}

} // verus!
