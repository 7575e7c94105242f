//! Lines of the Python fixture (`def main()`).

use vstd::prelude::*;

use super::{lemma_found, well_ordered, FixtureCodeMap};

verus! {

/// The line that all offsets are counted from.
pub const MAIN_LINE: u32 = 44;

/// The symbols of the fixture: name, offset of the declaration, offset of the first safe logpoint.
pub open spec fn symbol_map() -> Seq<(Seq<char>, u32, u32)> {
    seq![
        ("symbol"@, 11u32, 19u32),
        ("quantity"@, 12u32, 18u32),
        ("price"@, 13u32, 15u32),
        ("order_id"@, 16u32, 22u32),
        ("entry_price"@, 19u32, 20u32),
        ("current_price"@, 20u32, 21u32),
        ("pnl"@, 21u32, 23u32),
        ("print1"@, 23u32, 23u32),
        ("sleep"@, 25u32, 25u32),
    ]
}

/// The code map of the fixture.
pub fn codemap() -> (r: FixtureCodeMap)
    ensures
        r.base == MAIN_LINE,
        r.entries() == symbol_map(),
{
    let symbols: Vec<(&'static str, u32, u32)> = vec![
        ("symbol", 11, 19),
        ("quantity", 12, 18),
        ("price", 13, 15),
        ("order_id", 16, 22),
        ("entry_price", 19, 20),
        ("current_price", 20, 21),
        ("pnl", 21, 23),
        ("print1", 23, 23),
        ("sleep", 25, 25),
    ];
    let r = FixtureCodeMap::new(MAIN_LINE, symbols);
    assert(r.entries() =~= symbol_map());
    r
}

/// Every variable is observed only behind the line that declares it, every call on its own line, and
/// no name occurs twice.
pub proof fn law_symbols()
    ensures
        well_ordered(symbol_map()),
{
    reveal_strlit("symbol");
    reveal_strlit("quantity");
    reveal_strlit("price");
    reveal_strlit("order_id");
    reveal_strlit("entry_price");
    reveal_strlit("current_price");
    reveal_strlit("pnl");
    reveal_strlit("print1");
    reveal_strlit("sleep");
    assert("symbol"@.len() == 6);
    assert("quantity"@.len() == 8);
    assert("price"@.len() == 5);
    assert("order_id"@.len() == 8);
    assert("entry_price"@.len() == 11);
    assert("current_price"@.len() == 13);
    assert("pnl"@.len() == 3);
    assert("print1"@.len() == 6);
    assert("sleep"@.len() == 5);
    assert("symbol"@[0] != "print1"@[0]);
    assert("quantity"@[0] != "order_id"@[0]);
    assert("price"@[0] != "sleep"@[0]);
    reveal_strlit("log");
    assert("log"@.len() == 3);
    reveal_strlit("logOrder");
    assert("logOrder"@.len() == 8);
    reveal_strlit("flush");
    assert("flush"@.len() == 5);
    assert("quantity"@[0] != "logOrder"@[0]);
    assert("price"@[0] != "flush"@[0]);
    assert("order_id"@[0] != "logOrder"@[0]);
    assert("pnl"@[0] != "log"@[0]);
}

/// The lines of every symbol.
pub proof fn lemma_lines(map: &FixtureCodeMap)
    requires
        map.base == MAIN_LINE,
        map.entries() == symbol_map(),
    ensures
        map.has("symbol"@) && map.decl_line("symbol"@) == 55 && map.logpoint_line("symbol"@) == 63,
        map.has("quantity"@) && map.decl_line("quantity"@) == 56 && map.logpoint_line("quantity"@) == 62,
        map.has("price"@) && map.decl_line("price"@) == 57 && map.logpoint_line("price"@) == 59,
        map.has("order_id"@) && map.decl_line("order_id"@) == 60 && map.logpoint_line("order_id"@) == 66,
        map.has("entry_price"@) && map.decl_line("entry_price"@) == 63 && map.logpoint_line("entry_price"@) == 64,
        map.has("current_price"@) && map.decl_line("current_price"@) == 64 && map.logpoint_line("current_price"@) == 65,
        map.has("pnl"@) && map.decl_line("pnl"@) == 65 && map.logpoint_line("pnl"@) == 67,
        map.has("print1"@) && map.decl_line("print1"@) == 67 && map.logpoint_line("print1"@) == 67,
        map.has("sleep"@) && map.decl_line("sleep"@) == 69 && map.logpoint_line("sleep"@) == 69,
{
    law_symbols();
    let m = symbol_map();
    lemma_found(m, 0);
    lemma_found(m, 1);
    lemma_found(m, 2);
    lemma_found(m, 3);
    lemma_found(m, 4);
    lemma_found(m, 5);
    lemma_found(m, 6);
    lemma_found(m, 7);
    lemma_found(m, 8);
}

} // verus!
