//! Lines of the Go classic map fixture (`func main()`).

use vstd::prelude::*;

use super::{well_ordered, FixtureCodeMap};

verus! {

/// The line that all offsets are counted from.
pub const CLASSIC_MAIN_LINE: u32 = 30;

/// The symbols of the fixture: name, offset of the declaration, offset of the first safe logpoint.
pub open spec fn symbol_map() -> Seq<(Seq<char>, u32, u32)> {
    seq![
        ("iteration"@, 7u32, 9u32),
        ("order"@, 12u32, 24u32),
        ("nilMap"@, 21u32, 27u32),
    ]
}

/// The code map of the fixture.
pub fn codemap() -> (r: FixtureCodeMap)
    ensures
        r.base == CLASSIC_MAIN_LINE,
        r.entries() == symbol_map(),
{
    let symbols: Vec<(&'static str, u32, u32)> = vec![
        ("iteration", 7, 9),
        ("order", 12, 24),
        ("nilMap", 21, 27),
    ];
    let r = FixtureCodeMap::new(CLASSIC_MAIN_LINE, symbols);
    assert(r.entries() =~= symbol_map());
    r
}

/// The line at an offset.
pub fn line(offset: u32) -> (r: u32)
    requires
        CLASSIC_MAIN_LINE + offset <= u32::MAX,
    ensures
        r == CLASSIC_MAIN_LINE + offset,
{
    CLASSIC_MAIN_LINE + offset
}

/// Every variable is observed only behind the line that declares it, every call on its own line, and
/// no name occurs twice.
pub proof fn law_symbols()
    ensures
        well_ordered(symbol_map()),
{
    reveal_strlit("iteration");
    reveal_strlit("order");
    reveal_strlit("nilMap");
    assert("iteration"@.len() == 9);
    assert("order"@.len() == 5);
    assert("nilMap"@.len() == 6);
    reveal_strlit("log");
    assert("log"@.len() == 3);
    reveal_strlit("logOrder");
    assert("logOrder"@.len() == 8);
    reveal_strlit("print1");
    assert("print1"@.len() == 6);
    reveal_strlit("flush");
    assert("flush"@.len() == 5);
    reveal_strlit("sleep");
    assert("sleep"@.len() == 5);
    assert("order"@[0] != "flush"@[0]);
    assert("order"@[0] != "sleep"@[0]);
    assert("nilMap"@[0] != "print1"@[0]);
}

} // verus!
