//! Text primitives over sequences of characters: searching, trimming, splitting, joining,
//! and the decimal notation of integers.
//!
//! Every executable function here is stated over the `Seq<char>` view of its arguments, so
//! that the parsers and message builders of the crate can be specified on plain sequences.

use vstd::prelude::*;

pub mod laws;

verus! {

/// The length of a text, its first and its last character, and two in between: texts that differ
/// in these are different.
pub open spec fn outline(s: Seq<char>) -> (nat, char, char, char, char) {
    (s.len(), s[0], s[s.len() - 1], s[(s.len() / 2) as int], s[(s.len() * 3 / 4) as int])
}

// ---------------------------------------------------------------------------
// Building strings
// ---------------------------------------------------------------------------

/// `String::push` of std: the character is added at the end of the string.
pub assume_specification[ String::push ](s: &mut String, c: char)
    ensures
        final(s)@ == old(s)@.push(c),
;

/// The views of a list of strings.
pub open spec fn views(items: Seq<String>) -> Seq<Seq<char>> {
    items.map_values(|s: String| s@)
}

/// The view of an optional string.
pub open spec fn opt_view(s: Option<String>) -> Option<Seq<char>> {
    match s {
        Some(t) => Some(t@),
        None => None,
    }
}

/// The view of an optional string slice.
pub open spec fn opt_str_view(s: Option<&str>) -> Option<Seq<char>> {
    match s {
        Some(t) => Some(t@),
        None => None,
    }
}

/// Owned copy of an optional string slice.
pub fn own_opt(s: Option<&str>) -> (r: Option<String>)
    ensures
        opt_view(r) == opt_str_view(s),
{
    match s {
        Some(t) => Some(t.to_owned()),
        None => None,
    }
}

/// Copy of an optional string.
pub fn clone_opt(s: &Option<String>) -> (r: Option<String>)
    ensures
        r == *s,
{
    match s {
        Some(t) => Some(t.clone()),
        None => None,
    }
}

/// Copy of a list of strings.
pub fn clone_strings(items: &Vec<String>) -> (r: Vec<String>)
    ensures
        r@ == items@,
{
    let mut out: Vec<String> = Vec::new();
    let mut i: usize = 0;
    while i < items.len()
        invariant
            i <= items.len(),
            out@ == items@.subrange(0, i as int),
        decreases items.len() - i,
    {
        out.push(items[i].clone());
        i = i + 1;
        assert(out@ =~= items@.subrange(0, i as int));
    }
    assert(out@ =~= items@);
    out
}

/// Concatenation of two texts.
pub fn cat2(a: &str, b: &str) -> (r: String)
    ensures
        r@ == a@ + b@,
{
    a.to_owned().concat(b)
}

/// Concatenation of three texts.
pub fn cat3(a: &str, b: &str, c: &str) -> (r: String)
    ensures
        r@ == a@ + b@ + c@,
{
    a.to_owned().concat(b).concat(c)
}

/// Concatenation of four texts.
pub fn cat4(a: &str, b: &str, c: &str, d: &str) -> (r: String)
    ensures
        r@ == a@ + b@ + c@ + d@,
{
    a.to_owned().concat(b).concat(c).concat(d)
}

/// Concatenation of five texts.
pub fn cat5(a: &str, b: &str, c: &str, d: &str, e: &str) -> (r: String)
    ensures
        r@ == a@ + b@ + c@ + d@ + e@,
{
    a.to_owned().concat(b).concat(c).concat(d).concat(e)
}

/// Concatenation of six texts.
pub fn cat6(a: &str, b: &str, c: &str, d: &str, e: &str, f: &str) -> (r: String)
    ensures
        r@ == a@ + b@ + c@ + d@ + e@ + f@,
{
    a.to_owned().concat(b).concat(c).concat(d).concat(e).concat(f)
}

/// Concatenation of seven texts.
pub fn cat7(a: &str, b: &str, c: &str, d: &str, e: &str, f: &str, g: &str) -> (r: String)
    ensures
        r@ == a@ + b@ + c@ + d@ + e@ + f@ + g@,
{
    a.to_owned().concat(b).concat(c).concat(d).concat(e).concat(f).concat(g)
}

/// Concatenation of eight texts.
pub fn cat8(a: &str, b: &str, c: &str, d: &str, e: &str, f: &str, g: &str, h: &str) -> (r: String)
    ensures
        r@ == a@ + b@ + c@ + d@ + e@ + f@ + g@ + h@,
{
    a.to_owned().concat(b).concat(c).concat(d).concat(e).concat(f).concat(g).concat(h)
}

/// Concatenation of nine texts.
pub fn cat9(
    a: &str,
    b: &str,
    c: &str,
    d: &str,
    e: &str,
    f: &str,
    g: &str,
    h: &str,
    i: &str,
) -> (r: String)
    ensures
        r@ == a@ + b@ + c@ + d@ + e@ + f@ + g@ + h@ + i@,
{
    a.to_owned().concat(b).concat(c).concat(d).concat(e).concat(f).concat(g).concat(h).concat(i)
}

/// The characters of a text.
pub fn chars_of(s: &str) -> (r: Vec<char>)
    ensures
        r@ == s@,
{
    let mut out: Vec<char> = Vec::new();
    for c in it: s.chars()
        invariant
            it.seq() == s@,
            out@ == s@.subrange(0, it.index() as int),
    {
        out.push(c);
        assert(out@ =~= s@.subrange(0, it.index() as int + 1));
    }
    assert(out@ =~= s@);
    out
}

/// The string of the characters from `from` up to, and without, `to`.
pub fn slice_string(chars: &Vec<char>, from: usize, to: usize) -> (r: String)
    requires
        from <= to <= chars.len(),
    ensures
        r@ == chars@.subrange(from as int, to as int),
{
    let mut out: String = String::new();
    let mut i: usize = from;
    while i < to
        invariant
            from <= i <= to <= chars.len(),
            out@ =~= chars@.subrange(from as int, i as int),
        decreases to - i,
    {
        out.push(chars[i]);
        i = i + 1;
    }
    out
}

/// Equality of two texts.
pub fn same_text(a: &str, b: &str) -> (r: bool)
    ensures
        r == (a@ == b@),
{
    a.to_owned() == b.to_owned()
}

/// What `str::to_lowercase` of std makes of a text.
pub uninterp spec fn lowercase(s: Seq<char>) -> Seq<char>;

/// `str::to_lowercase` of std: the lowercase form by the Unicode rules, the same in every
/// locale. The result is called `lowercase`.
#[verifier::external_body]
pub(crate) fn to_lowercase(s: &str) -> (r: String)
    ensures
        r@ == lowercase(s@),
{
    s.to_lowercase()
}

/// What std's `Debug` formatting makes of a text: the text in quotes, with escapes.
pub uninterp spec fn debug_text(s: Seq<char>) -> Seq<char>;

/// The `Debug` formatting of `str` in std. The result is called `debug_text`.
#[verifier::external_body]
pub(crate) fn format_debug(s: &str) -> (r: String)
    ensures
        r@ == debug_text(s@),
{
    format!("{:?}", s)
}

/// The `Debug` formatting of an optional text.
pub open spec fn debug_opt_text(s: Option<Seq<char>>) -> Seq<char> {
    match s {
        Some(t) => "Some("@ + debug_text(t) + ")"@,
        None => "None"@,
    }
}

/// The `Debug` formatting of an optional text.
pub fn format_debug_opt(s: &Option<String>) -> (r: String)
    ensures
        r@ == debug_opt_text(opt_view(*s)),
{
    match s {
        Some(t) => cat3("Some(", format_debug(t.as_str()).as_str(), ")"),
        None => "None".to_owned(),
    }
}

/// The number of bytes of a text in UTF-8.
pub open spec fn byte_len(s: Seq<char>) -> usize {
    vstd::utf8::encode_utf8(s).len() as usize
}

/// The number of bytes of a character in UTF-8.
pub open spec fn char_width(c: char) -> nat {
    let n = c as u32;
    if n < 0x80 {
        1
    } else if n < 0x800 {
        2
    } else if n < 0x1_0000 {
        3
    } else {
        4
    }
}

/// The number of bytes of a text in UTF-8, character by character.
pub open spec fn utf8_len(s: Seq<char>) -> nat
    decreases s.len(),
{
    if s.len() == 0 {
        0
    } else {
        utf8_len(s.drop_last()) + char_width(s.last())
    }
}

/// How many characters make up the first `n` bytes; none where `n` falls inside a character or
/// behind the end.
pub open spec fn chars_in_bytes(s: Seq<char>, n: nat) -> Option<nat> {
    if exists|k: nat| k <= s.len() && #[trigger] utf8_len(s.subrange(0, k as int)) == n {
        Some(choose|k: nat| k <= s.len() && #[trigger] utf8_len(s.subrange(0, k as int)) == n)
    } else {
        None
    }
}

/// A longer beginning of a text has more bytes.
pub proof fn lemma_utf8_len_grows(s: Seq<char>, i: int, j: int)
    requires
        0 <= i < j <= s.len(),
    ensures
        utf8_len(s.subrange(0, i)) < utf8_len(s.subrange(0, j)),
    decreases j - i,
{
    let t = s.subrange(0, j);
    assert(t.drop_last() =~= s.subrange(0, j - 1));
    if i < j - 1 {
        lemma_utf8_len_grows(s, i, j - 1);
    }
}

/// The number of characters that make up some bytes is one number only.
pub proof fn lemma_chars_in_bytes_is(s: Seq<char>, n: nat, k: nat)
    requires
        k <= s.len(),
        utf8_len(s.subrange(0, k as int)) == n,
    ensures
        chars_in_bytes(s, n) == Some(k),
{
    let c = choose|c: nat| c <= s.len() && #[trigger] utf8_len(s.subrange(0, c as int)) == n;
    if c < k {
        lemma_utf8_len_grows(s, c as int, k as int);
    }
    if k < c {
        lemma_utf8_len_grows(s, k as int, c as int);
    }
}

fn char_width_exec(c: char) -> (r: u128)
    ensures
        r == char_width(c),
        1 <= r <= 4,
{
    let n: u32 = c as u32;
    if n < 0x80 {
        1
    } else if n < 0x800 {
        2
    } else if n < 0x1_0000 {
        3
    } else {
        4
    }
}

/// The number of bytes of the first `to` characters.
pub fn utf8_len_exec(v: &Vec<char>, to: usize) -> (r: u128)
    requires
        to <= v.len(),
    ensures
        r == utf8_len(v@.subrange(0, to as int)),
        r <= 4 * to,
{
    let mut total: u128 = 0;
    let mut i: usize = 0;
    assert(v@.subrange(0, 0) =~= Seq::<char>::empty());
    while i < to
        invariant
            i <= to <= v.len(),
            total == utf8_len(v@.subrange(0, i as int)),
            total <= 4 * i,
        decreases to - i,
    {
        assert(v@.subrange(0, i + 1).drop_last() =~= v@.subrange(0, i as int));
        total = total + char_width_exec(v[i]);
        i = i + 1;
    }
    total
}

/// How many characters make up the first `n` bytes, if a number of them does.
pub fn cut_bytes(v: &Vec<char>, n: u128) -> (r: Option<usize>)
    ensures
        r matches Some(k) ==> k <= v.len() && chars_in_bytes(v@, n as nat) == Some(k as nat),
        r is None ==> chars_in_bytes(v@, n as nat) is None,
{
    let mut total: u128 = 0;
    let mut i: usize = 0;
    assert(v@.subrange(0, 0) =~= Seq::<char>::empty());
    while i < v.len() && total < n
        invariant
            i <= v.len(),
            total == utf8_len(v@.subrange(0, i as int)),
            total <= 4 * i,
            forall|j: int| 0 <= j < i ==> #[trigger] utf8_len(v@.subrange(0, j)) < n,
        decreases v.len() - i,
    {
        assert(v@.subrange(0, i + 1).drop_last() =~= v@.subrange(0, i as int));
        total = total + char_width_exec(v[i]);
        i = i + 1;
    }
    if total == n {
        proof {
            lemma_chars_in_bytes_is(v@, n as nat, i as nat);
        }
        Some(i)
    } else {
        proof {
            assert forall|k: nat| k <= v@.len() implies #[trigger] utf8_len(
                v@.subrange(0, k as int),
            ) != n by {
                if k < i {
                } else if k > i {
                    lemma_utf8_len_grows(v@, i as int, k as int);
                }
            }
        }
        None
    }
}

/// The bytes of a text, counted character by character, are those of its UTF-8 encoding.
pub proof fn law_utf8_len(s: Seq<char>)
    ensures
        utf8_len(s) == vstd::utf8::encode_utf8(s).len(),
    decreases s.len(),
{
    if s.len() > 0 {
        law_utf8_len(s.drop_last());
        lemma_encode_last(s);
    }
}

proof fn lemma_encode_last(s: Seq<char>)
    requires
        s.len() > 0,
    ensures
        vstd::utf8::encode_utf8(s).len() == vstd::utf8::encode_utf8(s.drop_last()).len()
            + char_width(s.last()),
    decreases s.len(),
{
    if s.len() == 1 {
        assert(s.drop_first() =~= Seq::<char>::empty());
        assert(s.drop_last() =~= Seq::<char>::empty());
        reveal_with_fuel(vstd::utf8::encode_utf8, 2);
        vstd::utf8::char_is_scalar(s[0]);
        let bytes = vstd::utf8::encode_scalar(s[0] as u32);
        assert(bytes.len() == char_width(s[0]));
        assert(vstd::utf8::encode_utf8(s) =~= bytes);
    } else {
        lemma_encode_last(s.drop_first());
        assert(s.drop_first().drop_last() =~= s.drop_last().drop_first());
        assert(s.drop_first().last() == s.last());
        assert(s.drop_last()[0] == s[0]);
        let first = vstd::utf8::encode_scalar(s[0] as u32);
        assert(vstd::utf8::encode_utf8(s) == first + vstd::utf8::encode_utf8(s.drop_first()));
        assert(vstd::utf8::encode_utf8(s.drop_last()) == first + vstd::utf8::encode_utf8(
            s.drop_last().drop_first(),
        ));
    }
}

/// The first `n` characters of a text, or all of it where it is shorter.
pub open spec fn first_chars(s: Seq<char>, n: nat) -> Seq<char> {
    if s.len() <= n {
        s
    } else {
        s.subrange(0, n as int)
    }
}

/// The first `n` characters of a text, or all of it where it is shorter.
pub fn take_chars(s: &str, n: usize) -> (r: String)
    ensures
        r@ == first_chars(s@, n as nat),
{
    let v: Vec<char> = chars_of(s);
    if v.len() <= n {
        s.to_owned()
    } else {
        slice_string(&v, 0, n)
    }
}

/// The text of a boolean.
pub open spec fn bool_text(b: bool) -> Seq<char> {
    if b {
        "true"@
    } else {
        "false"@
    }
}

/// The text of a boolean.
pub fn bool_str(b: bool) -> (r: &'static str)
    ensures
        r@ == bool_text(b),
{
    if b {
        "true"
    } else {
        "false"
    }
}

/// The sum of two sizes, or the largest size where the sum is beyond it.
pub open spec fn sat_sum(a: usize, b: usize) -> usize {
    if a + b > usize::MAX {
        usize::MAX
    } else {
        (a + b) as usize
    }
}

/// The sum of two sizes, or the largest size where the sum is beyond it.
pub fn sat_add(a: usize, b: usize) -> (r: usize)
    ensures
        r == sat_sum(a, b),
{
    a.saturating_add(b)
}

// ---------------------------------------------------------------------------
// Searching
// ---------------------------------------------------------------------------

/// `pat` stands at position `i` of `s`.
pub open spec fn occurs_at(s: Seq<char>, pat: Seq<char>, i: int) -> bool {
    &&& 0 <= i
    &&& i + pat.len() <= s.len()
    &&& s.subrange(i, i + pat.len()) == pat
}

/// `s` begins with `pat`.
pub open spec fn has_prefix(s: Seq<char>, pat: Seq<char>) -> bool {
    occurs_at(s, pat, 0)
}

/// `pat` stands somewhere in `s`.
pub open spec fn has_text(s: Seq<char>, pat: Seq<char>) -> bool {
    exists|i: int| occurs_at(s, pat, i)
}

/// `i` is the first position at which `pat` stands in `s`.
pub open spec fn first_at(s: Seq<char>, pat: Seq<char>, i: int) -> bool {
    &&& occurs_at(s, pat, i)
    &&& forall|j: int| j < i ==> !occurs_at(s, pat, j)
}

/// What stands in `s` behind the first occurrence of `pat`.
pub open spec fn text_after(s: Seq<char>, pat: Seq<char>) -> Option<Seq<char>> {
    if has_text(s, pat) {
        let i = choose|i: int| first_at(s, pat, i);
        Some(s.subrange(i + pat.len(), s.len() as int))
    } else {
        None
    }
}

/// `s` without the prefix `pat`, where it has that prefix.
pub open spec fn without_prefix(s: Seq<char>, pat: Seq<char>) -> Option<Seq<char>> {
    if has_prefix(s, pat) {
        Some(s.subrange(pat.len() as int, s.len() as int))
    } else {
        None
    }
}

/// The first occurrence of a text is one position only.
pub proof fn lemma_first_at_unique(s: Seq<char>, pat: Seq<char>, i: int, j: int)
    requires
        first_at(s, pat, i),
        first_at(s, pat, j),
    ensures
        i == j,
{
}

/// Whether `pat` stands at position `i`.
fn occurs_at_exec(s: &Vec<char>, pat: &Vec<char>, i: usize) -> (r: bool)
    ensures
        r == occurs_at(s@, pat@, i as int),
{
    if pat.len() > s.len() || i > s.len() - pat.len() {
        return false;
    }
    let mut k: usize = 0;
    while k < pat.len()
        invariant
            k <= pat.len(),
            i + pat.len() <= s.len(),
            forall|j: int| 0 <= j < k ==> s@[i + j] == pat@[j],
        decreases pat.len() - k,
    {
        if s[i + k] != pat[k] {
            proof {
                assert(s@.subrange(i as int, i + pat@.len())[k as int] != pat@[k as int]);
            }
            return false;
        }
        k = k + 1;
    }
    assert(s@.subrange(i as int, i + pat@.len()) =~= pat@);
    true
}

/// The first position of `pat` in `s`, counted in characters.
pub fn find_chars(s: &Vec<char>, pat: &Vec<char>) -> (r: Option<usize>)
    ensures
        r is Some <==> has_text(s@, pat@),
        r matches Some(i) ==> first_at(s@, pat@, i as int),
{
    if pat.len() > s.len() {
        return None;
    }
    let last: usize = s.len() - pat.len();
    let mut i: usize = 0;
    loop
        invariant
            pat.len() <= s.len(),
            last == s.len() - pat.len(),
            i <= last,
            forall|j: int| j < i ==> !occurs_at(s@, pat@, j),
        decreases last - i,
    {
        if occurs_at_exec(s, pat, i) {
            return Some(i);
        }
        if i == last {
            return None;
        }
        i = i + 1;
    }
}

/// Whether `pat` stands in `s`.
pub fn contains(s: &str, pat: &str) -> (r: bool)
    ensures
        r == has_text(s@, pat@),
{
    let sv: Vec<char> = chars_of(s);
    let pv: Vec<char> = chars_of(pat);
    find_chars(&sv, &pv).is_some()
}

/// Whether `s` begins with `pat`.
pub fn starts_with(s: &str, pat: &str) -> (r: bool)
    ensures
        r == has_prefix(s@, pat@),
{
    let sv: Vec<char> = chars_of(s);
    let pv: Vec<char> = chars_of(pat);
    occurs_at_exec(&sv, &pv, 0)
}

/// `s` without the prefix `pat`, if it has that prefix.
pub fn strip_prefix(s: &str, pat: &str) -> (r: Option<String>)
    ensures
        opt_view(r) == without_prefix(s@, pat@),
{
    let sv: Vec<char> = chars_of(s);
    let pv: Vec<char> = chars_of(pat);
    if occurs_at_exec(&sv, &pv, 0) {
        Some(slice_string(&sv, pv.len(), sv.len()))
    } else {
        None
    }
}

/// What stands behind the first occurrence of `pat`, if there is one.
pub fn after_text(s: &str, pat: &str) -> (r: Option<String>)
    ensures
        opt_view(r) == text_after(s@, pat@),
{
    let sv: Vec<char> = chars_of(s);
    let pv: Vec<char> = chars_of(pat);
    match find_chars(&sv, &pv) {
        Some(i) => {
            proof {
                let w = choose|w: int| first_at(s@, pat@, w);
                lemma_first_at_unique(s@, pat@, w, i as int);
            }
            let end: usize = sv.len();
            assert(occurs_at(sv@, pv@, i as int));
            Some(slice_string(&sv, i + pv.len(), end))
        },
        None => None,
    }
}

// ---------------------------------------------------------------------------
// Single characters
// ---------------------------------------------------------------------------

/// The number of characters before the first `c`; the whole length where there is none.
pub open spec fn index_of_char(s: Seq<char>, c: char) -> nat
    decreases s.len(),
{
    if s.len() == 0 || s[0] == c {
        0
    } else {
        1 + index_of_char(s.drop_first(), c)
    }
}

/// The index of the first `c` is within the text, stands on a `c`, and nothing before it is one.
pub proof fn lemma_index_of_char(s: Seq<char>, c: char)
    ensures
        index_of_char(s, c) <= s.len(),
        index_of_char(s, c) < s.len() ==> s[index_of_char(s, c) as int] == c,
        forall|j: int| 0 <= j < index_of_char(s, c) ==> s[j] != c,
    decreases s.len(),
{
    if s.len() > 0 && s[0] != c {
        lemma_index_of_char(s.drop_first(), c);
        let k = index_of_char(s.drop_first(), c);
        assert forall|j: int| 0 <= j < index_of_char(s, c) implies s[j] != c by {
            if j > 0 {
                assert(s[j] == s.drop_first()[j - 1]);
            }
        }
        if k < s.drop_first().len() {
            assert(s[k as int + 1] == s.drop_first()[k as int]);
        }
    }
}

/// A position with `c` on it and none before it is the index of the first `c`.
pub proof fn lemma_index_of_char_is(s: Seq<char>, c: char, k: nat)
    requires
        k <= s.len(),
        k < s.len() ==> s[k as int] == c,
        forall|j: int| 0 <= j < k ==> s[j] != c,
    ensures
        index_of_char(s, c) == k,
{
    lemma_index_of_char(s, c);
    let f = index_of_char(s, c);
    if f < k {
        assert(s[f as int] != c);
    }
    if k < f {
        assert(s[k as int] != c);
    }
}

/// The position of the first `c` at or behind `from`; the length where there is none.
pub fn find_char(s: &Vec<char>, c: char, from: usize) -> (r: usize)
    requires
        from <= s.len(),
    ensures
        from <= r <= s.len(),
        r - from == index_of_char(s@.subrange(from as int, s@.len() as int), c),
{
    let mut i: usize = from;
    while i < s.len() && s[i] != c
        invariant
            from <= i <= s.len(),
            forall|j: int| from <= j < i ==> s@[j] != c,
        decreases s.len() - i,
    {
        i = i + 1;
    }
    proof {
        let t = s@.subrange(from as int, s@.len() as int);
        assert forall|j: int| 0 <= j < i - from implies t[j] != c by {
            assert(t[j] == s@[from + j]);
        }
        if i < s.len() {
            assert(t[i - from] == s@[i as int]);
        }
        lemma_index_of_char_is(t, c, (i - from) as nat);
    }
    i
}

/// The position of the last `c`, if there is one.
pub open spec fn last_index_of_char(s: Seq<char>, c: char) -> Option<nat>
    decreases s.len(),
{
    if s.len() == 0 {
        None
    } else if s.last() == c {
        Some((s.len() - 1) as nat)
    } else {
        last_index_of_char(s.drop_last(), c)
    }
}

/// A position with `c` on it and none behind it is the index of the last `c`.
pub proof fn lemma_last_index_is(s: Seq<char>, c: char, k: nat)
    requires
        k < s.len(),
        s[k as int] == c,
        forall|j: int| k < j < s.len() ==> s[j] != c,
    ensures
        last_index_of_char(s, c) == Some(k),
    decreases s.len(),
{
    if k + 1 < s.len() {
        assert(s.last() != c);
        lemma_last_index_is(s.drop_last(), c, k);
    }
}

/// A text without `c` has no last `c`.
pub proof fn lemma_last_index_none(s: Seq<char>, c: char)
    requires
        forall|j: int| 0 <= j < s.len() ==> s[j] != c,
    ensures
        last_index_of_char(s, c) is None,
    decreases s.len(),
{
    if s.len() > 0 {
        lemma_last_index_none(s.drop_last(), c);
    }
}

/// The position of the last `c`, if there is one.
pub fn rfind_char(s: &Vec<char>, c: char) -> (r: Option<usize>)
    ensures
        r matches Some(k) ==> k < s.len() && last_index_of_char(s@, c) == Some(k as nat),
        r is None ==> last_index_of_char(s@, c) is None,
{
    let mut i: usize = s.len();
    while i > 0
        invariant
            i <= s.len(),
            forall|j: int| i <= j < s.len() ==> s@[j] != c,
        decreases i,
    {
        if s[i - 1] == c {
            proof {
                lemma_last_index_is(s@, c, (i - 1) as nat);
            }
            return Some(i - 1);
        }
        i = i - 1;
    }
    proof {
        lemma_last_index_none(s@, c);
    }
    None
}

/// The number of characters before the first `a` or `b`; the whole length where there is none.
pub open spec fn index_of_either(s: Seq<char>, a: char, b: char) -> nat {
    let i = index_of_char(s, a);
    let j = index_of_char(s, b);
    if i <= j {
        i
    } else {
        j
    }
}

/// What stands before the first `c`, where there is one.
pub open spec fn before_char(s: Seq<char>, c: char) -> Option<Seq<char>> {
    if index_of_char(s, c) < s.len() {
        Some(s.subrange(0, index_of_char(s, c) as int))
    } else {
        None
    }
}

/// What stands before the first `c`, where there is one.
pub fn until_char(s: &str, c: char) -> (r: Option<String>)
    ensures
        opt_view(r) == before_char(s@, c),
{
    let v: Vec<char> = chars_of(s);
    assert(v@.subrange(0, v@.len() as int) =~= v@);
    let k: usize = find_char(&v, c, 0);
    if k < v.len() {
        Some(slice_string(&v, 0, k))
    } else {
        None
    }
}

/// What stands behind the first `c`, where there is one.
pub open spec fn after_char(s: Seq<char>, c: char) -> Option<Seq<char>> {
    if index_of_char(s, c) < s.len() {
        Some(s.subrange(index_of_char(s, c) as int + 1, s.len() as int))
    } else {
        None
    }
}

/// What stands behind the first `c`, where there is one.
pub fn behind_char(s: &str, c: char) -> (r: Option<String>)
    ensures
        opt_view(r) == after_char(s@, c),
{
    let v: Vec<char> = chars_of(s);
    assert(v@.subrange(0, v@.len() as int) =~= v@);
    let k: usize = find_char(&v, c, 0);
    if k < v.len() {
        Some(slice_string(&v, k + 1, v.len()))
    } else {
        None
    }
}

/// What stands before the first `a` or `b`, where there is one.
pub open spec fn before_either(s: Seq<char>, a: char, b: char) -> Option<Seq<char>> {
    if index_of_either(s, a, b) < s.len() {
        Some(s.subrange(0, index_of_either(s, a, b) as int))
    } else {
        None
    }
}

/// What stands before the first `a` or `b`, where there is one.
pub fn until_either(s: &str, a: char, b: char) -> (r: Option<String>)
    ensures
        opt_view(r) == before_either(s@, a, b),
{
    let v: Vec<char> = chars_of(s);
    assert(v@.subrange(0, v@.len() as int) =~= v@);
    let i: usize = find_char(&v, a, 0);
    let j: usize = find_char(&v, b, 0);
    let k: usize = if i <= j {
        i
    } else {
        j
    };
    if k < v.len() {
        Some(slice_string(&v, 0, k))
    } else {
        None
    }
}

/// What stands before and behind the last `c`, where there is one.
pub open spec fn split_at_last(s: Seq<char>, c: char) -> Option<(Seq<char>, Seq<char>)> {
    match last_index_of_char(s, c) {
        Some(k) => Some((s.subrange(0, k as int), s.subrange(k as int + 1, s.len() as int))),
        None => None,
    }
}

/// What stands before and behind the last `c`, where there is one, as `str::rsplit_once` gives
/// it.
pub fn rsplit_once(s: &str, c: char) -> (r: Option<(String, String)>)
    ensures
        r is Some <==> split_at_last(s@, c) is Some,
        r matches Some((a, b)) ==> split_at_last(s@, c) == Some((a@, b@)),
{
    let v: Vec<char> = chars_of(s);
    match rfind_char(&v, c) {
        Some(k) => Some((slice_string(&v, 0, k), slice_string(&v, k + 1, v.len()))),
        None => None,
    }
}

/// The text with every `from` replaced by `to`.
pub open spec fn replaced(s: Seq<char>, from: char, to: char) -> Seq<char> {
    s.map_values(
        |c: char|
            if c == from {
                to
            } else {
                c
            },
    )
}

/// The text with every `from` replaced by `to`.
pub fn replace_char(s: &str, from: char, to: char) -> (r: String)
    ensures
        r@ == replaced(s@, from, to),
{
    let v: Vec<char> = chars_of(s);
    let mut out: String = String::new();
    let mut i: usize = 0;
    while i < v.len()
        invariant
            i <= v.len(),
            out@ == replaced(v@.subrange(0, i as int), from, to),
        decreases v.len() - i,
    {
        out.push(
            if v[i] == from {
                to
            } else {
                v[i]
            },
        );
        i = i + 1;
        assert(out@ =~= replaced(v@.subrange(0, i as int), from, to));
    }
    assert(v@.subrange(0, v@.len() as int) =~= v@);
    out
}

/// The text without the `c`s at its beginning.
pub open spec fn trim_char_start(s: Seq<char>, c: char) -> Seq<char>
    decreases s.len(),
{
    if s.len() > 0 && s[0] == c {
        trim_char_start(s.drop_first(), c)
    } else {
        s
    }
}

/// The text without the `c`s at its end.
pub open spec fn trim_char_end(s: Seq<char>, c: char) -> Seq<char>
    decreases s.len(),
{
    if s.len() > 0 && s.last() == c {
        trim_char_end(s.drop_last(), c)
    } else {
        s
    }
}

/// The text without the `c`s at its beginning.
pub fn strip_start(s: &str, c: char) -> (r: String)
    ensures
        r@ == trim_char_start(s@, c),
{
    let v: Vec<char> = chars_of(s);
    let mut i: usize = 0;
    assert(v@.subrange(0, v@.len() as int) =~= v@);
    while i < v.len() && v[i] == c
        invariant
            i <= v.len(),
            trim_char_start(v@.subrange(i as int, v@.len() as int), c) == trim_char_start(v@, c),
        decreases v.len() - i,
    {
        let ghost t = v@.subrange(i as int, v@.len() as int);
        assert(t.drop_first() =~= v@.subrange(i as int + 1, v@.len() as int));
        i = i + 1;
    }
    slice_string(&v, i, v.len())
}

/// The text without the `c`s at its end.
pub fn strip_end(s: &str, c: char) -> (r: String)
    ensures
        r@ == trim_char_end(s@, c),
{
    let v: Vec<char> = chars_of(s);
    let mut i: usize = v.len();
    assert(v@.subrange(0, v@.len() as int) =~= v@);
    while i > 0 && v[i - 1] == c
        invariant
            i <= v.len(),
            trim_char_end(v@.subrange(0, i as int), c) == trim_char_end(v@, c),
        decreases i,
    {
        let ghost t = v@.subrange(0, i as int);
        assert(t.drop_last() =~= v@.subrange(0, i as int - 1));
        i = i - 1;
    }
    slice_string(&v, 0, i)
}

// ---------------------------------------------------------------------------
// White space
// ---------------------------------------------------------------------------

/// The characters with the Unicode property White_Space.
pub open spec fn is_space(c: char) -> bool {
    let n = c as u32;
    ||| 0x09 <= n <= 0x0d
    ||| n == 0x20
    ||| n == 0x85
    ||| n == 0xa0
    ||| n == 0x1680
    ||| 0x2000 <= n <= 0x200a
    ||| n == 0x2028
    ||| n == 0x2029
    ||| n == 0x202f
    ||| n == 0x205f
    ||| n == 0x3000
}

/// Whether a character is white space.
pub fn is_space_exec(c: char) -> (r: bool)
    ensures
        r == is_space(c),
{
    let n: u32 = c as u32;
    (0x09 <= n && n <= 0x0d) || n == 0x20 || n == 0x85 || n == 0xa0 || n == 0x1680 || (0x2000 <= n
        && n <= 0x200a) || n == 0x2028 || n == 0x2029 || n == 0x202f || n == 0x205f || n == 0x3000
}

/// The number of white space characters at the beginning.
pub open spec fn leading_spaces(s: Seq<char>) -> nat
    decreases s.len(),
{
    if s.len() == 0 || !is_space(s[0]) {
        0
    } else {
        1 + leading_spaces(s.drop_first())
    }
}

/// The number of characters in front of the first white space.
pub open spec fn word_len(s: Seq<char>) -> nat
    decreases s.len(),
{
    if s.len() == 0 || is_space(s[0]) {
        0
    } else {
        1 + word_len(s.drop_first())
    }
}

/// The text without the white space at its beginning.
pub open spec fn trim_start(s: Seq<char>) -> Seq<char> {
    s.subrange(leading_spaces(s) as int, s.len() as int)
}

/// The text without the white space at its end.
pub open spec fn trim_end(s: Seq<char>) -> Seq<char>
    decreases s.len(),
{
    if s.len() > 0 && is_space(s.last()) {
        trim_end(s.drop_last())
    } else {
        s
    }
}

/// The text without the white space at either end.
pub open spec fn trimmed(s: Seq<char>) -> Seq<char> {
    trim_end(trim_start(s))
}

proof fn lemma_leading_spaces_is(s: Seq<char>, k: nat)
    requires
        k <= s.len(),
        k < s.len() ==> !is_space(s[k as int]),
        forall|j: int| 0 <= j < k ==> is_space(s[j]),
    ensures
        leading_spaces(s) == k,
    decreases s.len(),
{
    if k > 0 {
        let t = s.drop_first();
        assert forall|j: int| 0 <= j < k - 1 implies is_space(t[j]) by {
            assert(t[j] == s[j + 1]);
        }
        lemma_leading_spaces_is(t, (k - 1) as nat);
    }
}

/// The leading white space is no longer than the text.
pub proof fn lemma_leading_spaces_bound(s: Seq<char>)
    ensures
        leading_spaces(s) <= s.len(),
        leading_spaces(s) < s.len() ==> !is_space(s[leading_spaces(s) as int]),
    decreases s.len(),
{
    if s.len() > 0 && is_space(s[0]) {
        lemma_leading_spaces_bound(s.drop_first());
    }
}

proof fn lemma_word_len_is(s: Seq<char>, k: nat)
    requires
        k <= s.len(),
        k < s.len() ==> is_space(s[k as int]),
        forall|j: int| 0 <= j < k ==> !is_space(s[j]),
    ensures
        word_len(s) == k,
    decreases s.len(),
{
    if k > 0 {
        let t = s.drop_first();
        assert forall|j: int| 0 <= j < k - 1 implies !is_space(t[j]) by {
            assert(t[j] == s[j + 1]);
        }
        lemma_word_len_is(t, (k - 1) as nat);
    }
}

/// The first word is no longer than the text.
pub proof fn lemma_word_len_bound(s: Seq<char>)
    ensures
        word_len(s) <= s.len(),
        s.len() > 0 && !is_space(s[0]) ==> word_len(s) > 0,
    decreases s.len(),
{
    if s.len() > 0 && !is_space(s[0]) {
        lemma_word_len_bound(s.drop_first());
    }
}

proof fn lemma_trim_end_is(s: Seq<char>, k: nat)
    requires
        k <= s.len(),
        k > 0 ==> !is_space(s[k - 1]),
        forall|j: int| k <= j < s.len() ==> is_space(s[j]),
    ensures
        trim_end(s) == s.subrange(0, k as int),
    decreases s.len(),
{
    if k < s.len() {
        let t = s.drop_last();
        assert(is_space(s.last()));
        lemma_trim_end_is(t, k);
        assert(t.subrange(0, k as int) =~= s.subrange(0, k as int));
    } else {
        assert(s.subrange(0, k as int) =~= s);
    }
}

/// The position of the first character at or behind `from` that is not white space.
fn skip_spaces(s: &Vec<char>, from: usize) -> (r: usize)
    requires
        from <= s.len(),
    ensures
        from <= r <= s.len(),
        r - from == leading_spaces(s@.subrange(from as int, s@.len() as int)),
        r < s.len() ==> !is_space(s@[r as int]),
{
    let mut i: usize = from;
    while i < s.len() && is_space_exec(s[i])
        invariant
            from <= i <= s.len(),
            forall|j: int| from <= j < i ==> is_space(s@[j]),
        decreases s.len() - i,
    {
        i = i + 1;
    }
    proof {
        let t = s@.subrange(from as int, s@.len() as int);
        assert forall|j: int| 0 <= j < i - from implies is_space(t[j]) by {
            assert(t[j] == s@[from + j]);
        }
        lemma_leading_spaces_is(t, (i - from) as nat);
    }
    i
}

/// The position of the first white space at or behind `from`.
fn skip_word(s: &Vec<char>, from: usize) -> (r: usize)
    requires
        from <= s.len(),
    ensures
        from <= r <= s.len(),
        r - from == word_len(s@.subrange(from as int, s@.len() as int)),
{
    let mut i: usize = from;
    while i < s.len() && !is_space_exec(s[i])
        invariant
            from <= i <= s.len(),
            forall|j: int| from <= j < i ==> !is_space(s@[j]),
        decreases s.len() - i,
    {
        i = i + 1;
    }
    proof {
        let t = s@.subrange(from as int, s@.len() as int);
        assert forall|j: int| 0 <= j < i - from implies !is_space(t[j]) by {
            assert(t[j] == s@[from + j]);
        }
        lemma_word_len_is(t, (i - from) as nat);
    }
    i
}

/// The text without the white space at its beginning.
pub fn trim_start_exec(s: &str) -> (r: String)
    ensures
        r@ == trim_start(s@),
{
    let v: Vec<char> = chars_of(s);
    let a: usize = skip_spaces(&v, 0);
    assert(v@.subrange(0, v@.len() as int) =~= v@);
    slice_string(&v, a, v.len())
}

/// The text without the white space at either end.
pub fn trim(s: &str) -> (r: String)
    ensures
        r@ == trimmed(s@),
{
    let v: Vec<char> = chars_of(s);
    let a: usize = skip_spaces(&v, 0);
    assert(v@.subrange(0, v@.len() as int) =~= v@);
    let mut b: usize = v.len();
    while b > a && is_space_exec(v[b - 1])
        invariant
            a <= b <= v.len(),
            forall|j: int| b <= j < v.len() ==> is_space(v@[j]),
        decreases b,
    {
        b = b - 1;
    }
    proof {
        let t = trim_start(s@);
        assert(t =~= v@.subrange(a as int, v@.len() as int));
        let k = (b - a) as nat;
        assert forall|j: int| k <= j < t.len() implies is_space(t[j]) by {
            assert(t[j] == v@[a + j]);
        }
        if k > 0 {
            assert(t[k - 1] == v@[b - 1]);
        }
        lemma_trim_end_is(t, k);
        assert(t.subrange(0, k as int) =~= v@.subrange(a as int, b as int));
    }
    slice_string(&v, a, b)
}

/// The text without the white space at its end.
pub fn trim_end_exec(s: &str) -> (r: String)
    ensures
        r@ == trim_end(s@),
{
    let v: Vec<char> = chars_of(s);
    let mut b: usize = v.len();
    while b > 0 && is_space_exec(v[b - 1])
        invariant
            b <= v.len(),
            forall|j: int| b <= j < v.len() ==> is_space(v@[j]),
        decreases b,
    {
        b = b - 1;
    }
    proof {
        lemma_trim_end_is(v@, b as nat);
    }
    slice_string(&v, 0, b)
}

/// The words of a text: its longest pieces without white space, in order.
pub open spec fn words(s: Seq<char>) -> Seq<Seq<char>>
    decreases s.len(),
    via words_decreases
{
    let t = trim_start(s);
    if t.len() == 0 {
        Seq::empty()
    } else {
        let k = word_len(t) as int;
        seq![t.subrange(0, k)] + words(t.subrange(k, t.len() as int))
    }
}

#[via_fn]
proof fn words_decreases(s: Seq<char>) {
    lemma_words_defined(s);
}

/// White space and words are no longer than the text, and a word is not empty.
pub proof fn lemma_words_defined(s: Seq<char>)
    ensures
        leading_spaces(s) <= s.len(),
        word_len(trim_start(s)) <= trim_start(s).len(),
        trim_start(s).len() > 0 ==> word_len(trim_start(s)) > 0,
{
    lemma_leading_spaces_bound(s);
    lemma_word_len_bound(trim_start(s));
    if trim_start(s).len() > 0 {
        assert(trim_start(s)[0] == s[leading_spaces(s) as int]);
    }
}

/// The words of a text, as `str::split_whitespace` gives them.
pub fn split_words(s: &str) -> (r: Vec<String>)
    ensures
        views(r@) == words(s@),
{
    let v: Vec<char> = chars_of(s);
    let mut out: Vec<String> = Vec::new();
    let mut i: usize = 0;
    assert(v@.subrange(0, v@.len() as int) =~= v@);
    assert(views(out@) + words(v@) =~= words(v@));
    loop
        invariant
            v@ == s@,
            i <= v.len(),
            views(out@) + words(v@.subrange(i as int, v@.len() as int)) == words(s@),
        decreases v.len() - i,
    {
        let ghost rest = v@.subrange(i as int, v@.len() as int);
        let a: usize = skip_spaces(&v, i);
        proof {
            lemma_words_defined(rest);
            assert(trim_start(rest) =~= v@.subrange(a as int, v@.len() as int));
        }
        if a == v.len() {
            assert(words(rest) == Seq::<Seq<char>>::empty());
            assert(views(out@) + Seq::<Seq<char>>::empty() =~= views(out@));
            return out;
        }
        let b: usize = skip_word(&v, a);
        let word: String = slice_string(&v, a, b);
        let ghost before = out@;
        out.push(word);
        proof {
            let t = trim_start(rest);
            assert(t.subrange(0, b - a) =~= v@.subrange(a as int, b as int));
            assert(t.subrange(b - a, t.len() as int) =~= v@.subrange(b as int, v@.len() as int));
            assert(views(out@) =~= views(before).push(word@));
            assert(views(out@) + words(v@.subrange(b as int, v@.len() as int)) =~= views(before) + (
            seq![word@] + words(v@.subrange(b as int, v@.len() as int))));
        }
        i = b;
    }
}

// ---------------------------------------------------------------------------
// Splitting and joining
// ---------------------------------------------------------------------------

/// The pieces of a text between the separators `c`, in order.
pub open spec fn pieces(s: Seq<char>, c: char) -> Seq<Seq<char>>
    decreases s.len(),
{
    let k = index_of_char(s, c) as int;
    if k >= s.len() {
        seq![s]
    } else {
        seq![s.subrange(0, k)] + pieces(s.subrange(k + 1, s.len() as int), c)
    }
}

/// The pieces of a text between the separators `c`, as `str::split` gives them.
pub fn split_char(s: &str, c: char) -> (r: Vec<String>)
    ensures
        views(r@) == pieces(s@, c),
{
    let v: Vec<char> = chars_of(s);
    let mut out: Vec<String> = Vec::new();
    let mut i: usize = 0;
    assert(v@.subrange(0, v@.len() as int) =~= v@);
    assert(views(out@) + pieces(v@, c) =~= pieces(v@, c));
    loop
        invariant
            v@ == s@,
            i <= v.len(),
            views(out@) + pieces(v@.subrange(i as int, v@.len() as int), c) == pieces(s@, c),
        decreases v.len() - i,
    {
        let ghost rest = v@.subrange(i as int, v@.len() as int);
        proof {
            lemma_index_of_char(rest, c);
        }
        let k: usize = find_char(&v, c, i);
        let piece: String = slice_string(&v, i, k);
        let ghost before = out@;
        out.push(piece);
        proof {
            assert(views(out@) =~= views(before).push(piece@));
        }
        if k == v.len() {
            proof {
                assert(piece@ =~= rest);
                assert(views(before) + seq![rest] =~= views(out@));
            }
            return out;
        }
        proof {
            assert(piece@ =~= rest.subrange(0, k - i));
            let tail = v@.subrange(k + 1, v@.len() as int);
            assert(rest.subrange(k - i + 1, rest.len() as int) =~= tail);
            assert(views(out@) + pieces(tail, c) =~= views(before) + (seq![piece@] + pieces(tail, c)));
        }
        i = k + 1;
    }
}

/// A line without the carriage return that belongs to its line ending.
pub open spec fn without_cr(s: Seq<char>) -> Seq<char> {
    if s.len() > 0 && s.last() == '\r' {
        s.drop_last()
    } else {
        s
    }
}

/// The lines of a text, without their line endings.
pub open spec fn lines(s: Seq<char>) -> Seq<Seq<char>>
    decreases s.len(),
{
    let k = index_of_char(s, '\n') as int;
    if s.len() == 0 {
        Seq::empty()
    } else if k >= s.len() {
        seq![s]
    } else {
        seq![without_cr(s.subrange(0, k))] + lines(s.subrange(k + 1, s.len() as int))
    }
}

/// The lines of a text, as `str::lines` gives them.
pub fn split_lines(s: &str) -> (r: Vec<String>)
    ensures
        views(r@) == lines(s@),
{
    let v: Vec<char> = chars_of(s);
    let mut out: Vec<String> = Vec::new();
    let mut i: usize = 0;
    assert(v@.subrange(0, v@.len() as int) =~= v@);
    assert(views(out@) + lines(v@) =~= lines(v@));
    loop
        invariant
            v@ == s@,
            i <= v.len(),
            views(out@) + lines(v@.subrange(i as int, v@.len() as int)) == lines(s@),
        decreases v.len() - i,
    {
        let ghost rest = v@.subrange(i as int, v@.len() as int);
        proof {
            lemma_index_of_char(rest, '\n');
        }
        if i == v.len() {
            assert(views(out@) + Seq::<Seq<char>>::empty() =~= views(out@));
            return out;
        }
        let k: usize = find_char(&v, '\n', i);
        let ghost before = out@;
        if k == v.len() {
            let line: String = slice_string(&v, i, k);
            out.push(line);
            proof {
                assert(line@ =~= rest);
                assert(views(out@) =~= views(before) + seq![rest]);
            }
            return out;
        }
        let end: usize = if k > i && v[k - 1] == '\r' {
            k - 1
        } else {
            k
        };
        let line: String = slice_string(&v, i, end);
        out.push(line);
        proof {
            let raw = rest.subrange(0, k - i);
            assert(raw =~= v@.subrange(i as int, k as int));
            assert(line@ =~= without_cr(raw));
            let tail = v@.subrange(k + 1, v@.len() as int);
            assert(rest.subrange(k - i + 1, rest.len() as int) =~= tail);
            assert(views(out@) =~= views(before).push(line@));
            assert(views(out@) + lines(tail) =~= views(before) + (seq![line@] + lines(tail)));
        }
        i = k + 1;
    }
}

/// The texts one after the other, with `sep` between neighbours.
pub open spec fn joined(items: Seq<Seq<char>>, sep: Seq<char>) -> Seq<char>
    decreases items.len(),
{
    if items.len() == 0 {
        Seq::empty()
    } else if items.len() == 1 {
        items[0]
    } else {
        joined(items.drop_last(), sep) + sep + items.last()
    }
}

/// The strings one after the other, with `sep` between neighbours.
pub fn join(items: &Vec<String>, sep: &str) -> (r: String)
    ensures
        r@ == joined(views(items@), sep@),
{
    let mut out: String = String::new();
    let mut i: usize = 0;
    while i < items.len()
        invariant
            i <= items.len(),
            out@ == joined(views(items@).subrange(0, i as int), sep@),
        decreases items.len() - i,
    {
        let ghost all = views(items@);
        proof {
            assert(all.subrange(0, i + 1).drop_last() =~= all.subrange(0, i as int));
            assert(all.subrange(0, i + 1).last() == items@[i as int]@);
        }
        if i > 0 {
            out.append(sep);
        } else {
            assert(out@ =~= Seq::<char>::empty());
            assert(out@ + items@[0]@ =~= items@[0]@);
        }
        out.append(items[i].as_str());
        i = i + 1;
    }
    assert(views(items@).subrange(0, items@.len() as int) =~= views(items@));
    out
}

// ---------------------------------------------------------------------------
// Decimal notation
// ---------------------------------------------------------------------------

/// The character of a digit.
pub open spec fn digit_char(d: nat) -> char {
    if d == 0 {
        '0'
    } else if d == 1 {
        '1'
    } else if d == 2 {
        '2'
    } else if d == 3 {
        '3'
    } else if d == 4 {
        '4'
    } else if d == 5 {
        '5'
    } else if d == 6 {
        '6'
    } else if d == 7 {
        '7'
    } else if d == 8 {
        '8'
    } else {
        '9'
    }
}

/// A natural number in decimal notation.
pub open spec fn decimal(n: nat) -> Seq<char>
    decreases n,
{
    if n < 10 {
        seq![digit_char(n)]
    } else {
        decimal(n / 10).push(digit_char(n % 10))
    }
}

/// An integer in decimal notation.
pub open spec fn signed_decimal(n: int) -> Seq<char> {
    if n < 0 {
        seq!['-'] + decimal((-n) as nat)
    } else {
        decimal(n as nat)
    }
}

fn digit_char_exec(d: u64) -> (r: char)
    requires
        d < 10,
    ensures
        r == digit_char(d as nat),
{
    if d == 0 {
        '0'
    } else if d == 1 {
        '1'
    } else if d == 2 {
        '2'
    } else if d == 3 {
        '3'
    } else if d == 4 {
        '4'
    } else if d == 5 {
        '5'
    } else if d == 6 {
        '6'
    } else if d == 7 {
        '7'
    } else if d == 8 {
        '8'
    } else {
        '9'
    }
}

/// The decimal notation of an unsigned number.
pub fn num(n: u64) -> (r: String)
    ensures
        r@ == decimal(n as nat),
    decreases n,
{
    let mut out: String = if n < 10 {
        String::new()
    } else {
        num(n / 10)
    };
    out.push(digit_char_exec(n % 10));
    assert(out@ =~= decimal(n as nat));
    out
}

/// The decimal notation of a size.
pub fn num_usize(n: usize) -> (r: String)
    ensures
        r@ == decimal(n as nat),
{
    num(n as u64)
}

/// The decimal notation of a signed number.
pub fn num_signed(n: i64) -> (r: String)
    ensures
        r@ == signed_decimal(n as int),
{
    if n >= 0 {
        num(n as u64)
    } else {
        let magnitude: u64 = ((-(n as i128)) as u64);
        cat2_char('-', num(magnitude).as_str())
    }
}

fn cat2_char(c: char, s: &str) -> (r: String)
    ensures
        r@ == seq![c] + s@,
{
    let mut out: String = String::new();
    out.push(c);
    assert(out@ =~= seq![c]);
    out.append(s);
    out
}

/// The `Debug` formatting of a list of sizes.
pub open spec fn debug_sizes(items: Seq<usize>) -> Seq<char> {
    "["@ + joined(items.map_values(|n: usize| decimal(n as nat)), ", "@) + "]"@
}

/// The `Debug` formatting of a list of sizes.
pub fn format_sizes(items: &Vec<usize>) -> (r: String)
    ensures
        r@ == debug_sizes(items@),
{
    let mut parts: Vec<String> = Vec::new();
    let mut i: usize = 0;
    while i < items.len()
        invariant
            i <= items.len(),
            parts.len() == i,
            forall|j: int| 0 <= j < i ==> (#[trigger] parts@[j])@ == decimal(items@[j] as nat),
        decreases items.len() - i,
    {
        parts.push(num_usize(items[i]));
        i = i + 1;
    }
    assert(views(parts@) =~= items@.map_values(|n: usize| decimal(n as nat)));
    cat3("[", join(&parts, ", ").as_str(), "]")
}

/// The characters `0` to `9`.
pub open spec fn is_digit(c: char) -> bool {
    '0' <= c <= '9'
}

/// The value of a digit.
pub open spec fn digit_value(c: char) -> nat {
    (c as u32 - '0' as u32) as nat
}

/// Every character is a digit.
pub open spec fn all_digits(s: Seq<char>) -> bool {
    forall|i: int| 0 <= i < s.len() ==> is_digit(#[trigger] s[i])
}

/// The number that a row of digits stands for.
pub open spec fn digits_value(s: Seq<char>) -> nat
    decreases s.len(),
{
    if s.len() == 0 {
        0
    } else {
        digits_value(s.drop_last()) * 10 + digit_value(s.last())
    }
}

/// The number that an unsigned decimal text stands for: one `+` may precede the digits, of
/// which there is at least one.
pub open spec fn decimal_value(s: Seq<char>) -> Option<nat> {
    let d = if s.len() > 0 && s[0] == '+' {
        s.drop_first()
    } else {
        s
    };
    if d.len() > 0 && all_digits(d) {
        Some(digits_value(d))
    } else {
        None
    }
}

/// The number that an unsigned decimal text stands for, where it is at most `max`.
pub open spec fn parsed_unsigned(s: Seq<char>, max: nat) -> Option<nat> {
    match decimal_value(s) {
        Some(v) => if v <= max {
            Some(v)
        } else {
            None
        },
        None => None,
    }
}

/// The number that a signed decimal text stands for: one `-` or `+` may precede the digits.
pub open spec fn parsed_signed(s: Seq<char>, min: int, max: int) -> Option<int> {
    if s.len() > 0 && s[0] == '-' {
        let d = s.drop_first();
        if d.len() > 0 && all_digits(d) && -digits_value(d) >= min {
            Some(-digits_value(d))
        } else {
            None
        }
    } else {
        match decimal_value(s) {
            Some(v) => if v <= max {
                Some(v as int)
            } else {
                None
            },
            None => None,
        }
    }
}

proof fn lemma_digits_value_grows(s: Seq<char>, k: int)
    requires
        0 <= k <= s.len(),
    ensures
        digits_value(s.subrange(0, k)) <= digits_value(s),
    decreases s.len(),
{
    if k < s.len() {
        lemma_digits_value_grows(s.drop_last(), k);
        assert(s.drop_last().subrange(0, k) =~= s.subrange(0, k));
    } else {
        assert(s.subrange(0, k) =~= s);
    }
}

/// The number that the digits from `from` on stand for, where it is at most `max`.
fn digits_to_u64(v: &Vec<char>, from: usize, max: u64) -> (r: Option<u64>)
    requires
        from <= v.len(),
    ensures
        ({
            let d = v@.subrange(from as int, v@.len() as int);
            &&& r is Some <==> d.len() > 0 && all_digits(d) && digits_value(d) <= max
            &&& r matches Some(x) ==> x == digits_value(d)
        }),
{
    let ghost d = v@.subrange(from as int, v@.len() as int);
    if from == v.len() {
        return None;
    }
    let mut acc: u64 = 0;
    let mut i: usize = from;
    while i < v.len()
        invariant
            from <= i <= v.len(),
            d == v@.subrange(from as int, v@.len() as int),
            acc == digits_value(d.subrange(0, i - from)),
            acc <= max,
            forall|j: int| 0 <= j < i - from ==> is_digit(#[trigger] d[j]),
        decreases v.len() - i,
    {
        let c: char = v[i];
        assert(d[i - from] == c);
        if c < '0' || c > '9' {
            return None;
        }
        let value: u64 = (c as u32 - '0' as u32) as u64;
        let ghost next = d.subrange(0, i - from + 1);
        proof {
            assert(next.drop_last() =~= d.subrange(0, i - from));
            lemma_digits_value_grows(d, i - from + 1);
        }
        if acc > (max / 10) {
            assert(digits_value(next) > max) by {
                assert(acc >= max / 10 + 1);
                assert(acc * 10 >= (max / 10 + 1) * 10);
                assert((max / 10 + 1) * 10 > max) by (nonlinear_arith);
            }
            return None;
        }
        assert(acc * 10 <= max) by {
            assert(acc <= max / 10);
            assert((max / 10) * 10 <= max) by (nonlinear_arith);
        }
        let scaled: u64 = acc * 10;
        if value > max - scaled {
            return None;
        }
        acc = scaled + value;
        i = i + 1;
    }
    assert(d.subrange(0, d.len() as int) =~= d);
    Some(acc)
}

/// The number that an unsigned decimal text stands for, where it is at most `max`.
fn parse_up_to(s: &str, max: u64) -> (r: Option<u64>)
    ensures
        r is Some <==> parsed_unsigned(s@, max as nat) is Some,
        r matches Some(x) ==> parsed_unsigned(s@, max as nat) == Some(x as nat),
{
    let v: Vec<char> = chars_of(s);
    assert(v@.subrange(0, v@.len() as int) =~= v@);
    if v.len() > 0 && v[0] == '+' {
        assert(v@.drop_first() =~= v@.subrange(1, v@.len() as int));
        digits_to_u64(&v, 1, max)
    } else {
        digits_to_u64(&v, 0, max)
    }
}

/// Reads a `u64` as `str::parse` does.
pub fn parse_u64(s: &str) -> (r: Option<u64>)
    ensures
        r is Some <==> parsed_unsigned(s@, u64::MAX as nat) is Some,
        r matches Some(x) ==> parsed_unsigned(s@, u64::MAX as nat) == Some(x as nat),
{
    parse_up_to(s, u64::MAX)
}

/// Reads a `usize` as `str::parse` does.
pub fn parse_usize(s: &str) -> (r: Option<usize>)
    ensures
        r is Some <==> parsed_unsigned(s@, usize::MAX as nat) is Some,
        r matches Some(x) ==> parsed_unsigned(s@, usize::MAX as nat) == Some(x as nat),
{
    match parse_up_to(s, usize::MAX as u64) {
        Some(x) => Some(x as usize),
        None => None,
    }
}

/// Reads a `u32` as `str::parse` does.
pub fn parse_u32(s: &str) -> (r: Option<u32>)
    ensures
        r is Some <==> parsed_unsigned(s@, u32::MAX as nat) is Some,
        r matches Some(x) ==> parsed_unsigned(s@, u32::MAX as nat) == Some(x as nat),
{
    match parse_up_to(s, u32::MAX as u64) {
        Some(x) => Some(x as u32),
        None => None,
    }
}

/// Reads a `u16` as `str::parse` does.
pub fn parse_u16(s: &str) -> (r: Option<u16>)
    ensures
        r is Some <==> parsed_unsigned(s@, u16::MAX as nat) is Some,
        r matches Some(x) ==> parsed_unsigned(s@, u16::MAX as nat) == Some(x as nat),
{
    match parse_up_to(s, u16::MAX as u64) {
        Some(x) => Some(x as u16),
        None => None,
    }
}

/// Reads an `i64` as `str::parse` does.
pub fn parse_i64(s: &str) -> (r: Option<i64>)
    ensures
        r is Some <==> parsed_signed(s@, i64::MIN as int, i64::MAX as int) is Some,
        r matches Some(x) ==> parsed_signed(s@, i64::MIN as int, i64::MAX as int) == Some(
            x as int,
        ),
{
    let v: Vec<char> = chars_of(s);
    if v.len() > 0 && v[0] == '-' {
        assert(v@.drop_first() =~= v@.subrange(1, v@.len() as int));
        match digits_to_u64(&v, 1, 0x8000_0000_0000_0000) {
            Some(x) => Some((-(x as i128)) as i64),
            None => None,
        }
    } else {
        match parse_up_to(s, i64::MAX as u64) {
            Some(x) => Some(x as i64),
            None => None,
        }
    }
}

/// Reads an `i32` as `str::parse` does.
pub fn parse_i32(s: &str) -> (r: Option<i32>)
    ensures
        r is Some <==> parsed_signed(s@, i32::MIN as int, i32::MAX as int) is Some,
        r matches Some(x) ==> parsed_signed(s@, i32::MIN as int, i32::MAX as int) == Some(
            x as int,
        ),
{
    match parse_i64(s) {
        Some(x) => if x >= i32::MIN as i64 && x <= i32::MAX as i64 {
            Some(x as i32)
        } else {
            None
        },
        None => None,
    }
}

proof fn lemma_digit_char(d: nat)
    requires
        d < 10,
    ensures
        is_digit(digit_char(d)),
        digit_value(digit_char(d)) == d,
{
}

/// The decimal notation of a number consists of digits, at least one, and stands for it.
pub proof fn lemma_decimal_digits(n: nat)
    ensures
        decimal(n).len() > 0,
        all_digits(decimal(n)),
        digits_value(decimal(n)) == n,
    decreases n,
{
    if n < 10 {
        lemma_digit_char(n);
        assert(decimal(n).drop_last() =~= Seq::<char>::empty());
        assert(digits_value(decimal(n).drop_last()) == 0);
    } else {
        lemma_decimal_digits(n / 10);
        lemma_digit_char(n % 10);
        assert(decimal(n).drop_last() =~= decimal(n / 10));
    }
}

/// Writing a number in decimal notation and reading it back gives the number.
pub proof fn law_decimal_round_trip(n: nat, max: nat)
    requires
        n <= max,
    ensures
        parsed_unsigned(decimal(n), max) == Some(n),
{
    lemma_decimal_digits(n);
    assert(is_digit(decimal(n)[0]));
    assert(!is_digit('+'));
}

/// Two numbers with the same decimal notation are the same number.
pub proof fn law_decimal_injective(a: nat, b: nat)
    requires
        decimal(a) == decimal(b),
    ensures
        a == b,
{
    lemma_decimal_digits(a);
    lemma_decimal_digits(b);
}

} // verus!
