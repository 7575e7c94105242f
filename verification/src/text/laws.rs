//! How texts are taken apart: what the parts are, and how they make up the text again.

use vstd::prelude::*;

use crate::text::{
    after_char, before_char, before_either, first_at, first_chars, has_text, index_of_char,
    index_of_either, is_space, joined, last_index_of_char, leading_spaces, lemma_index_of_char,
    lemma_index_of_char_is, lemma_leading_spaces_bound, lemma_words_defined, lines, occurs_at,
    pieces, replaced, sat_sum, split_at_last, text_after, trim_char_end, trim_char_start, trim_end,
    trim_start, trimmed, without_cr, word_len, words,
};

verus! {

/// A text is found in another exactly where the other is made of it and what stands before and
/// behind it.
pub proof fn law_found_texts(s: Seq<char>, pat: Seq<char>)
    ensures
        has_text(s, pat) <==> exists|a: Seq<char>, b: Seq<char>| s == #[trigger] (a + pat + b),
{
    if has_text(s, pat) {
        let i = choose|i: int| occurs_at(s, pat, i);
        let a = s.subrange(0, i);
        let b = s.subrange(i + pat.len(), s.len() as int);
        assert(s =~= a + pat + b);
    }
    if exists|a: Seq<char>, b: Seq<char>| s == #[trigger] (a + pat + b) {
        let (a, b) = choose|a: Seq<char>, b: Seq<char>| s == #[trigger] (a + pat + b);
        assert(s.subrange(a.len() as int, (a.len() + pat.len()) as int) =~= pat);
        assert(occurs_at(s, pat, a.len() as int));
    }
}

/// What stands behind a text is the rest behind its first place; there is none exactly where the
/// text is not found.
pub proof fn law_text_after(s: Seq<char>, pat: Seq<char>)
    ensures
        text_after(s, pat) is Some <==> has_text(s, pat),
        text_after(s, pat) matches Some(rest) ==> exists|a: Seq<char>|
            s == #[trigger] (a + pat) + rest && forall|j: int|
                j < a.len() ==> !#[trigger] occurs_at(s, pat, j),
{
    if has_text(s, pat) {
        let k = choose|k: int| occurs_at(s, pat, k);
        lemma_first_place(s, pat, k);
        let i = choose|i: int| first_at(s, pat, i);
        assert(first_at(s, pat, i));
        let a = s.subrange(0, i);
        let rest = s.subrange(i + pat.len(), s.len() as int);
        assert(s =~= (a + pat) + rest);
    }
}

/// A text that occurs has a first place.
proof fn lemma_first_place(s: Seq<char>, pat: Seq<char>, k: int)
    requires
        occurs_at(s, pat, k),
    ensures
        exists|i: int| first_at(s, pat, i),
    decreases k,
{
    if exists|j: int| j < k && occurs_at(s, pat, j) {
        let j = choose|j: int| j < k && occurs_at(s, pat, j);
        lemma_first_place(s, pat, j);
    } else {
        assert(first_at(s, pat, k));
    }
}

/// What stands before and behind the first place of a character makes up the text with it, and
/// what stands before does not hold it.
pub proof fn law_split_at_first(s: Seq<char>, c: char)
    ensures
        before_char(s, c) is Some <==> s.contains(c),
        after_char(s, c) is Some <==> s.contains(c),
        before_char(s, c) matches Some(a) ==> {
            &&& after_char(s, c) matches Some(b) && s == a.push(c) + b
            &&& !a.contains(c)
        },
{
    lemma_index_of_char(s, c);
    let k = index_of_char(s, c) as int;
    if k < s.len() {
        assert(s[k] == c);
        assert(s =~= s.subrange(0, k).push(c) + s.subrange(k + 1, s.len() as int));
    }
}

/// What stands before the first place of either of two characters holds neither, and one of them
/// stands right behind it.
pub proof fn law_before_either(s: Seq<char>, a: char, b: char)
    ensures
        before_either(s, a, b) is Some <==> s.contains(a) || s.contains(b),
        before_either(s, a, b) matches Some(r) ==> {
            &&& !r.contains(a) && !r.contains(b)
            &&& r.len() < s.len() && s.subrange(0, r.len() as int) == r
            &&& s[r.len() as int] == a || s[r.len() as int] == b
        },
{
    lemma_index_of_char(s, a);
    lemma_index_of_char(s, b);
    let k = index_of_either(s, a, b) as int;
    if k < s.len() {
        assert(s[k] == a || s[k] == b);
    }
}

/// A text that is split at the last place of a character is made of the two parts with it between
/// them, and the second part does not hold it.
pub proof fn law_split_at_last(s: Seq<char>, c: char)
    ensures
        split_at_last(s, c) is Some <==> s.contains(c),
        split_at_last(s, c) matches Some((a, b)) ==> s == a.push(c) + b && !b.contains(c),
{
    lemma_last_index(s, c);
    if let Some(k) = last_index_of_char(s, c) {
        let k = k as int;
        assert(s[k] == c);
        assert(s =~= s.subrange(0, k).push(c) + s.subrange(k + 1, s.len() as int));
    }
}

proof fn lemma_last_index(s: Seq<char>, c: char)
    ensures
        match last_index_of_char(s, c) {
            Some(k) => k < s.len() && s[k as int] == c && forall|j: int|
                k < j < s.len() ==> s[j] != c,
            None => !s.contains(c),
        },
    decreases s.len(),
{
    if s.len() > 0 && s.last() != c {
        let t = s.drop_last();
        lemma_last_index(t, c);
        assert forall|j: int| 0 <= j < s.len() && s[j] == c implies j < t.len() && t[j] == c by {}
        if s.contains(c) {
            let j = choose|j: int| 0 <= j < s.len() && s[j] == c;
            assert(t[j] == c);
        }
        if let Some(k) = last_index_of_char(t, c) {
            assert forall|j: int| k < j < s.len() implies s[j] != c by {
                if j < t.len() {
                    assert(t[j] == s[j]);
                }
            }
        }
    }
}

/// The pieces of a text between the places of a character hold it nowhere; joined by it, they make
/// up the text. There is always at least one.
pub proof fn law_pieces(s: Seq<char>, c: char)
    ensures
        pieces(s, c).len() > 0,
        forall|i: int| 0 <= i < pieces(s, c).len() ==> !(#[trigger] pieces(s, c)[i]).contains(c),
        joined(pieces(s, c), seq![c]) == s,
    decreases s.len(),
{
    lemma_index_of_char(s, c);
    let k = index_of_char(s, c) as int;
    if k < s.len() {
        let first = s.subrange(0, k);
        let tail = s.subrange(k + 1, s.len() as int);
        let rest = pieces(tail, c);
        law_pieces(tail, c);
        lemma_joined_front(first, rest, seq![c]);
        assert(pieces(s, c) =~= seq![first] + rest);
        assert(s =~= first + seq![c] + tail);
        assert forall|i: int| 0 <= i < pieces(s, c).len() implies !(#[trigger] pieces(
            s,
            c,
        )[i]).contains(c) by {
            if i > 0 {
                assert(pieces(s, c)[i] == rest[i - 1]);
            }
        }
    }
}

/// Joined texts begin with the first of them.
pub proof fn lemma_joined_front(first: Seq<char>, rest: Seq<Seq<char>>, sep: Seq<char>)
    requires
        rest.len() > 0,
    ensures
        joined(seq![first] + rest, sep) == first + sep + joined(rest, sep),
    decreases rest.len(),
{
    let all = seq![first] + rest;
    assert(all.last() == rest.last());
    if rest.len() == 1 {
        assert(all.drop_last() =~= seq![first]);
        assert(joined(all.drop_last(), sep) =~= first);
    } else {
        assert(all.drop_last() =~= seq![first] + rest.drop_last());
        lemma_joined_front(first, rest.drop_last(), sep);
        assert(joined(all, sep) =~= first + sep + joined(rest, sep));
    }
}

/// A text that is joined behind others follows the separator; one text alone is joined to itself.
pub proof fn law_joined(items: Seq<Seq<char>>, item: Seq<char>, sep: Seq<char>)
    ensures
        joined(seq![item], sep) == item,
        items.len() > 0 ==> joined(items.push(item), sep) == joined(items, sep) + sep + item,
        joined(Seq::empty(), sep).len() == 0,
{
    assert(items.push(item).drop_last() =~= items);
}

/// A line that ends in a line feed is followed by the lines of the rest, and loses one carriage
/// return at its end; a last line without one stays as it is, and an empty text has no lines.
pub proof fn law_lines(line: Seq<char>, rest: Seq<char>)
    requires
        !line.contains('\n'),
    ensures
        lines(line.push('\n') + rest) == seq![without_cr(line)] + lines(rest),
        line.len() > 0 ==> lines(line) == seq![line],
        lines(Seq::empty()).len() == 0,
{
    let s = line.push('\n') + rest;
    let k = line.len();
    assert(s[k as int] == '\n');
    assert forall|j: int| 0 <= j < k implies s[j] != '\n' by {
        assert(s[j] == line[j]);
        assert(line.contains(line[j]));
    }
    lemma_index_of_char_is(s, '\n', k);
    assert(s.subrange(0, k as int) =~= line);
    assert(s.subrange(k as int + 1, s.len() as int) =~= rest);
    assert forall|j: int| 0 <= j < k implies line[j] != '\n' by {
        assert(line.contains(line[j]));
    }
    lemma_index_of_char_is(line, '\n', k);
}

/// One carriage return at the end is taken away, and nothing else.
pub proof fn law_carriage_returns(line: Seq<char>)
    ensures
        without_cr(line.push('\r')) == line,
        line.len() == 0 || line.last() != '\r' ==> without_cr(line) == line,
{
    assert(line.push('\r').drop_last() =~= line);
}

/// A text consists of spaces.
pub open spec fn all_spaces(s: Seq<char>) -> bool {
    forall|i: int| 0 <= i < s.len() ==> is_space(#[trigger] s[i])
}

/// What is left of a text that is trimmed begins and ends with no space, and only spaces were
/// around it.
pub proof fn law_trimmed(s: Seq<char>)
    ensures
        trimmed(s).len() > 0 ==> !is_space(trimmed(s)[0]) && !is_space(trimmed(s).last()),
        exists|a: Seq<char>, b: Seq<char>|
            s == #[trigger] (a + trimmed(s) + b) && all_spaces(a) && all_spaces(b),
{
    lemma_leading(s);
    let t = trim_start(s);
    lemma_trim_end(t);
    let a = s.subrange(0, leading_spaces(s) as int);
    let b = choose|b: Seq<char>| t == #[trigger] (trim_end(t) + b) && all_spaces(b);
    assert(s =~= a + t);
    assert(s =~= a + trimmed(s) + b);
    if trimmed(s).len() > 0 {
        assert(t[0] == trimmed(s)[0]);
        assert(t[0] == s[leading_spaces(s) as int]);
    }
}

proof fn lemma_leading(s: Seq<char>)
    ensures
        leading_spaces(s) <= s.len(),
        all_spaces(s.subrange(0, leading_spaces(s) as int)),
        leading_spaces(s) < s.len() ==> !is_space(s[leading_spaces(s) as int]),
    decreases s.len(),
{
    if s.len() > 0 && is_space(s[0]) {
        let t = s.drop_first();
        lemma_leading(t);
        let k = leading_spaces(t) as int;
        assert forall|i: int| 0 <= i < k + 1 implies is_space(
            #[trigger] s.subrange(0, k + 1)[i],
        ) by {
            if i > 0 {
                assert(t.subrange(0, k)[i - 1] == s[i]);
            }
        }
        if k < t.len() {
            assert(t[k] == s[k + 1]);
        }
    }
}

proof fn lemma_trim_end(s: Seq<char>)
    ensures
        trim_end(s).len() > 0 ==> !is_space(trim_end(s).last()),
        exists|b: Seq<char>| s == #[trigger] (trim_end(s) + b) && all_spaces(b),
    decreases s.len(),
{
    if s.len() > 0 && is_space(s.last()) {
        let t = s.drop_last();
        lemma_trim_end(t);
        let b = choose|b: Seq<char>| t == #[trigger] (trim_end(t) + b) && all_spaces(b);
        assert(s =~= t.push(s.last()));
        assert(s =~= trim_end(s) + b.push(s.last()));
        assert(all_spaces(b.push(s.last())));
    } else {
        assert(s =~= trim_end(s) + Seq::<char>::empty());
        assert(all_spaces(Seq::<char>::empty()));
    }
}

/// A text that is trimmed of a character at its beginning does not begin with it, and lost only
/// such characters; so at its end.
pub proof fn law_trimmed_of_a_character(s: Seq<char>, c: char)
    ensures
        ({
            let r = trim_char_start(s, c);
            &&& r.len() <= s.len() && r == s.subrange(s.len() - r.len(), s.len() as int)
            &&& r.len() > 0 ==> r[0] != c
            &&& forall|i: int| 0 <= i < s.len() - r.len() ==> #[trigger] s[i] == c
        }),
        ({
            let r = trim_char_end(s, c);
            &&& r.len() <= s.len() && r == s.subrange(0, r.len() as int)
            &&& r.len() > 0 ==> r.last() != c
            &&& forall|i: int| r.len() <= i < s.len() ==> #[trigger] s[i] == c
        }),
{
    lemma_trim_char_start(s, c);
    lemma_trim_char_end(s, c);
}

proof fn lemma_trim_char_start(s: Seq<char>, c: char)
    ensures
        ({
            let r = trim_char_start(s, c);
            &&& r.len() <= s.len() && r == s.subrange(s.len() - r.len(), s.len() as int)
            &&& r.len() > 0 ==> r[0] != c
            &&& forall|i: int| 0 <= i < s.len() - r.len() ==> #[trigger] s[i] == c
        }),
    decreases s.len(),
{
    let r = trim_char_start(s, c);
    if s.len() > 0 && s[0] == c {
        let t = s.drop_first();
        lemma_trim_char_start(t, c);
        assert(r =~= s.subrange(s.len() - r.len(), s.len() as int));
        assert forall|i: int| 0 <= i < s.len() - r.len() implies #[trigger] s[i] == c by {
            if i > 0 {
                assert(t[i - 1] == s[i]);
            }
        }
    } else {
        assert(s =~= s.subrange(0, s.len() as int));
    }
}

proof fn lemma_trim_char_end(s: Seq<char>, c: char)
    ensures
        ({
            let r = trim_char_end(s, c);
            &&& r.len() <= s.len() && r == s.subrange(0, r.len() as int)
            &&& r.len() > 0 ==> r.last() != c
            &&& forall|i: int| r.len() <= i < s.len() ==> #[trigger] s[i] == c
        }),
    decreases s.len(),
{
    let r = trim_char_end(s, c);
    if s.len() > 0 && s.last() == c {
        let t = s.drop_last();
        lemma_trim_char_end(t, c);
        assert(r =~= s.subrange(0, r.len() as int));
        assert forall|i: int| r.len() <= i < s.len() implies #[trigger] s[i] == c by {
            if i < t.len() {
                assert(t[i] == s[i]);
            }
        }
    } else {
        assert(s =~= s.subrange(0, s.len() as int));
    }
}

/// A space at the beginning is passed over; a word that a space follows is the first word, and the
/// words of the rest follow; a word alone is the only one.
pub proof fn law_words(word: Seq<char>, c: char, rest: Seq<char>)
    requires
        word.len() > 0,
        forall|i: int| 0 <= i < word.len() ==> !is_space(#[trigger] word[i]),
        is_space(c),
    ensures
        words(seq![c] + rest) == words(rest),
        words(word.push(c) + rest) == seq![word] + words(rest),
        words(word) == seq![word],
        words(Seq::empty()).len() == 0,
{
    let spaced = seq![c] + rest;
    lemma_words_defined(spaced);
    lemma_words_defined(rest);
    assert(spaced.drop_first() =~= rest);
    lemma_leading_spaces_bound(rest);
    assert(trim_start(spaced) =~= trim_start(rest));

    let s = word.push(c) + rest;
    lemma_words_defined(s);
    lemma_word(word, s);
    assert(s[0] == word[0]);
    assert(!is_space(word[0]));
    assert(leading_spaces(s) == 0);
    assert(trim_start(s) =~= s);
    assert(s.subrange(0, word.len() as int) =~= word);
    assert(s.subrange(word.len() as int, s.len() as int) =~= spaced);
    assert(words(s) == seq![word] + words(spaced));

    lemma_words_defined(word);
    lemma_word(word, word);
    assert(leading_spaces(word) == 0);
    assert(trim_start(word) =~= word);
    assert(word.subrange(0, word.len() as int) =~= word);
    let none = word.subrange(word.len() as int, word.len() as int);
    lemma_leading_spaces_bound(none);
    assert(trim_start(none).len() == 0);
    assert(words(none) =~= Seq::empty());
    assert(words(word) =~= seq![word] + words(none));
    lemma_leading_spaces_bound(Seq::empty());
}

/// A word reaches up to the first space.
proof fn lemma_word(word: Seq<char>, s: Seq<char>)
    requires
        word.len() <= s.len(),
        forall|i: int| 0 <= i < word.len() ==> s[i] == word[i] && !is_space(#[trigger] word[i]),
        word.len() < s.len() ==> is_space(s[word.len() as int]),
    ensures
        word_len(s) == word.len(),
    decreases word.len(),
{
    if word.len() > 0 {
        assert(s[0] == word[0]);
        assert forall|i: int| 0 <= i < word.drop_first().len() implies s.drop_first()[i]
            == word.drop_first()[i] && !is_space(#[trigger] word.drop_first()[i]) by {
            assert(s[i + 1] == word[i + 1]);
        }
        lemma_word(word.drop_first(), s.drop_first());
    }
}

/// A replaced character stands nowhere any more, unless it is what replaces; every other stays
/// where it is.
pub proof fn law_replaced(s: Seq<char>, from: char, to: char)
    ensures
        replaced(s, from, to).len() == s.len(),
        from != to ==> !replaced(s, from, to).contains(from),
        forall|i: int|
            0 <= i < s.len() ==> #[trigger] replaced(s, from, to)[i] == (if s[i] == from {
                to
            } else {
                s[i]
            }),
{
}

/// The beginning of a text is its first characters, as many as are asked for and there are.
pub proof fn law_first_chars(s: Seq<char>, n: nat)
    ensures
        first_chars(s, n).len() == (if s.len() <= n {
            s.len()
        } else {
            n
        }),
        forall|i: int|
            0 <= i < first_chars(s, n).len() ==> #[trigger] first_chars(s, n)[i] == s[i],
{
}

/// A sum that stays in bounds is the sum, and else the bound.
pub proof fn law_bounded_sums(a: usize, b: usize)
    ensures
        a + b <= usize::MAX ==> sat_sum(a, b) == a + b,
        a + b > usize::MAX ==> sat_sum(a, b) == usize::MAX,
        sat_sum(a, b) == sat_sum(b, a),
{
}

} // verus!
