//! What keys and claims hold as JSON, and how the encoding of their bytes is read back.

use vstd::arithmetic::div_mod::{lemma_div_denominator, lemma_fundamental_div_mod_converse};
use vstd::prelude::*;

use crate::json::{
    holds_number, holds_text, lemma_field_absent, lemma_field_at, lemma_field_with_entry,
    number_view, opt_str_json, with_entry, JsonView,
};
use crate::jwt::{
    claims_json, in_lines, jwk_json, token_or_error, url_base64, url_digit, ClaimsView, JwkView,
};
use crate::text::outline;

verus! {

broadcast use lemma_field_with_entry;

// ---------------------------------------------------------------------------
// Base64
// ---------------------------------------------------------------------------

/// The six bits that a character stands for.
pub open spec fn url_value(c: char) -> int {
    if 'A' <= c && c <= 'Z' {
        c as int - 'A' as int
    } else if 'a' <= c && c <= 'z' {
        c as int - 'a' as int + 26
    } else if '0' <= c && c <= '9' {
        c as int - '0' as int + 52
    } else if c == '-' {
        62
    } else {
        63
    }
}

/// The bytes that a text stands for: four characters are the 24 bits of three bytes, three are
/// the 16 bits of two bytes and two are the 8 bits of one, with zeros behind.
pub open spec fn url_bytes(text: Seq<char>) -> Seq<u8>
    decreases text.len(),
{
    if text.len() < 2 {
        Seq::empty()
    } else if text.len() == 2 {
        seq![((url_value(text[0]) * 64 + url_value(text[1])) / 16) as u8]
    } else if text.len() == 3 {
        let n = (url_value(text[0]) * 4096 + url_value(text[1]) * 64 + url_value(text[2])) / 4;
        seq![(n / 256) as u8, (n % 256) as u8]
    } else {
        let n = url_value(text[0]) * 262144 + url_value(text[1]) * 4096 + url_value(text[2]) * 64
            + url_value(text[3]);
        seq![(n / 65536) as u8, (n / 256 % 256) as u8, (n % 256) as u8] + url_bytes(
            text.subrange(4, text.len() as int),
        )
    }
}

/// Every six bits have a character that stands for them.
proof fn lemma_digit(n: int)
    requires
        0 <= n < 64,
    ensures
        url_value(url_digit(n)) == n,
{
}

/// The four digits of a number to the base of 64 make up the number.
proof fn lemma_digits(n: int)
    requires
        0 <= n < 16777216,
    ensures
        0 <= n / 262144 < 64,
        (n / 262144) * 262144 + (n / 4096 % 64) * 4096 + (n / 64 % 64) * 64 + n % 64 == n,
{
    let q = n / 64;
    let r = q / 64;
    lemma_div_denominator(n, 64, 64);
    lemma_div_denominator(n, 64, 4096);
    lemma_div_denominator(q, 64, 64);
    assert(q == n / 64 && r == n / 4096 && r / 64 == n / 262144);
    assert(n == q * 64 + n % 64);
    assert(q == r * 64 + q % 64);
    assert(r == (r / 64) * 64 + r % 64);
}

/// Three bytes are the three digits of their number to the base of 256.
proof fn lemma_three(a: u8, b: u8, c: u8)
    ensures
        ({
            let n = a * 65536 + b * 256 + c;
            &&& 0 <= n < 16777216
            &&& n / 65536 == a && n / 256 % 256 == b && n % 256 == c
        }),
{
    let n = a * 65536 + b * 256 + c;
    let q = a * 256 + b;
    lemma_fundamental_div_mod_converse(n, 256, q, c as int);
    lemma_fundamental_div_mod_converse(q, 256, a as int, b as int);
    lemma_div_denominator(n, 256, 256);
}

/// Two bytes, in the same way, with two zero bits behind.
proof fn lemma_two(a: u8, b: u8)
    ensures
        ({
            let n = (a * 256 + b) * 4;
            &&& 0 <= n / 4096 < 64 && 0 <= n / 64 % 64 < 64 && 0 <= n % 64 < 64
            &&& (n / 4096) * 4096 + (n / 64 % 64) * 64 + n % 64 == n
            &&& n / 4 / 256 == a && n / 4 % 256 == b
        }),
{
    let n = (a * 256 + b) * 4;
    assert(n / 64 == (n / 4096) * 64 + n / 64 % 64);
    assert(n == (n / 64) * 64 + n % 64);
    assert(n / 4 == a * 256 + b);
}

/// The bytes of four characters, and of what follows.
proof fn lemma_four_characters(text: Seq<char>, a: u8, b: u8, c: u8)
    requires
        text.len() >= 4,
        ({
            let n = a * 65536 + b * 256 + c;
            &&& text[0] == url_digit(n / 262144) && text[1] == url_digit(n / 4096 % 64)
            &&& text[2] == url_digit(n / 64 % 64) && text[3] == url_digit(n % 64)
        }),
    ensures
        url_bytes(text) == seq![a, b, c] + url_bytes(text.subrange(4, text.len() as int)),
{
    let n = a * 65536 + b * 256 + c;
    lemma_three(a, b, c);
    lemma_digits(n);
    lemma_digit(n / 262144);
    lemma_digit(n / 4096 % 64);
    lemma_digit(n / 64 % 64);
    lemma_digit(n % 64);
}

/// Bytes are read back from their encoding.
pub proof fn law_bytes_are_read_back(bytes: Seq<u8>)
    ensures
        url_bytes(url_base64(bytes)) == bytes,
    decreases bytes.len(),
{
    let text = url_base64(bytes);
    if bytes.len() == 1 {
        let n = bytes[0] * 16;
        lemma_digit(n / 64);
        lemma_digit(n % 64);
        assert(url_bytes(text) =~= bytes);
    } else if bytes.len() == 2 {
        let n = (bytes[0] * 256 + bytes[1]) * 4;
        lemma_two(bytes[0], bytes[1]);
        lemma_digit(n / 4096);
        lemma_digit(n / 64 % 64);
        lemma_digit(n % 64);
        assert(url_bytes(text) =~= bytes);
    } else if bytes.len() >= 3 {
        let rest = bytes.subrange(3, bytes.len() as int);
        law_bytes_are_read_back(rest);
        lemma_four_characters(text, bytes[0], bytes[1], bytes[2]);
        assert(text.subrange(4, text.len() as int) =~= url_base64(rest));
        assert(bytes =~= seq![bytes[0], bytes[1], bytes[2]] + rest);
    }
}

/// Different bytes have different encodings.
pub proof fn law_encodings_differ(a: Seq<u8>, b: Seq<u8>)
    requires
        url_base64(a) == url_base64(b),
    ensures
        a == b,
{
    law_bytes_are_read_back(a);
    law_bytes_are_read_back(b);
}

/// A text in lines has every character of the text in its order: its first line is the first 64
/// characters, or the whole text where it is no longer.
pub proof fn law_lines(text: Seq<char>)
    ensures
        text.len() <= 64 ==> in_lines(text) == text,
        text.len() > 64 ==> {
            &&& in_lines(text).len() == 65 + in_lines(text.skip(64)).len()
            &&& in_lines(text)[64] == '\n'
            &&& forall|i: int| 0 <= i < 64 ==> #[trigger] in_lines(text)[i] == text[i]
            &&& in_lines(text).skip(65) == in_lines(text.skip(64))
        },
{
    reveal_strlit("\n");
    if text.len() > 64 {
        assert(in_lines(text).skip(65) =~= in_lines(text.skip(64)));
    }
}

// ---------------------------------------------------------------------------
// JSON
// ---------------------------------------------------------------------------

/// What tells the names apart.
proof fn lemma_names()
    ensures
        outline("kty"@) == (3nat, 'k', 'y', 't', 'y'),
        outline("alg"@) == (3nat, 'a', 'g', 'l', 'g'),
        outline("use"@) == (3nat, 'u', 'e', 's', 'e'),
        outline("kid"@) == (3nat, 'k', 'd', 'i', 'd'),
        outline("n"@) == (1nat, 'n', 'n', 'n', 'n'),
        outline("e"@) == (1nat, 'e', 'e', 'e', 'e'),
        outline("sub"@) == (3nat, 's', 'b', 'u', 'b'),
        outline("iss"@) == (3nat, 'i', 's', 's', 's'),
        outline("aud"@) == (3nat, 'a', 'd', 'u', 'd'),
        outline("exp"@) == (3nat, 'e', 'p', 'x', 'p'),
        outline("iat"@) == (3nat, 'i', 't', 'a', 't'),
        outline("email"@) == (5nat, 'e', 'l', 'a', 'i'),
        outline("name"@) == (4nat, 'n', 'e', 'm', 'e'),
{
    reveal_strlit("kty");
    reveal_strlit("alg");
    reveal_strlit("use");
    reveal_strlit("kid");
    reveal_strlit("n");
    reveal_strlit("e");
    reveal_strlit("sub");
    reveal_strlit("iss");
    reveal_strlit("aud");
    reveal_strlit("exp");
    reveal_strlit("iat");
    reveal_strlit("email");
    reveal_strlit("name");
}

/// A key that is published holds each of its parts under its name.
pub proof fn law_published_keys(key: JwkView)
    ensures
        ({
            let json = jwk_json(key);
            &&& holds_text(json, "kty"@, Some(key.kty))
            &&& holds_text(json, "alg"@, Some(key.alg))
            &&& holds_text(json, "use"@, Some(key.use_))
            &&& holds_text(json, "kid"@, Some(key.kid))
            &&& holds_text(json, "n"@, Some(key.n))
            &&& holds_text(json, "e"@, Some(key.e))
        }),
{
    lemma_names();
    let entries = seq![
        ("kty"@, JsonView::Str(key.kty)),
        ("alg"@, JsonView::Str(key.alg)),
        ("use"@, JsonView::Str(key.use_)),
        ("kid"@, JsonView::Str(key.kid)),
        ("n"@, JsonView::Str(key.n)),
        ("e"@, JsonView::Str(key.e)),
    ];
    lemma_field_at(entries, "kty"@, 0);
    lemma_field_at(entries, "alg"@, 1);
    lemma_field_at(entries, "use"@, 2);
    lemma_field_at(entries, "kid"@, 3);
    lemma_field_at(entries, "n"@, 4);
    lemma_field_at(entries, "e"@, 5);
}

/// Claims that are signed hold each of theirs under its name, and nothing where there is none.
pub proof fn law_signed_claims(c: ClaimsView)
    ensures
        ({
            let json = claims_json(c);
            &&& holds_text(json, "sub"@, Some(c.sub))
            &&& holds_text(json, "iss"@, Some(c.iss))
            &&& holds_text(json, "aud"@, c.aud)
            &&& holds_number(json, "exp"@, Some(c.exp as int))
            &&& holds_number(json, "iat"@, Some(c.iat as int))
            &&& holds_text(json, "email"@, c.email)
            &&& holds_text(json, "name"@, c.name)
        }),
{
    lemma_names();
    let a = seq![("sub"@, JsonView::Str(c.sub)), ("iss"@, JsonView::Str(c.iss))];
    lemma_field_at(a, "sub"@, 0);
    lemma_field_at(a, "iss"@, 1);
    lemma_absent(a);
    let b = with_entry(a, "aud"@, opt_str_json(c.aud));
    let d = with_entry(b, "exp"@, Some(number_view(c.exp as int)));
    let e = with_entry(d, "iat"@, Some(number_view(c.iat as int)));
    assert(d =~= b.push(("exp"@, number_view(c.exp as int))));
    assert(e =~= d.push(("iat"@, number_view(c.iat as int))));
}

/// The first two claims are not the others.
proof fn lemma_absent(a: Seq<(Seq<char>, JsonView)>)
    requires
        a.len() == 2,
        a[0].0 == "sub"@,
        a[1].0 == "iss"@,
    ensures
        JsonView::Object(a).field("aud"@) is None,
        JsonView::Object(a).field("exp"@) is None,
        JsonView::Object(a).field("iat"@) is None,
        JsonView::Object(a).field("email"@) is None,
        JsonView::Object(a).field("name"@) is None,
{
    lemma_names();
    lemma_field_absent(a, "aud"@);
    lemma_field_absent(a, "exp"@);
    lemma_field_absent(a, "iat"@);
    lemma_field_absent(a, "email"@);
    lemma_field_absent(a, "name"@);
}

/// A token comes of a signature that was made, and of nothing else.
pub proof fn law_tokens(signed: Option<Option<Seq<char>>>)
    ensures
        token_or_error(signed) is Ok <==> signed is Some && signed->0 is Some,
        token_or_error(signed) matches Ok(token) ==> signed == Some(Some(token)),
{
}

} // verus!
