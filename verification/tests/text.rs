use detrix_testing::text::{
    after_text, chars_of, contains, cut_bytes, find_chars, format_debug_opt,
    format_sizes, join, num_signed, parse_i64, parse_u16, parse_u64, rsplit_once,
    split_lines, split_words, starts_with, strip_end, strip_prefix, trim, utf8_len_exec,
};
use detrix_testing::times::age_seconds;

#[test]
fn numbers_are_written_and_read_back() {
    for n in [0, 7, 10, 65535, u64::MAX] {
        assert_eq!(parse_u64(&n.to_string()), Some(n));
        assert_eq!(detrix_testing::text::num(n), n.to_string());
    }
    assert_eq!(num_signed(i64::MIN), i64::MIN.to_string());
    assert_eq!(parse_i64(&i64::MIN.to_string()), Some(i64::MIN));
    for text in ["", "+", "-", "-1", "1x", " 1", "65536"] {
        assert_eq!(parse_u16(text), text.parse::<u16>().ok(), "{text}");
    }
    assert_eq!(parse_u16("+7"), "+7".parse::<u16>().ok());
    assert_eq!(parse_i64("-7"), Some(-7));
    assert_eq!(format_sizes(&vec![1, 20]), format!("{:?}", vec![1, 20]));
}

#[test]
fn texts_are_trimmed_and_split_like_strings() {
    for text in ["", " a ", "\u{3000}x\u{85}", "a\nb", "a\r\nb\n", "\n", "a b\t c"] {
        assert_eq!(trim(text), text.trim());
        assert_eq!(split_lines(text), text.lines().collect::<Vec<_>>());
        assert_eq!(split_words(text), text.split_whitespace().collect::<Vec<_>>());
    }
    assert_eq!(strip_end("a//", '/'), "a");
}

#[test]
fn texts_are_searched_like_strings() {
    for (text, part) in [("abcabc", "ca"), ("abc", ""), ("", "a"), ("aab", "ab")] {
        assert_eq!(contains(text, part), text.contains(part));
        assert_eq!(starts_with(text, part), text.starts_with(part));
        assert_eq!(strip_prefix(text, part).as_deref(), text.strip_prefix(part));
        assert_eq!(find_chars(&chars_of(text), &chars_of(part)), text.find(part));
    }
    assert_eq!(after_text("x: y: z", ": ").as_deref(), Some("y: z"));
    assert_eq!(rsplit_once("a#b#c", '#'), Some(("a#b".to_string(), "c".to_string())));
    assert_eq!(rsplit_once("abc", '#'), None);
}

#[test]
fn bytes_are_counted() {
    let v = chars_of("aä€😀");
    assert_eq!(utf8_len_exec(&v, v.len()), 10);
    assert_eq!(cut_bytes(&v, 3), Some(2));
    assert_eq!(cut_bytes(&v, 4), None);
    assert_eq!(cut_bytes(&v, 10), Some(4));
}

#[test]
fn lists_are_joined() {
    assert_eq!(join(&vec!["a".to_string(), "b".to_string()], ", "), "a, b");
    assert_eq!(join(&Vec::new(), ", "), "");
}

#[test]
fn texts_are_shown_for_debugging() {
    assert_eq!(format_debug_opt(&Some("a\"\n".to_string())), "Some(\"a\\\"\\n\")");
    assert_eq!(format_debug_opt(&None), "None");
}

#[test]
fn ages_are_whole_seconds() {
    assert_eq!(age_seconds(2_999_999, 1_000_000), 1);
    assert_eq!(age_seconds(0, 1_500_000), -1);
}
