use chaseai::text::{
    blank, char_is_whitespace, chars_of, contains_chars, contains_text, decimal_string,
    head_upto, only_occurrence, parse_port, same_chars, same_text, signed_decimal_string,
    starts_with, tail_from,
};

fn chars(text: &str) -> Vec<char> {
    text.chars().collect()
}

#[test]
fn blank_texts_hold_white_space_only() {
    assert!(blank(""));
    assert!(blank("  "));
    assert!(blank(" \t\r\n"));
    assert!(blank("\u{a0}\u{2003}\u{3000}\u{85}\u{1680}\u{2028}\u{2029}\u{202f}\u{205f}"));
    assert!(!blank("a"));
    assert!(!blank("  a  "));
    assert!(!blank("\u{200b}"));
    assert!(!blank("\u{feff}"));
    assert!(!blank("_"));
}

#[test]
fn blank_agrees_with_trimming() {
    for text in ["", " ", "\t\n", "x", " x ", "\u{a0}", "\u{200b}", "\u{1c}", "\u{0b}\u{0c}"] {
        assert_eq!(blank(text), text.trim().is_empty(), "{:?}", text);
    }
}

#[test]
fn white_space_is_what_the_standard_library_takes_for_it() {
    let mut code: u32 = 0;
    while code <= 0x3100 {
        if let Some(c) = char::from_u32(code) {
            assert_eq!(char_is_whitespace(c), c.is_whitespace(), "U+{:04X}", code);
        }
        code += 1;
    }
    assert!(!char_is_whitespace('\u{10ffff}'));
}

#[test]
fn texts_are_compared_by_their_characters() {
    assert_eq!(chars_of("héllo"), chars("héllo"));
    assert!(chars_of("").is_empty());
    assert!(same_text("abc", "abc"));
    assert!(!same_text("abc", "abd"));
    assert!(!same_text("abc", "ab"));
    assert!(same_text("", ""));
    assert!(same_chars(&chars("x"), &chars("x")));
    assert!(!same_chars(&chars("x"), &chars("")));
}

#[test]
fn a_text_is_found_inside_another() {
    assert!(contains_text("approve session", "session"));
    assert!(contains_text("approve session", "approve"));
    assert!(contains_text("session", "session"));
    assert!(contains_text("abc", ""));
    assert!(contains_text("", ""));
    assert!(!contains_text("", "a"));
    assert!(!contains_text("sessio", "session"));
    assert!(!contains_text("ses sion", "session"));
    assert!(contains_text("aab", "ab"));
    assert!(contains_chars(&chars("xxsession"), &chars("session")));
    assert!(!contains_chars(&chars("ab"), &chars("abc")));
}

#[test]
fn numbers_are_written_in_decimal() {
    assert_eq!(decimal_string(0), "0");
    assert_eq!(decimal_string(7), "7");
    assert_eq!(decimal_string(10), "10");
    assert_eq!(decimal_string(3000), "3000");
    assert_eq!(decimal_string(65535), "65535");
    assert_eq!(decimal_string(u64::MAX), "18446744073709551615");
    assert_eq!(signed_decimal_string(0), "0");
    assert_eq!(signed_decimal_string(-1), "-1");
    assert_eq!(signed_decimal_string(1234567890), "1234567890");
    assert_eq!(signed_decimal_string(i64::MIN), "-9223372036854775808");
    assert_eq!(signed_decimal_string(i64::MAX), "9223372036854775807");
}

#[test]
fn port_numbers_are_read_as_the_standard_library_reads_them() {
    for text in [
        "0", "1", "80", "8080", "65535", "65536", "99999", "4294967296", "+1", "+", "", "-1",
        "1 ", " 1", "1a", "００", "0008080", "+0065535", "00065536", "++1", "1+", "١",
    ] {
        assert_eq!(parse_port(&chars(text)), text.parse::<u16>().ok(), "{:?}", text);
    }
    assert_eq!(parse_port(&chars("8080")), Some(8080));
    assert_eq!(parse_port(&chars("65536")), None);
}

#[test]
fn texts_are_cut_at_a_position() {
    assert!(starts_with(&chars("port:80"), &chars("port:")));
    assert!(starts_with(&chars("port:"), &chars("port:")));
    assert!(starts_with(&chars("x"), &chars("")));
    assert!(!starts_with(&chars("por"), &chars("port:")));
    assert!(!starts_with(&chars("xport:"), &chars("port:")));
    assert_eq!(tail_from(&chars("port:80"), 5), chars("80"));
    assert_eq!(tail_from(&chars("port:"), 5), chars(""));
    assert_eq!(tail_from(&chars("abc"), 0), chars("abc"));
    assert_eq!(head_upto(&chars("80:role"), 2), chars("80"));
    assert_eq!(head_upto(&chars("abc"), 0), chars(""));
    assert_eq!(head_upto(&chars("abc"), 3), chars("abc"));
}

#[test]
fn a_mark_is_found_only_where_it_occurs_once() {
    assert_eq!(only_occurrence(&chars("80|Verification"), '|'), Some(2));
    assert_eq!(only_occurrence(&chars("|"), '|'), Some(0));
    assert_eq!(only_occurrence(&chars("a|"), '|'), Some(1));
    assert_eq!(only_occurrence(&chars("80"), '|'), None);
    assert_eq!(only_occurrence(&chars(""), '|'), None);
    assert_eq!(only_occurrence(&chars("1|2|3"), '|'), None);
    assert_eq!(only_occurrence(&chars("||"), '|'), None);
}
