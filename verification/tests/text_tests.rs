use argusflow::text::{
    chars_of, copy_range, find_chars, matches_at, push_chars, push_decimal, push_hex, push_hex2,
    push_signed_decimal, push_text, string_of, string_of_str, strip_prefix, trim, white_space,
};

fn chars(s: &str) -> Vec<char> {
    s.chars().collect()
}

#[test]
fn find_returns_first_occurrence_from_position() {
    let h = chars("abcabc");
    assert_eq!(find_chars(&h, &chars("bc"), 0), Some(1));
    assert_eq!(find_chars(&h, &chars("bc"), 2), Some(4));
    assert_eq!(find_chars(&h, &chars("bc"), 5), None);
    assert_eq!(find_chars(&h, &chars("x"), 0), None);
    assert_eq!(find_chars(&h, &chars(""), 3), Some(3));
    assert_eq!(find_chars(&h, &chars("a"), 10), None);
}

#[test]
fn matches_at_positions() {
    let h = chars("hello");
    assert!(matches_at(&h, &chars("ll"), 2));
    assert!(!matches_at(&h, &chars("ll"), 1));
    assert!(!matches_at(&h, &chars("lo!"), 3));
    assert!(!matches_at(&h, &chars("o"), 9));
}

#[test]
fn strip_prefix_and_copy_range() {
    assert_eq!(strip_prefix(&chars("http://x"), &chars("http://")), Some(chars("x")));
    assert_eq!(strip_prefix(&chars("ftp://x"), &chars("http://")), None);
    assert_eq!(strip_prefix(&chars("ab"), &chars("abc")), None);
    assert_eq!(copy_range(&chars("abcdef"), 1, 4), chars("bcd"));
    assert_eq!(copy_range(&chars("abc"), 2, 2), Vec::<char>::new());
}

#[test]
fn trim_removes_unicode_white_space() {
    assert_eq!(trim(&chars("  a b \n\t")), chars("a b"));
    assert_eq!(trim(&chars("\u{3000}x\u{a0}")), chars("x"));
    assert_eq!(trim(&chars("   ")), Vec::<char>::new());
    assert!(white_space('\u{2028}'));
    assert!(!white_space('x'));
    assert!(!white_space('\u{200b}'));
}

#[test]
fn numbers_are_written_in_decimal_and_hex() {
    let mut s = String::new();
    push_decimal(&mut s, 0);
    push_text(&mut s, " ");
    push_decimal(&mut s, 18446744073709551615);
    push_text(&mut s, " ");
    push_signed_decimal(&mut s, -9223372036854775808);
    push_text(&mut s, " ");
    push_signed_decimal(&mut s, 42);
    assert_eq!(s, "0 18446744073709551615 -9223372036854775808 42");
    let mut h = String::new();
    push_hex(&mut h, 0);
    push_text(&mut h, " ");
    push_hex(&mut h, 0x10FFFF);
    push_text(&mut h, " ");
    push_hex2(&mut h, 5);
    push_text(&mut h, " ");
    push_hex2(&mut h, 0x20AC);
    assert_eq!(h, "0 10FFFF 05 20AC");
}

#[test]
fn strings_and_chars_round_trip() {
    assert_eq!(chars_of("héllo"), chars("héllo"));
    assert_eq!(string_of(&chars("héllo")), "héllo");
    assert_eq!(string_of_str("x"), "x");
    let mut s = "a".to_string();
    push_chars(&mut s, &chars("bc"));
    assert_eq!(s, "abc");
}
