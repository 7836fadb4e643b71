use winget_interfacer::text::{
    chars_of, concat_str, is_white_space_char, push_decimal, push_signed_decimal, str_contains,
    str_equals, string_from_chars, trim_whitespace,
};

#[test]
fn contains_finds_infixes() {
    assert!(str_contains("hello world", "o w"));
    assert!(str_contains("abc", ""));
    assert!(str_contains("", ""));
    assert!(!str_contains("", "a"));
    assert!(!str_contains("ab", "abc"));
    assert!(str_contains("aaab", "aab"));
    assert!(str_contains("déjà vu", "jà"));
    assert!(!str_contains("Not Found", "not found"));
}

#[test]
fn trim_matches_std() {
    for s in ["", "  ", " a ", "\t\nx y\r\n", "\u{a0}z\u{3000}", "\u{200b}k", "ab"] {
        assert_eq!(trim_whitespace(s), s.trim());
    }
}

#[test]
fn white_space_matches_std() {
    for c in ['\t', '\n', '\u{b}', '\u{c}', '\r', ' ', '\u{85}', '\u{a0}', '\u{1680}', '\u{2000}',
        '\u{200a}', '\u{2028}', '\u{2029}', '\u{202f}', '\u{205f}', '\u{3000}', 'a', '\u{200b}',
        '\u{180e}', '0', '\u{feff}']
    {
        assert_eq!(is_white_space_char(c), c.is_whitespace(), "{:?}", c);
    }
}

#[test]
fn chars_and_assembly() {
    let v = chars_of("añb");
    assert_eq!(v, vec!['a', 'ñ', 'b']);
    assert_eq!(string_from_chars(&v, 1, 3), "ñb");
    assert_eq!(concat_str("ab", "cd"), "abcd");
    assert!(str_equals("x", "x"));
    assert!(!str_equals("x", "xy"));
    assert!(!str_equals("xa", "xb"));
}

#[test]
fn decimals() {
    let mut s = String::from("n=");
    push_decimal(&mut s, 0);
    assert_eq!(s, "n=0");
    let mut s = String::new();
    push_decimal(&mut s, 1234567890);
    assert_eq!(s, "1234567890");
    let mut s = String::new();
    push_signed_decimal(&mut s, -2147483648);
    assert_eq!(s, "-2147483648");
    let mut s = String::new();
    push_signed_decimal(&mut s, 42);
    assert_eq!(s, "42");
}
