use ton_gql::text::{
    char_ascii_upper, char_is_whitespace, ends_with_char, normalize_whitespace, to_chars,
};

#[test]
fn whitespace_is_what_std_calls_whitespace() {
    for code in 0..=0x10ffffu32 {
        if let Some(c) = char::from_u32(code) {
            assert_eq!(char_is_whitespace(c), c.is_whitespace(), "U+{:04X}", code);
        }
    }
}

#[test]
fn ascii_upper_is_what_std_computes() {
    for code in 0..=0x10ffffu32 {
        if let Some(c) = char::from_u32(code) {
            assert_eq!(char_ascii_upper(c), c.to_ascii_uppercase(), "U+{:04X}", code);
        }
    }
}

#[test]
fn ascii_upper_of_letters() {
    assert_eq!(char_ascii_upper('a'), 'A');
    assert_eq!(char_ascii_upper('z'), 'Z');
    assert_eq!(char_ascii_upper('A'), 'A');
    assert_eq!(char_ascii_upper('_'), '_');
    assert_eq!(char_ascii_upper('é'), 'é');
}

#[test]
fn to_chars_gives_the_characters_in_order() {
    assert_eq!(to_chars(""), Vec::<char>::new());
    assert_eq!(to_chars("abc"), vec!['a', 'b', 'c']);
    assert_eq!(to_chars("é_ß"), vec!['é', '_', 'ß']);
}

#[test]
fn ends_with_char_looks_at_the_last_character() {
    assert!(ends_with_char("messages", 's'));
    assert!(!ends_with_char("message", 's'));
    assert!(!ends_with_char("", 's'));
    assert!(ends_with_char("s", 's'));
    assert!(!ends_with_char("sa", 's'));
    assert!(ends_with_char("été", 'é'));
}

#[test]
fn normalize_collapses_runs_of_whitespace() {
    assert_eq!(normalize_whitespace("a  b"), "a b");
    assert_eq!(normalize_whitespace("a \t\r\n b"), "a b");
    assert_eq!(normalize_whitespace("query  x\n    { y }"), "query x { y }");
}

#[test]
fn normalize_drops_whitespace_at_both_ends() {
    assert_eq!(normalize_whitespace("  a b  "), "a b");
    assert_eq!(normalize_whitespace("\na"), "a");
    assert_eq!(normalize_whitespace("a\n"), "a");
}

#[test]
fn normalize_of_nothing_is_nothing() {
    assert_eq!(normalize_whitespace(""), "");
    assert_eq!(normalize_whitespace(" "), "");
    assert_eq!(normalize_whitespace(" \t\n "), "");
}

#[test]
fn normalize_keeps_normal_text() {
    assert_eq!(normalize_whitespace("a"), "a");
    assert_eq!(normalize_whitespace("a b c"), "a b c");
    assert_eq!(normalize_whitespace("{ id status }"), "{ id status }");
}

#[test]
fn normalize_replaces_other_whitespace_by_a_space() {
    assert_eq!(normalize_whitespace("a\tb"), "a b");
    assert_eq!(normalize_whitespace("a\u{a0}b"), "a b");
    assert_eq!(normalize_whitespace("a\u{3000}\u{2003}b"), "a b");
    assert_eq!(normalize_whitespace("a\u{200b}b"), "a\u{200b}b");
}

#[test]
fn normalize_is_split_whitespace_joined() {
    for text in ["", " ", "a", " a", "a ", "a  b", "\t a \n b\r\nc  ", "x\u{85}y", "é  ü"] {
        let expected = text.split_whitespace().collect::<Vec<&str>>().join(" ");
        assert_eq!(normalize_whitespace(text), expected, "{:?}", text);
    }
}

#[test]
fn normalize_twice_is_normalize_once() {
    for text in ["", "  a   b ", "a\nb\n", "query x { y }"] {
        let once = normalize_whitespace(text);
        assert_eq!(normalize_whitespace(&once), once);
    }
}
