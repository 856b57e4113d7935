use gemini_bridge::text::{
    char_is_space, contains_text, decimal_text, is_blank_text, starts_with_text, strip_text,
    to_chars, trim_text,
};

#[test]
fn space_characters_are_recognised() {
    assert!(char_is_space(' '));
    assert!(char_is_space('\t'));
    assert!(char_is_space('\n'));
    assert!(char_is_space('\u{00A0}'));
    assert!(char_is_space('\u{3000}'));
    assert!(!char_is_space('a'));
    assert!(!char_is_space('\u{200B}'));
}

#[test]
fn space_agrees_with_std_on_every_char() {
    let mut n: u32 = 0;
    while n <= 0x10FFFF {
        if let Some(c) = char::from_u32(n) {
            assert_eq!(char_is_space(c), c.is_whitespace());
        }
        n += 1;
    }
}

#[test]
fn blank_texts() {
    assert!(is_blank_text(""));
    assert!(is_blank_text("   "));
    assert!(is_blank_text(" \t\r\n"));
    assert!(!is_blank_text("  x "));
}

#[test]
fn trimming_matches_std() {
    for s in ["", "   ", "abc", "  abc", "abc  ", " a b c \n", "\u{3000}é \u{00A0}"] {
        assert_eq!(trim_text(s), s.trim());
    }
}

#[test]
fn stripping_quotes_matches_std() {
    for s in ["", "\"", "\"\"", "\"a\"", "a\"b", "\"\"a\"b\"\"", "abc"] {
        assert_eq!(strip_text(s, '"'), s.trim_matches('"'));
    }
}

#[test]
fn substring_search() {
    assert!(contains_text("my placeholder key", "placeholder"));
    assert!(contains_text("placeholder", "placeholder"));
    assert!(contains_text("abc", ""));
    assert!(contains_text("", ""));
    assert!(!contains_text("placeholde", "placeholder"));
    assert!(!contains_text("", "a"));
    assert!(contains_text("xxabxabc", "abc"));
}

#[test]
fn prefixes() {
    assert!(starts_with_text("Error: boom", "Error: "));
    assert!(starts_with_text("Error: ", "Error: "));
    assert!(!starts_with_text("Error:", "Error: "));
    assert!(!starts_with_text("error: boom", "Error: "));
    assert!(starts_with_text("anything", ""));
}

#[test]
fn chars_of_a_text() {
    assert_eq!(to_chars("héllo"), vec!['h', 'é', 'l', 'l', 'o']);
    assert_eq!(to_chars(""), Vec::<char>::new());
}

#[test]
fn decimal_texts() {
    assert_eq!(decimal_text(0), "0");
    assert_eq!(decimal_text(7), "7");
    assert_eq!(decimal_text(10), "10");
    assert_eq!(decimal_text(404), "404");
    assert_eq!(decimal_text(65535), "65535");
}
