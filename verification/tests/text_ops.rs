use capsule::text::{
    contains, delete_last_word, eq_ignore_ascii_case, initials, is_blank, is_control,
    is_single_char, is_whitespace, matches_lowered, pop_last, replace_all, strip_controls, trim,
    trim_end, trimmed_end_len_of,
};

#[test]
fn tray_initials() {
    assert_eq!(initials("network manager"), "NM");
    assert_eq!(initials("  Steam  "), "S");
    assert_eq!(initials("a b c"), "AB");
    assert_eq!(initials("   "), "  ");
    assert_eq!(initials(""), "");
}

#[test]
fn word_and_character_deletion() {
    assert_eq!(delete_last_word("hello big world"), "hello big");
    assert_eq!(delete_last_word("hello world   "), "hello");
    assert_eq!(delete_last_word("single"), "");
    assert_eq!(delete_last_word(""), "");
    assert_eq!(pop_last("abc"), "ab");
    assert_eq!(pop_last("ñ"), "");
    assert_eq!(pop_last(""), "");
}

#[test]
fn trimming_and_blanks() {
    assert_eq!(trim("  a b \t\n"), "a b");
    assert_eq!(trim_end("  a b  "), "  a b");
    assert_eq!(trimmed_end_len_of("ab  "), 2);
    assert!(is_blank(" \t\u{3000}"));
    assert!(is_blank(""));
    assert!(!is_blank(" x "));
    assert!(is_whitespace('\u{a0}'));
    assert!(!is_whitespace('x'));
    assert!(is_control('\u{7f}'));
    assert!(!is_control(' '));
}

#[test]
fn searching_and_replacing() {
    assert!(contains("hello world", "lo w"));
    assert!(contains("abc", ""));
    assert!(!contains("abc", "abcd"));
    assert!(matches_lowered("Hello WORLD", "world"));
    assert!(!matches_lowered("Hello", "HELLO"));
    assert!(eq_ignore_ascii_case("Animals", "aNiMaLs"));
    assert!(!eq_ignore_ascii_case("Animals", "Animal"));
    assert_eq!(replace_all("{a}-{a}", "{a}", "x"), "x-x");
    assert_eq!(replace_all("aaa", "aa", "b"), "ba");
    assert_eq!(strip_controls("a\u{1b}[b\n"), "a[b");
    assert!(is_single_char("é"));
    assert!(!is_single_char("ab"));
}
