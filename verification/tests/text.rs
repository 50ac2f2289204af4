use gitlab_deploy::text::{
    chars_of, decimal_string, digit, find_char, join_path, join_words, parse_u64, same_text,
    string_of, to_lowercase, whitespace,
};

#[test]
fn decimal_form_has_no_leading_zeros() {
    assert_eq!(decimal_string(0), "0");
    assert_eq!(decimal_string(7), "7");
    assert_eq!(decimal_string(10), "10");
    assert_eq!(decimal_string(123), "123");
    assert_eq!(decimal_string(1_000_000), "1000000");
    assert_eq!(decimal_string(u64::MAX), "18446744073709551615");
}

#[test]
fn decimal_form_is_what_formatting_writes() {
    for n in [0u64, 1, 9, 10, 99, 100, 101, 65535, 4294967296, u64::MAX - 1] {
        assert_eq!(decimal_string(n), format!("{n}"));
    }
}

#[test]
fn unsigned_numbers_are_read_as_the_standard_library_reads_them() {
    for s in [
        "", "0", "00", "7", "+7", "++7", "-7", "+", " 7", "7 ", "1_000", "0x10", "１２",
        "18446744073709551615", "18446744073709551616", "000018446744073709551615",
        "99999999999999999999", "184467440737095516150", "+0", "12a", "a12",
    ] {
        assert_eq!(parse_u64(s), s.parse::<u64>().ok(), "{:?}", s);
    }
    assert_eq!(parse_u64("123"), Some(123));
    assert_eq!(parse_u64("+0012"), Some(12));
    assert_eq!(parse_u64("18446744073709551616"), None);
}

#[test]
fn texts_are_compared_by_their_characters() {
    assert!(same_text("", ""));
    assert!(same_text("a.b", "a.b"));
    assert!(!same_text("a", "b"));
    assert!(!same_text("a", "ab"));
    assert!(!same_text("ab", "a"));
}

#[test]
fn only_ascii_capitals_are_lowered() {
    assert_eq!(to_lowercase("Down_UP"), "down_up");
    assert_eq!(to_lowercase("AZaz09@[`{"), "azaz09@[`{");
    assert_eq!(to_lowercase("ÀÉ"), "ÀÉ");
    assert_eq!(to_lowercase(""), "");
}

#[test]
fn words_are_joined_with_one_space() {
    let words = vec![String::from("sudo"), String::from("run"), String::from("now")];
    assert_eq!(join_words(&words, 0), "sudo run now");
    assert_eq!(join_words(&words, 1), "run now");
    assert_eq!(join_words(&words, 2), "now");
    assert_eq!(join_words(&words, 3), "");
    assert_eq!(join_words(&vec![String::new(), String::new()], 0), " ");
}

#[test]
fn paths_are_joined_with_one_slash() {
    assert_eq!(join_path("/home/a", "b"), "/home/a/b");
    assert_eq!(join_path("/home/a/", "b"), "/home/a/b");
    assert_eq!(join_path("/", "b"), "/b");
    assert_eq!(join_path("", "b"), "b");
}

#[test]
fn characters_go_in_and_out_of_strings() {
    let v = chars_of("a中b");
    assert_eq!(v, vec!['a', '中', 'b']);
    assert_eq!(string_of(&v, 1, 3), "中b");
    assert_eq!(string_of(&v, 2, 2), "");
    assert_eq!(find_char(&v, 0, 'b'), 2);
    assert_eq!(find_char(&v, 0, 'x'), 3);
    assert_eq!(find_char(&v, 3, 'a'), 3);
}

#[test]
fn white_space_is_what_the_standard_library_takes_for_it() {
    for code in 0u32..0x11000 {
        if let Some(c) = char::from_u32(code) {
            assert_eq!(whitespace(c), c.is_whitespace(), "{:?}", c);
            assert_eq!(digit(c), c.is_ascii_digit(), "{:?}", c);
        }
    }
}
