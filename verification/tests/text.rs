use odin::utils::text::{
    chars_of, eq_ignore_ascii_case, remove_char, starts_with, str_eq, to_ascii_lower, to_decimal,
    trim_once,
};

#[test]
fn chars_of_keeps_every_character_in_order() {
    assert_eq!(chars_of("a:b"), vec!['a', ':', 'b']);
    assert_eq!(chars_of(""), Vec::<char>::new());
    assert_eq!(chars_of("\u{e9}\u{2713}"), vec!['\u{e9}', '\u{2713}']);
}

#[test]
fn str_eq_compares_contents() {
    assert!(str_eq("abc", "abc"));
    assert!(str_eq("", ""));
    assert!(!str_eq("abc", "abd"));
    assert!(!str_eq("abc", "ab"));
    assert!(!str_eq("abc", "ABC"));
}

#[test]
fn starts_with_tests_the_prefix() {
    assert!(starts_with("https://api.telegram.org/bot1", "https://api.telegram.org/bot"));
    assert!(starts_with("abc", "abc"));
    assert!(starts_with("abc", ""));
    assert!(starts_with("", ""));
    assert!(!starts_with("ab", "abc"));
    assert!(!starts_with("xabc", "abc"));
    assert!(!starts_with("", "a"));
    assert!(!starts_with("Abc", "abc"));
}

#[test]
fn remove_char_takes_out_every_occurrence() {
    assert_eq!(remove_char("lib:doorstop:x64.so", ':'), "libdoorstopx64.so");
    assert_eq!(remove_char("libdoorstop_x64.so", ':'), "libdoorstop_x64.so");
    assert_eq!(remove_char(":::", ':'), "");
    assert_eq!(remove_char(":a::b:", ':'), "ab");
    assert_eq!(remove_char("", ':'), "");
}

#[test]
fn trim_once_takes_one_mark_from_each_end() {
    assert_eq!(trim_once("\"http://x\"", '"'), "http://x");
    assert_eq!(trim_once("http://x", '"'), "http://x");
    assert_eq!(trim_once("\"http://x", '"'), "http://x");
    assert_eq!(trim_once("http://x\"", '"'), "http://x");
    assert_eq!(trim_once("ht\"tp", '"'), "ht\"tp");
    assert_eq!(trim_once("", '"'), "");
}

#[test]
fn trim_once_leaves_further_marks() {
    assert_eq!(trim_once("\"", '"'), "");
    assert_eq!(trim_once("\"\"", '"'), "");
    assert_eq!(trim_once("\"\"\"", '"'), "\"");
    assert_eq!(trim_once("\"\"x\"\"", '"'), "\"x\"");
}

#[test]
fn to_ascii_lower_changes_capitals_only() {
    assert_eq!(to_ascii_lower('A'), 'a');
    assert_eq!(to_ascii_lower('Z'), 'z');
    assert_eq!(to_ascii_lower('m'), 'm');
    assert_eq!(to_ascii_lower('@'), '@');
    assert_eq!(to_ascii_lower('['), '[');
    assert_eq!(to_ascii_lower('\u{c9}'), '\u{c9}');
}

#[test]
fn eq_ignore_ascii_case_sets_case_aside() {
    assert!(eq_ignore_ascii_case("Broadcast", "broadcast"));
    assert!(eq_ignore_ascii_case("BROADCAST", "bRoAdCaSt"));
    assert!(eq_ignore_ascii_case("", ""));
    assert!(!eq_ignore_ascii_case("broadcas", "broadcast"));
    assert!(!eq_ignore_ascii_case("broadcast ", "broadcast"));
    assert!(!eq_ignore_ascii_case("broadcasT", "broadcasd"));
}

#[test]
fn to_decimal_writes_the_digits() {
    assert_eq!(to_decimal(0), "0");
    assert_eq!(to_decimal(7), "7");
    assert_eq!(to_decimal(10), "10");
    assert_eq!(to_decimal(204), "204");
    assert_eq!(to_decimal(500), "500");
    assert_eq!(to_decimal(65535), "65535");
}
