use tmdb_easy::casing::Case;
use tmdb_easy::search::to_signed_decimal;
use tmdb_easy::text::{
    chars_of, contains, replace_char, same_text, starts_with, string_of, strip_prefix, substitute,
    to_decimal,
};

#[test]
fn characters_round_trip() {
    let chars = chars_of("a\u{e9}b");
    assert_eq!(chars, vec!['a', '\u{e9}', 'b']);
    assert_eq!(string_of(&chars, 0, 3), "a\u{e9}b");
    assert_eq!(string_of(&chars, 1, 2), "\u{e9}");
    assert_eq!(string_of(&chars, 2, 2), "");
}

#[test]
fn texts_are_compared_by_their_characters() {
    assert!(same_text("type", "type"));
    assert!(!same_text("type", "types"));
    assert!(same_text("", ""));
}

#[test]
fn every_occurrence_of_a_character_is_replaced() {
    assert_eq!(replace_char("release_date.gte", '.', '_'), "release_date_gte");
    assert_eq!(replace_char("..", '.', '_'), "__");
    assert_eq!(replace_char("plain", '.', '_'), "plain");
    assert_eq!(replace_char("", '.', '_'), "");
}

#[test]
fn occurrences_are_replaced_from_the_left_without_overlap() {
    assert_eq!(substitute("/3/movie/{id}/x/{id}", "{id}", "{movie_id}"), "/3/movie/{movie_id}/x/{movie_id}");
    assert_eq!(substitute("aaaa", "aa", "b"), "bb");
    assert_eq!(substitute("aaa", "aa", "b"), "ba");
    assert_eq!(substitute("abc", "abcd", "x"), "abc");
    assert_eq!(substitute("abc", "", "x"), "abc");
    assert_eq!(substitute("", "a", "x"), "");
    assert_eq!(substitute("abc", "c", ""), "ab");
}

#[test]
fn patterns_are_found_anywhere() {
    assert!(contains("Option<&str>", "&str"));
    assert!(contains("&str", "&str"));
    assert!(!contains("Option<&[String]>", "&str"));
    assert!(!contains("st", "&str"));
    assert!(contains("anything", ""));
    assert!(contains("", ""));
}

#[test]
fn prefixes_are_found_at_the_start_only() {
    assert!(starts_with("404", "40"));
    assert!(!starts_with("140", "40"));
    assert!(!starts_with("4", "40"));
    assert!(starts_with("40", ""));
}

#[test]
fn leading_character_is_stripped() {
    assert_eq!(strip_prefix("&str", '&'), Some("str".to_string()));
    assert_eq!(strip_prefix("&", '&'), Some(String::new()));
    assert_eq!(strip_prefix("i64", '&'), None);
    assert_eq!(strip_prefix("", '&'), None);
}

#[test]
fn numbers_are_written_in_decimal() {
    assert_eq!(to_decimal(0), "0");
    assert_eq!(to_decimal(7), "7");
    assert_eq!(to_decimal(10), "10");
    assert_eq!(to_decimal(2024), "2024");
    assert_eq!(to_decimal(u64::MAX), "18446744073709551615");
    assert_eq!(to_signed_decimal(0), "0");
    assert_eq!(to_signed_decimal(-1), "-1");
    assert_eq!(to_signed_decimal(42), "42");
    assert_eq!(to_signed_decimal(i64::MIN), "-9223372036854775808");
    assert_eq!(to_signed_decimal(i64::MAX), "9223372036854775807");
}

#[test]
fn cases_are_told_apart() {
    assert_ne!(Case::Pascal, Case::Snake);
}
