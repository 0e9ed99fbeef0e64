use tickethub::like::like_match;
use tickethub::sort::{sort_by_int, sort_by_text};
use tickethub::text::{chars_of, folded_chars, text_le_exec};
use tickethub::time::{recency_key_of, time_of_exec};

fn cs(x: &str) -> Vec<char> {
    chars_of(x)
}

#[test]
fn like_wildcards_and_case() {
    assert!(like_match(&cs("Madison Square Garden"), &cs("%square%")));
    assert!(like_match(&cs("abc"), &cs("a_c")));
    assert!(!like_match(&cs("abbc"), &cs("a_c")));
    assert!(like_match(&cs(""), &cs("%")));
    assert!(like_match(&cs(""), &cs("")));
    assert!(!like_match(&cs("a"), &cs("")));
    assert!(like_match(&cs("ABC"), &cs("abc")));
    assert!(!like_match(&cs("É"), &cs("é")));
    assert!(like_match(&cs("new york"), &cs("%%york")));
    assert!(!like_match(&cs("york"), &cs("%new%")));
}

#[test]
fn text_order_is_by_code_point() {
    assert!(text_le_exec(&cs("2024-01-01"), &cs("2025-01-01")));
    assert!(text_le_exec(&cs("abc"), &cs("abcd")));
    assert!(!text_le_exec(&cs("b"), &cs("abc")));
    assert!(text_le_exec(&cs("Z"), &cs("a")));
    assert!(text_le_exec(&cs("same"), &cs("same")));
}

#[test]
fn sorts_are_stable() {
    let keys = vec![cs("b"), cs("a"), cs("b"), cs("a")];
    assert_eq!(sort_by_text(&keys, false), vec![1, 3, 0, 2]);
    assert_eq!(sort_by_text(&keys, true), vec![0, 2, 1, 3]);
    assert_eq!(sort_by_int(&vec![5, -1, 5, 0]), vec![1, 3, 0, 2]);
    assert!(sort_by_int(&vec![]).is_empty());
}

#[test]
fn times_read_as_seconds() {
    assert_eq!(time_of_exec("2024-01-01T00:00:00"), Some(1704067200));
    assert_eq!(time_of_exec("1970-01-01T00:00:00"), Some(0));
    assert_eq!(time_of_exec("2000-02-29T23:59:59"), Some(951868799));
    assert_eq!(time_of_exec("2023-02-29T00:00:00"), None);
    assert_eq!(time_of_exec("1718000000"), Some(1718000000));
    assert_eq!(time_of_exec("1969-12-31T23:59:59"), None);
    assert_eq!(time_of_exec(""), None);
    assert_eq!(time_of_exec("12a"), None);
    assert_eq!(recency_key_of("1718000000"), -1718000000);
    assert_eq!(recency_key_of("soon"), 1);
}

#[test]
fn names_fold_ascii_case() {
    assert_eq!(folded_chars("SZA Été"), cs("sza Été"));
}
