use cbt::text::{extended, join, same_text};

fn strings(parts: &[&str]) -> Vec<String> {
    parts.iter().map(|p| p.to_string()).collect()
}

#[test]
fn join_of_nothing_is_empty() {
    assert_eq!(join(&strings(&[]), ", "), "");
}

#[test]
fn join_of_one_has_no_separator() {
    assert_eq!(join(&strings(&["a"]), ", "), "a");
}

#[test]
fn join_puts_the_separator_between_neighbours() {
    assert_eq!(join(&strings(&["a", "b", "c"]), ", "), "a, b, c");
    assert_eq!(join(&strings(&["a", "", "c"]), "\n"), "a\n\nc");
    assert_eq!(join(&strings(&["", ""]), "-"), "-");
    assert_eq!(join(&strings(&["x", "y"]), ""), "xy");
}

#[test]
fn same_text_compares_characters() {
    assert!(same_text("i32", "i32"));
    assert!(same_text("", ""));
    assert!(!same_text("i32", "i64"));
    assert!(!same_text("str", "String"));
    assert!(!same_text("a", "ab"));
}

#[test]
fn extended_copies_and_appends() {
    assert_eq!(extended(&strings(&[]), "x".to_string()), strings(&["x"]));
    assert_eq!(extended(&strings(&["a", "b"]), "c".to_string()), strings(&["a", "b", "c"]));
}
