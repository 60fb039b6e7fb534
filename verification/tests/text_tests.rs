use vaultchat::text::{
    contains_text, copy_texts, fewer_bytes_than, is_blank, normalize_string, same_text,
    trim,
};

#[test]
fn trim_removes_surrounding_whitespace() {
    assert_eq!(trim("  hello world \t\n"), "hello world");
    assert_eq!(trim("\u{3000}x\u{00A0}"), "x");
    assert_eq!(trim("inner  space"), "inner  space");
    assert_eq!(trim(""), "");
    assert_eq!(trim(" \t "), "");
}

#[test]
fn blank_texts() {
    assert!(is_blank(""));
    assert!(is_blank("   \n\t"));
    assert!(!is_blank(" a "));
}

#[test]
fn contains_finds_runs() {
    assert!(contains_text("myvaultchatpass", "vaultchat"));
    assert!(!contains_text("vaultcha", "vaultchat"));
    assert!(contains_text("abc", ""));
    assert!(contains_text("abc", "abc"));
    assert!(!contains_text("", "a"));
    assert!(contains_text("aab", "ab"));
}

#[test]
fn same_text_compares_characters() {
    assert!(same_text("abc", "abc"));
    assert!(!same_text("abc", "abd"));
    assert!(!same_text("abc", "ab"));
    assert!(same_text("", ""));
}

#[test]
fn normalization_composes() {
    assert_eq!(normalize_string("e\u{301}"), "\u{e9}");
    assert_eq!(normalize_string("plain"), "plain");
}

#[test]
fn byte_length_counts_utf8() {
    assert!(fewer_bytes_than("abc", 4));
    assert!(!fewer_bytes_than("abcd", 4));
    // "é" takes two bytes.
    assert!(!fewer_bytes_than("éé", 4));
    assert!(fewer_bytes_than("éé", 5));
}

#[test]
fn copies_are_equal() {
    let v = vec!["a".to_string(), "b".to_string()];
    assert_eq!(copy_texts(&v), v);
}
