use typtaps::paths::{format_u64, page_artifact_name, stem, with_extension};
use typtaps::text::{lex_le_str, lowercase, str_eq};
use typtaps::utils::get_icons;

#[test]
fn stem_strips_extension() {
    assert_eq!(stem("/tmp/doc.typ"), "doc");
}

#[test]
fn stem_without_extension() {
    assert_eq!(stem("/tmp/doc"), "doc");
}

#[test]
fn stem_keeps_inner_dots() {
    assert_eq!(stem("/tmp/a.b.typ"), "a.b");
}

#[test]
fn stem_of_hidden_file() {
    assert_eq!(stem("/home/u/.bashrc"), ".bashrc");
}

#[test]
fn with_extension_replaces() {
    assert_eq!(with_extension("/tmp/doc.typ", "pdf"), "/tmp/doc.pdf");
}

#[test]
fn with_extension_appends_when_none() {
    assert_eq!(with_extension("/tmp/doc", "pdf"), "/tmp/doc.pdf");
}

#[test]
fn with_extension_ignores_dot_in_directory() {
    assert_eq!(with_extension("/tmp/v1.2/doc", "pdf"), "/tmp/v1.2/doc.pdf");
}

#[test]
fn format_small_and_large_numbers() {
    assert_eq!(format_u64(0), "0");
    assert_eq!(format_u64(7), "7");
    assert_eq!(format_u64(10), "10");
    assert_eq!(format_u64(123), "123");
    assert_eq!(format_u64(1000), "1000");
    assert_eq!(format_u64(u64::MAX), "18446744073709551615");
}

#[test]
fn numbered_artifact_names() {
    assert_eq!(page_artifact_name("doc", 1, "svg"), "doc-1.svg");
    assert_eq!(page_artifact_name("doc", 12, "png"), "doc-12.png");
}

#[test]
fn string_equality_by_characters() {
    assert!(str_eq("abc", "abc"));
    assert!(!str_eq("abc", "abd"));
    assert!(!str_eq("abc", "ab"));
    assert!(str_eq("", ""));
}

#[test]
fn lowercase_folds_case() {
    // Exercises the trusted case-folding call: handing the argument back
    // unchanged would fail here.
    assert_eq!(lowercase("ZeBra"), "zebra");
    assert_eq!(lowercase(""), "");
}

#[test]
fn lexicographic_string_order() {
    assert!(lex_le_str("apple", "banana"));
    assert!(!lex_le_str("banana", "apple"));
    assert!(lex_le_str("app", "apple"));
    assert!(lex_le_str("same", "same"));
}

#[test]
fn icons_by_extension() {
    assert_eq!(get_icons("png").1, "🖼️");
    assert_eq!(get_icons("typ").1, "📄");
    assert_eq!(get_icons("rs").1, "🦀");
    assert_eq!(get_icons("md").1, "📝");
    assert_eq!(get_icons("weird").1, "🔹");
    assert_eq!(get_icons("typ").0, "📄");
}
