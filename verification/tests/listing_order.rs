use typtaps::listing::{load_listing, sort_entries, RawEntry};
use typtaps::tree::TreeEntry;

fn raw(path: &str, name: &str, is_dir: bool) -> RawEntry {
    RawEntry { path: path.to_string(), name: name.to_string(), is_dir }
}

fn names(entries: &[TreeEntry]) -> Vec<String> {
    entries.iter().map(|e| e.name().clone()).collect()
}

#[test]
fn listing_puts_directories_first_case_insensitively() {
    let out = load_listing(vec![
        raw("/r/Zebra.txt", "Zebra.txt", false),
        raw("/r/apple.txt", "apple.txt", false),
        raw("/r/src", "src", true),
        raw("/r/Docs", "Docs", true),
    ]);
    // Directories in case-insensitive order, then files in
    // case-insensitive order; "apple" before "Zebra" shows the
    // comparison folds case (byte order would put 'Z' first).
    assert_eq!(names(&out), vec!["Docs", "src", "apple.txt", "Zebra.txt"]);
}

#[test]
fn listing_directories_are_unexpanded() {
    let out = load_listing(vec![raw("/r/d", "d", true)]);
    match &out[0] {
        TreeEntry::Directory { is_expanded, children, .. } => {
            assert!(!is_expanded);
            assert!(children.is_empty());
        }
        _ => panic!("expected a directory"),
    }
}

#[test]
fn listing_empty_input() {
    let out = load_listing(vec![]);
    assert!(out.is_empty());
}

#[test]
fn listing_keeps_every_entry() {
    let out = load_listing(vec![
        raw("/r/b.txt", "b.txt", false),
        raw("/r/A.txt", "A.txt", false),
        raw("/r/a.txt", "a.txt", false),
    ]);
    assert_eq!(out.len(), 3);
    let mut got = names(&out);
    got.sort();
    assert_eq!(got, vec!["A.txt", "a.txt", "b.txt"]);
}

#[test]
fn sort_entries_orders_mixed_case_names() {
    let entries = vec![
        TreeEntry::File { path: "/r/b".to_string(), name: "Banana".to_string() },
        TreeEntry::File { path: "/r/a".to_string(), name: "cherry".to_string() },
        TreeEntry::File { path: "/r/c".to_string(), name: "Apple".to_string() },
    ];
    let out = sort_entries(entries);
    assert_eq!(names(&out), vec!["Apple", "Banana", "cherry"]);
}
