use typtaps::tree::{toggle_dir_recursive, update_dir_children_recursive, TreeEntry};

fn file(path: &str, name: &str) -> TreeEntry {
    TreeEntry::File { path: path.to_string(), name: name.to_string() }
}

fn dir(path: &str, name: &str, expanded: bool, children: Vec<TreeEntry>) -> TreeEntry {
    TreeEntry::Directory {
        path: path.to_string(),
        name: name.to_string(),
        is_expanded: expanded,
        children,
    }
}

fn sample_tree() -> Vec<TreeEntry> {
    vec![
        dir(
            "/r/a",
            "a",
            true,
            vec![dir("/r/a/sub", "sub", false, vec![]), file("/r/a/x.typ", "x.typ")],
        ),
        dir("/r/b", "b", false, vec![]),
        file("/r/top.typ", "top.typ"),
    ]
}

#[test]
fn toggle_flips_expanded() {
    let mut tree = sample_tree();
    let mut needs = false;
    toggle_dir_recursive(&mut tree, &"/r/a".to_string(), &mut needs);
    match &tree[0] {
        TreeEntry::Directory { is_expanded, .. } => assert!(!is_expanded),
        _ => panic!("expected a directory"),
    }
    // Collapsing loses nothing: the children stay for the next expansion.
    assert!(!needs);
}

#[test]
fn toggle_expanding_empty_dir_needs_load() {
    let mut tree = sample_tree();
    let mut needs = false;
    toggle_dir_recursive(&mut tree, &"/r/b".to_string(), &mut needs);
    assert!(needs);
    match &tree[1] {
        TreeEntry::Directory { is_expanded, children, .. } => {
            assert!(is_expanded);
            assert!(children.is_empty());
        }
        _ => panic!("expected a directory"),
    }
}

#[test]
fn toggle_nested_directory() {
    let mut tree = sample_tree();
    let mut needs = false;
    toggle_dir_recursive(&mut tree, &"/r/a/sub".to_string(), &mut needs);
    assert!(needs);
    match &tree[0] {
        TreeEntry::Directory { children, .. } => match &children[0] {
            TreeEntry::Directory { is_expanded, .. } => assert!(is_expanded),
            _ => panic!("expected a directory"),
        },
        _ => panic!("expected a directory"),
    }
}

#[test]
fn toggle_absent_path_is_noop() {
    let mut tree = sample_tree();
    let before = sample_tree();
    let mut needs = false;
    toggle_dir_recursive(&mut tree, &"/nowhere".to_string(), &mut needs);
    assert_eq!(tree, before);
    assert!(!needs);
}

#[test]
fn toggle_file_path_is_noop() {
    // A file's path is never toggled: only directories count.
    let mut tree = sample_tree();
    let before = sample_tree();
    let mut needs = false;
    toggle_dir_recursive(&mut tree, &"/r/top.typ".to_string(), &mut needs);
    assert_eq!(tree, before);
    assert!(!needs);
}

#[test]
fn toggle_twice_restores_tree() {
    let mut tree = sample_tree();
    let before = sample_tree();
    let mut needs = false;
    toggle_dir_recursive(&mut tree, &"/r/a/sub".to_string(), &mut needs);
    toggle_dir_recursive(&mut tree, &"/r/a/sub".to_string(), &mut needs);
    assert_eq!(tree, before);
}

#[test]
fn toggle_expanding_loaded_dir_needs_no_load() {
    // Collapse /r/a (whose children are loaded), then expand it again:
    // the children are still there, so no load is requested.
    let mut tree = sample_tree();
    let mut needs = false;
    toggle_dir_recursive(&mut tree, &"/r/a".to_string(), &mut needs);
    toggle_dir_recursive(&mut tree, &"/r/a".to_string(), &mut needs);
    assert!(!needs);
    match &tree[0] {
        TreeEntry::Directory { is_expanded, children, .. } => {
            assert!(is_expanded);
            assert_eq!(children.len(), 2);
        }
        _ => panic!("expected a directory"),
    }
}

#[test]
fn toggle_keeps_flag_once_set() {
    // The needs-load flag is only ever raised, as the dispatcher expects.
    let mut tree = sample_tree();
    let mut needs = true;
    toggle_dir_recursive(&mut tree, &"/r/a".to_string(), &mut needs);
    assert!(needs);
}

#[test]
fn replace_children_on_empty_tree_takes_new_children() {
    let mut tree: Vec<TreeEntry> = vec![];
    let new_children = vec![file("/r/one.typ", "one.typ"), dir("/r/d", "d", false, vec![])];
    let expected = vec![file("/r/one.typ", "one.typ"), dir("/r/d", "d", false, vec![])];
    update_dir_children_recursive(&mut tree, &"/whatever".to_string(), new_children);
    assert_eq!(tree, expected);
}

#[test]
fn replace_children_of_target_directory() {
    let mut tree = sample_tree();
    let new_children = vec![file("/r/b/n.typ", "n.typ")];
    update_dir_children_recursive(&mut tree, &"/r/b".to_string(), new_children);
    match &tree[1] {
        TreeEntry::Directory { children, .. } => {
            assert_eq!(children.len(), 1);
            assert_eq!(children[0], file("/r/b/n.typ", "n.typ"));
        }
        _ => panic!("expected a directory"),
    }
}

#[test]
fn replace_children_nested_target() {
    let mut tree = sample_tree();
    let new_children = vec![file("/r/a/sub/z.typ", "z.typ")];
    update_dir_children_recursive(&mut tree, &"/r/a/sub".to_string(), new_children);
    match &tree[0] {
        TreeEntry::Directory { children, .. } => match &children[0] {
            TreeEntry::Directory { children: inner, .. } => {
                assert_eq!(inner.len(), 1);
            }
            _ => panic!("expected a directory"),
        },
        _ => panic!("expected a directory"),
    }
}

#[test]
fn replace_children_absent_target_is_noop() {
    let mut tree = sample_tree();
    let before = sample_tree();
    update_dir_children_recursive(&mut tree, &"/nowhere".to_string(), vec![file("/x", "x")]);
    assert_eq!(tree, before);
}

#[test]
fn entry_name_and_path() {
    let f = file("/r/top.typ", "top.typ");
    assert_eq!(f.name(), "top.typ");
    assert_eq!(f.path(), "/r/top.typ");
    let d = dir("/r/a", "a", false, vec![]);
    assert_eq!(d.name(), "a");
    assert_eq!(d.path(), "/r/a");
}
