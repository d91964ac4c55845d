use typtaps::outline::tree_rows;
use typtaps::tree::TreeEntry;

fn file(path: &str, name: &str) -> TreeEntry {
    TreeEntry::File { path: path.to_string(), name: name.to_string() }
}

fn dir(path: &str, name: &str, expanded: bool, children: Vec<TreeEntry>) -> TreeEntry {
    TreeEntry::Directory {
        path: path.to_string(),
        name: name.to_string(),
        is_expanded: expanded,
        children,
    }
}

#[test]
fn expanded_directories_show_children_indented() {
    let tree = vec![
        dir(
            "/r/a",
            "a",
            true,
            vec![dir("/r/a/sub", "sub", false, vec![file("/r/a/sub/hidden", "hidden")]), file(
                "/r/a/x.typ",
                "x.typ",
            )],
        ),
        file("/r/top.typ", "top.typ"),
    ];
    let rows = tree_rows(&tree);
    let got: Vec<(String, usize, bool)> = rows
        .iter()
        .map(|r| (r.name.clone(), r.depth, r.is_dir))
        .collect();
    // "hidden" sits under a collapsed directory and does not appear.
    assert_eq!(
        got,
        vec![
            ("a".to_string(), 0, true),
            ("sub".to_string(), 1, true),
            ("x.typ".to_string(), 1, false),
            ("top.typ".to_string(), 0, false),
        ]
    );
}

#[test]
fn collapsed_root_hides_subtree() {
    let tree = vec![dir("/r/a", "a", false, vec![file("/r/a/x", "x")])];
    let rows = tree_rows(&tree);
    assert_eq!(rows.len(), 1);
    assert_eq!(rows[0].name, "a");
    assert!(!rows[0].expanded);
}

#[test]
fn empty_tree_has_no_rows() {
    let rows = tree_rows(&vec![]);
    assert!(rows.is_empty());
}
