//! The rows the tree panel shows: a pre-order walk of the file tree that
//! descends only into expanded directories, each visible entry with its
//! nesting depth.

use vstd::prelude::*;
use crate::tree::{entries_view, entry_view, lemma_entries_view, EntryView, TreeEntry};

verus! {

/// One visible row of the tree panel.
pub struct Row {
    pub name: String,
    pub depth: usize,
    pub is_dir: bool,
    pub expanded: bool,
}

/// The model of a row.
#[verifier::ext_equal]
pub struct RowView {
    pub name: Seq<char>,
    pub depth: nat,
    pub is_dir: bool,
    pub expanded: bool,
}

impl View for Row {
    type V = RowView;

    open spec fn view(&self) -> RowView {
        RowView {
            name: self.name@,
            depth: self.depth as nat,
            is_dir: self.is_dir,
            expanded: self.expanded,
        }
    }
}

/// The models of a list of rows.
pub open spec fn rows_view(s: Seq<Row>) -> Seq<RowView>
    decreases s,
{
    if s.len() == 0 {
        Seq::empty()
    } else {
        seq![s[0]@] + rows_view(s.drop_first())
    }
}

/// The model of a row list is the list of the models, index by index.
pub proof fn lemma_rows_view(s: Seq<Row>)
    ensures
        rows_view(s).len() == s.len(),
        forall|i: int| 0 <= i < s.len() ==> rows_view(s)[i] == s[i]@,
    decreases s,
{
    if s.len() > 0 {
        lemma_rows_view(s.drop_first());
    }
}

/// The next nesting depth, held at the machine's bound.
pub open spec fn next_depth(d: nat) -> nat {
    if d < usize::MAX {
        d + 1
    } else {
        d
    }
}

/// The rows one entry contributes: itself, and, for an expanded
/// directory, the rows of its children one level deeper.
pub open spec fn entry_rows(e: EntryView, depth: nat) -> Seq<RowView>
    decreases e,
{
    match e {
        EntryView::File { name, .. } => seq![
            RowView { name, depth, is_dir: false, expanded: false },
        ],
        EntryView::Directory { name, expanded, children, .. } => seq![
            RowView { name, depth, is_dir: true, expanded },
        ] + if expanded {
            forest_rows(children, next_depth(depth))
        } else {
            Seq::empty()
        },
    }
}

/// The rows a sibling list contributes, in order.
pub open spec fn forest_rows(s: Seq<EntryView>, depth: nat) -> Seq<RowView>
    decreases s,
{
    if s.len() == 0 {
        Seq::empty()
    } else {
        entry_rows(s[0], depth) + forest_rows(s.drop_first(), depth)
    }
}

fn push_entry_rows(e: &TreeEntry, depth: usize, out: &mut Vec<Row>)
    ensures
        rows_view(final(out)@) == rows_view(old(out)@) + entry_rows(e@, depth as nat),
    decreases *e,
{
    let ghost before = rows_view(out@);
    match e {
        TreeEntry::File { name, .. } => {
            out.push(Row { name: name.clone(), depth, is_dir: false, expanded: false });
            proof {
                lemma_rows_view(out@);
                lemma_rows_view(old(out)@);
                assert(rows_view(out@) =~= before + entry_rows(e@, depth as nat));
            }
        },
        TreeEntry::Directory { name, is_expanded, children, .. } => {
            out.push(Row { name: name.clone(), depth, is_dir: true, expanded: *is_expanded });
            proof {
                lemma_rows_view(out@);
                lemma_rows_view(old(out)@);
                assert(rows_view(out@) =~= before + seq![
                    RowView {
                        name: name@,
                        depth: depth as nat,
                        is_dir: true,
                        expanded: *is_expanded,
                    },
                ]);
            }
            if *is_expanded {
                let deeper = if depth < usize::MAX {
                    depth + 1
                } else {
                    depth
                };
                push_forest_rows(children, deeper, out);
                proof {
                    assert(rows_view(out@) =~= before + entry_rows(e@, depth as nat));
                }
            } else {
                proof {
                    assert(rows_view(out@) =~= before + entry_rows(e@, depth as nat));
                }
            }
        },
    }
}

fn push_forest_rows(v: &Vec<TreeEntry>, depth: usize, out: &mut Vec<Row>)
    ensures
        rows_view(final(out)@) == rows_view(old(out)@) + forest_rows(
            entries_view(v@),
            depth as nat,
        ),
    decreases v@,
{
    let ghost before = rows_view(out@);
    let mut i: usize = 0;
    proof {
        lemma_entries_view(v@);
        assert(entries_view(v@).skip(0) =~= entries_view(v@));
        assert(rows_view(out@) =~= before + Seq::<RowView>::empty());
    }
    while i < v.len()
        invariant
            i <= v@.len(),
            rows_view(out@) + forest_rows(entries_view(v@).skip(i as int), depth as nat)
                =~= before + forest_rows(entries_view(v@), depth as nat),
        decreases v@.len() - i,
    {
        proof {
            lemma_entries_view(v@);
            let rest = entries_view(v@).skip(i as int);
            assert(rest[0] == entry_view(v@[i as int]));
            assert(rest.drop_first() =~= entries_view(v@).skip(i + 1));
            assert(forest_rows(rest, depth as nat) =~= entry_rows(
                entry_view(v@[i as int]),
                depth as nat,
            ) + forest_rows(entries_view(v@).skip(i + 1), depth as nat));
        }
        push_entry_rows(&v[i], depth, out);
        i = i + 1;
    }
    proof {
        assert(entries_view(v@).skip(i as int).len() == 0) by {
            lemma_entries_view(v@);
        }
        assert(forest_rows(entries_view(v@).skip(i as int), depth as nat) =~= Seq::<
            RowView,
        >::empty());
        assert(rows_view(out@) =~= before + forest_rows(entries_view(v@), depth as nat));
    }
}

/// Walks the tree in display order: every root entry, and under each
/// expanded directory its children, one level deeper. Collapsed
/// directories hide their whole subtree.
pub fn tree_rows(tree: &Vec<TreeEntry>) -> (r: Vec<Row>)
    ensures
        rows_view(r@) == forest_rows(entries_view(tree@), 0),
{
    let mut out: Vec<Row> = Vec::new();
    proof {
        assert(rows_view(out@) =~= Seq::<RowView>::empty());
    }
    push_forest_rows(tree, 0, &mut out);
    out
}

} // verus!
