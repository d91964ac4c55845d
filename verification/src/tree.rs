//! The file tree: a lazily loaded, mutable tree of filesystem entries.
//!
//! Every mutation goes through two operations, both keyed by path identity:
//! toggling a directory's expanded flag, and replacing a directory's
//! children wholesale. Both search depth-first and stop at the first match;
//! when the path is absent the tree is left unchanged.

use vstd::prelude::*;

verus! {

/// One entry of the file tree.
#[derive(Debug, PartialEq)]
pub enum TreeEntry {
    File { path: String, name: String },
    Directory { path: String, name: String, is_expanded: bool, children: Vec<TreeEntry> },
}

/// The mathematical model of an entry: the same shape over `Seq`.
#[verifier::ext_equal]
pub enum EntryView {
    File { path: Seq<char>, name: Seq<char> },
    Directory { path: Seq<char>, name: Seq<char>, expanded: bool, children: Seq<EntryView> },
}

/// The model of one entry.
pub open spec fn entry_view(e: TreeEntry) -> EntryView
    decreases e,
{
    match e {
        TreeEntry::File { path, name } => EntryView::File { path: path@, name: name@ },
        TreeEntry::Directory { path, name, is_expanded, children } => EntryView::Directory {
            path: path@,
            name: name@,
            expanded: is_expanded,
            children: entries_view(children@),
        },
    }
}

/// The model of a sibling list.
pub open spec fn entries_view(s: Seq<TreeEntry>) -> Seq<EntryView>
    decreases s,
{
    if s.len() == 0 {
        Seq::empty()
    } else {
        seq![entry_view(s[0])] + entries_view(s.drop_first())
    }
}

/// The model of a sibling list is the list of the models, index by index.
pub proof fn lemma_entries_view(s: Seq<TreeEntry>)
    ensures
        entries_view(s).len() == s.len(),
        forall|i: int| 0 <= i < s.len() ==> entries_view(s)[i] == entry_view(s[i]),
    decreases s,
{
    if s.len() > 0 {
        lemma_entries_view(s.drop_first());
    }
}

impl View for TreeEntry {
    type V = EntryView;

    open spec fn view(&self) -> EntryView {
        entry_view(*self)
    }
}

impl EntryView {
    /// The path of an entry, its identity key.
    pub open spec fn path(self) -> Seq<char> {
        match self {
            EntryView::File { path, .. } => path,
            EntryView::Directory { path, .. } => path,
        }
    }

    /// The displayed name of an entry.
    pub open spec fn name(self) -> Seq<char> {
        match self {
            EntryView::File { name, .. } => name,
            EntryView::Directory { name, .. } => name,
        }
    }

    pub open spec fn is_dir(self) -> bool {
        self is Directory
    }
}

impl TreeEntry {
    /// The displayed name of an entry.
    pub fn name(&self) -> (r: &String)
        ensures
            r@ == self@.name(),
    {
        match self {
            TreeEntry::File { name, .. } => name,
            TreeEntry::Directory { name, .. } => name,
        }
    }

    /// The path of an entry, its identity key.
    pub fn path(&self) -> (r: &String)
        ensures
            r@ == self@.path(),
    {
        match self {
            TreeEntry::File { path, .. } => path,
            TreeEntry::Directory { path, .. } => path,
        }
    }
}

/// Whether some directory in the subtree of `e` has path `target`.
pub open spec fn entry_contains_dir(e: EntryView, target: Seq<char>) -> bool
    decreases e,
{
    match e {
        EntryView::File { .. } => false,
        EntryView::Directory { path, children, .. } => path == target || contains_dir(
            children,
            target,
        ),
    }
}

/// Whether some directory in the forest `s` has path `target`.
pub open spec fn contains_dir(s: Seq<EntryView>, target: Seq<char>) -> bool
    decreases s,
{
    if s.len() == 0 {
        false
    } else {
        entry_contains_dir(s[0], target) || contains_dir(s.drop_first(), target)
    }
}

/// The result of toggling within one entry: the new entry, whether the
/// target directory was found here, and whether it now needs its first
/// load (it became expanded while its children were never loaded).
pub open spec fn toggle_entry_spec(e: EntryView, target: Seq<char>) -> (EntryView, bool, bool)
    decreases e,
{
    match e {
        EntryView::File { .. } => (e, false, false),
        EntryView::Directory { path, name, expanded, children } => {
            if path == target {
                (
                    EntryView::Directory { path, name, expanded: !expanded, children },
                    true,
                    !expanded && children.len() == 0,
                )
            } else {
                let r = toggle_entries_spec(children, target);
                (EntryView::Directory { path, name, expanded, children: r.0 }, r.1, r.2)
            }
        },
    }
}

/// Depth-first toggle over a forest: the first entry whose subtree holds
/// the target is rewritten, everything after it is untouched.
pub open spec fn toggle_entries_spec(s: Seq<EntryView>, target: Seq<char>) -> (
    Seq<EntryView>,
    bool,
    bool,
)
    decreases s,
{
    if s.len() == 0 {
        (s, false, false)
    } else {
        let first = toggle_entry_spec(s[0], target);
        if first.1 {
            (seq![first.0] + s.drop_first(), true, first.2)
        } else {
            let rest = toggle_entries_spec(s.drop_first(), target);
            (seq![first.0] + rest.0, rest.1, rest.2)
        }
    }
}

fn toggle_entry(e: TreeEntry, target: &String) -> (r: (TreeEntry, bool, bool))
    ensures
        (r.0@, r.1, r.2) == toggle_entry_spec(e@, target@),
    decreases e,
{
    match e {
        TreeEntry::File { path, name } => (TreeEntry::File { path, name }, false, false),
        TreeEntry::Directory { path, name, is_expanded, children } => {
            if path == *target {
                let needs = !is_expanded && children.len() == 0;
                (
                    TreeEntry::Directory { path, name, is_expanded: !is_expanded, children },
                    true,
                    needs,
                )
            } else {
                let r = toggle_entries(children, target);
                (TreeEntry::Directory { path, name, is_expanded, children: r.0 }, r.1, r.2)
            }
        },
    }
}

fn toggle_entries(entries: Vec<TreeEntry>, target: &String) -> (r: (Vec<TreeEntry>, bool, bool))
    ensures
        (entries_view(r.0@), r.1, r.2) == toggle_entries_spec(entries_view(entries@), target@),
    decreases entries@,
{
    let mut rem = entries;
    if rem.len() == 0 {
        proof {
            assert(entries_view(rem@) =~= Seq::<EntryView>::empty());
        }
        return (rem, false, false);
    }
    let e = rem.remove(0);
    proof {
        lemma_entries_view(entries@);
        lemma_entries_view(rem@);
        assert(rem@ =~= entries@.drop_first());
        assert(entries_view(rem@) =~= entries_view(entries@).drop_first());
        assert(e@ == entries_view(entries@)[0]);
    }
    let r = toggle_entry(e, target);
    let (e2, f, n) = r;
    if f {
        let mut res = rem;
        res.insert(0, e2);
        proof {
            lemma_entries_view(res@);
            lemma_entries_view(rem@);
            assert(entries_view(res@) =~= seq![e2@] + entries_view(entries@).drop_first());
        }
        (res, true, n)
    } else {
        let rec = toggle_entries(rem, target);
        let (mut res, f2, n2) = rec;
        res.insert(0, e2);
        proof {
            lemma_entries_view(res@);
            lemma_entries_view(rec.0@);
            assert(entries_view(res@) =~= seq![e2@] + entries_view(rec.0@));
        }
        (res, f2, n2)
    }
}

/// A toggle that finds nothing in an entry's subtree changes nothing there.
pub proof fn lemma_toggle_not_found_entry(e: EntryView, target: Seq<char>)
    requires
        !toggle_entry_spec(e, target).1,
    ensures
        toggle_entry_spec(e, target).0 == e,
        !toggle_entry_spec(e, target).2,
    decreases e,
{
    match e {
        EntryView::File { .. } => {},
        EntryView::Directory { children, .. } => {
            lemma_toggle_not_found(children, target);
        },
    }
}

/// A toggle that finds nothing in a forest changes nothing there.
pub proof fn lemma_toggle_not_found(s: Seq<EntryView>, target: Seq<char>)
    requires
        !toggle_entries_spec(s, target).1,
    ensures
        toggle_entries_spec(s, target).0 == s,
        !toggle_entries_spec(s, target).2,
    decreases s,
{
    if s.len() > 0 {
        lemma_toggle_not_found_entry(s[0], target);
        lemma_toggle_not_found(s.drop_first(), target);
        assert(toggle_entries_spec(s, target).0 =~= s);
    }
}

/// Toggling finds the target exactly when some directory of the forest
/// carries that path.
pub proof fn lemma_toggle_found_iff_contains_entry(e: EntryView, target: Seq<char>)
    ensures
        toggle_entry_spec(e, target).1 == entry_contains_dir(e, target),
    decreases e,
{
    match e {
        EntryView::File { .. } => {},
        EntryView::Directory { children, .. } => {
            lemma_toggle_found_iff_contains(children, target);
        },
    }
}

/// See [`lemma_toggle_found_iff_contains_entry`].
pub proof fn lemma_toggle_found_iff_contains(s: Seq<EntryView>, target: Seq<char>)
    ensures
        toggle_entries_spec(s, target).1 == contains_dir(s, target),
    decreases s,
{
    if s.len() > 0 {
        lemma_toggle_found_iff_contains_entry(s[0], target);
        lemma_toggle_found_iff_contains(s.drop_first(), target);
    }
}

/// Toggling a path that no directory of the tree carries leaves the tree
/// unchanged, deep equality.
pub proof fn lemma_toggle_absent_unchanged(s: Seq<EntryView>, target: Seq<char>)
    requires
        !contains_dir(s, target),
    ensures
        toggle_entries_spec(s, target).0 == s,
        !toggle_entries_spec(s, target).2,
{
    lemma_toggle_found_iff_contains(s, target);
    lemma_toggle_not_found(s, target);
}

/// Toggling the same path twice in an entry restores the entry, so in
/// particular every expanded flag, to its original value.
pub proof fn lemma_toggle_toggle_identity_entry(e: EntryView, target: Seq<char>)
    ensures
        ({
            let once = toggle_entry_spec(e, target);
            let twice = toggle_entry_spec(once.0, target);
            &&& twice.0 == e
            &&& twice.1 == once.1
        }),
    decreases e,
{
    match e {
        EntryView::File { .. } => {},
        EntryView::Directory { path, children, .. } => {
            if path == target {
            } else {
                lemma_toggle_toggle_identity(children, target);
            }
        },
    }
}

/// Toggling the same path twice in a forest restores it, deep equality.
pub proof fn lemma_toggle_toggle_identity(s: Seq<EntryView>, target: Seq<char>)
    ensures
        ({
            let once = toggle_entries_spec(s, target);
            let twice = toggle_entries_spec(once.0, target);
            &&& twice.0 == s
            &&& twice.1 == once.1
        }),
    decreases s,
{
    if s.len() > 0 {
        let first = toggle_entry_spec(s[0], target);
        lemma_toggle_toggle_identity_entry(s[0], target);
        if first.1 {
            let s1 = seq![first.0] + s.drop_first();
            assert(s1[0] == first.0);
            assert(s1.drop_first() =~= s.drop_first());
            let again = toggle_entry_spec(first.0, target);
            assert(toggle_entries_spec(s1, target).0 =~= seq![again.0] + s1.drop_first());
            assert(toggle_entries_spec(s1, target).0 =~= s);
        } else {
            lemma_toggle_not_found_entry(s[0], target);
            let rest = toggle_entries_spec(s.drop_first(), target);
            lemma_toggle_toggle_identity(s.drop_first(), target);
            let s1 = seq![s[0]] + rest.0;
            assert(toggle_entries_spec(s, target).0 =~= s1);
            assert(s1[0] == s[0]);
            assert(s1.drop_first() =~= rest.0);
            assert(toggle_entries_spec(s1, target).0 =~= seq![s[0]] + toggle_entries_spec(
                rest.0,
                target,
            ).0);
            assert(toggle_entries_spec(s1, target).0 =~= s);
        }
    }
}

/// Replacing in an empty tree hands back exactly the new children: the
/// root bypass case.
pub proof fn lemma_replace_empty_root(target: Seq<char>, nc: Seq<EntryView>)
    ensures
        replace_children_spec(Seq::<EntryView>::empty(), target, nc) == nc,
{
}

fn clone_entry(e: &TreeEntry) -> (r: TreeEntry)
    ensures
        r@ == e@,
    decreases *e,
{
    match e {
        TreeEntry::File { path, name } => TreeEntry::File {
            path: path.clone(),
            name: name.clone(),
        },
        TreeEntry::Directory { path, name, is_expanded, children } => TreeEntry::Directory {
            path: path.clone(),
            name: name.clone(),
            is_expanded: *is_expanded,
            children: clone_entries(children),
        },
    }
}

fn clone_entries(v: &Vec<TreeEntry>) -> (r: Vec<TreeEntry>)
    ensures
        entries_view(r@) == entries_view(v@),
    decreases v@,
{
    let mut r: Vec<TreeEntry> = Vec::new();
    let mut i: usize = 0;
    while i < v.len()
        invariant
            i <= v@.len(),
            r@.len() == i,
            forall|j: int| 0 <= j < i ==> entry_view(r@[j]) == entry_view(v@[j]),
        decreases v@.len() - i,
    {
        let c = clone_entry(&v[i]);
        r.push(c);
        i = i + 1;
    }
    proof {
        lemma_entries_view(r@);
        lemma_entries_view(v@);
        assert(entries_view(r@) =~= entries_view(v@));
    }
    r
}

/// The result of replacing within one entry: the new entry and whether the
/// target directory was found here.
pub open spec fn replace_entry_spec(e: EntryView, target: Seq<char>, nc: Seq<EntryView>) -> (
    EntryView,
    bool,
)
    decreases e,
{
    match e {
        EntryView::File { .. } => (e, false),
        EntryView::Directory { path, name, expanded, children } => {
            if path == target {
                (EntryView::Directory { path, name, expanded, children: nc }, true)
            } else {
                let r = replace_entries_spec(children, target, nc);
                (EntryView::Directory { path, name, expanded, children: r.0 }, r.1)
            }
        },
    }
}

/// Depth-first replacement over a forest, first match wins.
pub open spec fn replace_entries_spec(s: Seq<EntryView>, target: Seq<char>, nc: Seq<EntryView>) -> (
    Seq<EntryView>,
    bool,
)
    decreases s,
{
    if s.len() == 0 {
        (s, false)
    } else {
        let first = replace_entry_spec(s[0], target, nc);
        if first.1 {
            (seq![first.0] + s.drop_first(), true)
        } else {
            let rest = replace_entries_spec(s.drop_first(), target, nc);
            (seq![first.0] + rest.0, rest.1)
        }
    }
}

/// What the whole tree becomes: an empty tree takes `nc` as its root
/// sibling list directly; otherwise the target's children are replaced,
/// and an absent target leaves the tree unchanged.
pub open spec fn replace_children_spec(
    s: Seq<EntryView>,
    target: Seq<char>,
    nc: Seq<EntryView>,
) -> Seq<EntryView> {
    if s.len() == 0 {
        nc
    } else {
        replace_entries_spec(s, target, nc).0
    }
}

fn replace_entry(e: TreeEntry, target: &String, nc: &Vec<TreeEntry>) -> (r: (TreeEntry, bool))
    ensures
        (r.0@, r.1) == replace_entry_spec(e@, target@, entries_view(nc@)),
    decreases e,
{
    match e {
        TreeEntry::File { path, name } => (TreeEntry::File { path, name }, false),
        TreeEntry::Directory { path, name, is_expanded, children } => {
            if path == *target {
                (
                    TreeEntry::Directory { path, name, is_expanded, children: clone_entries(nc) },
                    true,
                )
            } else {
                let r = replace_entries(children, target, nc);
                (TreeEntry::Directory { path, name, is_expanded, children: r.0 }, r.1)
            }
        },
    }
}

fn replace_entries(entries: Vec<TreeEntry>, target: &String, nc: &Vec<TreeEntry>) -> (r: (
    Vec<TreeEntry>,
    bool,
))
    ensures
        (entries_view(r.0@), r.1) == replace_entries_spec(
            entries_view(entries@),
            target@,
            entries_view(nc@),
        ),
    decreases entries@,
{
    let mut rem = entries;
    if rem.len() == 0 {
        proof {
            assert(entries_view(rem@) =~= Seq::<EntryView>::empty());
        }
        return (rem, false);
    }
    let e = rem.remove(0);
    proof {
        lemma_entries_view(entries@);
        lemma_entries_view(rem@);
        assert(rem@ =~= entries@.drop_first());
        assert(entries_view(rem@) =~= entries_view(entries@).drop_first());
        assert(e@ == entries_view(entries@)[0]);
    }
    let r = replace_entry(e, target, nc);
    let (e2, f) = r;
    if f {
        let mut res = rem;
        res.insert(0, e2);
        proof {
            lemma_entries_view(res@);
            lemma_entries_view(rem@);
            assert(entries_view(res@) =~= seq![e2@] + entries_view(entries@).drop_first());
        }
        (res, true)
    } else {
        let rec = replace_entries(rem, target, nc);
        let (mut res, f2) = rec;
        res.insert(0, e2);
        proof {
            lemma_entries_view(res@);
            lemma_entries_view(rec.0@);
            assert(entries_view(res@) =~= seq![e2@] + entries_view(rec.0@));
        }
        (res, f2)
    }
}

/// Overwrites the children of the first directory, in depth-first order,
/// whose path equals `target`. An empty tree takes `new_children` as its
/// root sibling list; an absent target leaves the tree unchanged.
pub fn update_dir_children_recursive(
    entries: &mut Vec<TreeEntry>,
    target: &String,
    new_children: Vec<TreeEntry>,
)
    ensures
        entries_view(final(entries)@) == replace_children_spec(
            entries_view(old(entries)@),
            target@,
            entries_view(new_children@),
        ),
{
    let mut nc = new_children;
    if entries.len() == 0 {
        proof {
            assert(entries_view(old(entries)@) =~= Seq::<EntryView>::empty());
        }
        entries.append(&mut nc);
        proof {
            assert(entries@ =~= new_children@);
        }
        return ;
    }
    let mut owned: Vec<TreeEntry> = Vec::new();
    owned.append(entries);
    proof {
        assert(owned@ =~= old(entries)@);
    }
    let r = replace_entries(owned, target, &nc);
    let (mut res, _f) = r;
    entries.append(&mut res);
    proof {
        assert(entries@ =~= r.0@);
    }
}

/// Flips the expanded flag of the first directory, in depth-first order,
/// whose path equals `target`. Sets `found_and_empty` when that directory
/// just became expanded with never-loaded children; a target that is
/// absent leaves the tree unchanged.
pub fn toggle_dir_recursive(
    entries: &mut Vec<TreeEntry>,
    target: &String,
    found_and_empty: &mut bool,
)
    ensures
        ({
            let r = toggle_entries_spec(entries_view(old(entries)@), target@);
            &&& entries_view(final(entries)@) == r.0
            &&& *final(found_and_empty) == (*old(found_and_empty) || r.2)
        }),
{
    let mut owned: Vec<TreeEntry> = Vec::new();
    owned.append(entries);
    proof {
        assert(owned@ =~= old(entries)@);
    }
    let r = toggle_entries(owned, target);
    let (mut res, _f, n) = r;
    entries.append(&mut res);
    proof {
        assert(entries@ =~= r.0@);
    }
    if n {
        *found_and_empty = true;
    }
}

} // verus!
