//! One directory level as the tree shows it: entries classified as files
//! or directories, directories first, each group in case-insensitive name
//! order.

use vstd::prelude::*;
use vstd::multiset::Multiset;
use vstd::seq_lib::lemma_multiset_commutative;
use crate::text::{lex_le, lemma_lex_le_total, lemma_lex_le_trans, lex_le_str, lower_of, lowercase};
use crate::tree::{entries_view, entry_view, lemma_entries_view, EntryView, TreeEntry};

verus! {

/// What one filesystem read of a directory hands the library for a single
/// child: its full path, its bare name, and whether it is a directory.
pub struct RawEntry {
    pub path: String,
    pub name: String,
    pub is_dir: bool,
}

/// The unexpanded tree entry a raw child becomes: directories start
/// collapsed with never-loaded children.
pub open spec fn raw_entry_view(r: RawEntry) -> EntryView {
    if r.is_dir {
        EntryView::Directory {
            path: r.path@,
            name: r.name@,
            expanded: false,
            children: Seq::empty(),
        }
    } else {
        EntryView::File { path: r.path@, name: r.name@ }
    }
}

/// The models of a list of raw children.
pub open spec fn raws_view(s: Seq<RawEntry>) -> Seq<EntryView>
    decreases s,
{
    if s.len() == 0 {
        Seq::empty()
    } else {
        seq![raw_entry_view(s[0])] + raws_view(s.drop_first())
    }
}

/// The listing order: every directory before every file, and inside each
/// group case-insensitive lexicographic order by name.
pub open spec fn listing_le(a: EntryView, b: EntryView) -> bool {
    if a.is_dir() && !b.is_dir() {
        true
    } else if !a.is_dir() && b.is_dir() {
        false
    } else {
        lex_le(lower_of(a.name()), lower_of(b.name()))
    }
}

/// Any two entries are comparable in the listing order.
pub proof fn lemma_listing_le_total(a: EntryView, b: EntryView)
    ensures
        listing_le(a, b) || listing_le(b, a),
{
    lemma_lex_le_total(lower_of(a.name()), lower_of(b.name()));
}

/// The listing order is transitive.
pub proof fn lemma_listing_le_trans(a: EntryView, b: EntryView, c: EntryView)
    requires
        listing_le(a, b),
        listing_le(b, c),
    ensures
        listing_le(a, c),
{
    if a.is_dir() == b.is_dir() && b.is_dir() == c.is_dir() {
        lemma_lex_le_trans(
            lower_of(a.name()),
            lower_of(b.name()),
            lower_of(c.name()),
        );
    }
}

/// A sibling list in listing order: directories, case-insensitively by
/// name, before files, case-insensitively by name.
pub open spec fn sorted_listing(s: Seq<EntryView>) -> bool {
    forall|i: int, j: int| 0 <= i < j < s.len() ==> listing_le(s[i], s[j])
}

fn listing_le_fn(a: &TreeEntry, b: &TreeEntry) -> (r: bool)
    ensures
        r == listing_le(a@, b@),
{
    let a_dir = matches!(a, TreeEntry::Directory { .. });
    let b_dir = matches!(b, TreeEntry::Directory { .. });
    if a_dir && !b_dir {
        true
    } else if !a_dir && b_dir {
        false
    } else {
        let la = lowercase(a.name().as_str());
        let lb = lowercase(b.name().as_str());
        lex_le_str(la.as_str(), lb.as_str())
    }
}

fn find_insert_pos(v: &Vec<TreeEntry>, e: &TreeEntry) -> (idx: usize)
    ensures
        idx <= v@.len(),
        forall|m: int| 0 <= m < idx ==> listing_le(entry_view(v@[m]), e@),
        idx < v@.len() ==> !listing_le(entry_view(v@[idx as int]), e@),
{
    let mut idx: usize = 0;
    while idx < v.len()
        invariant
            idx <= v@.len(),
            forall|m: int| 0 <= m < idx ==> listing_le(entry_view(v@[m]), e@),
        decreases v@.len() - idx,
    {
        if !listing_le_fn(&v[idx], e) {
            return idx;
        }
        idx = idx + 1;
    }
    idx
}

fn insert_sorted(v: Vec<TreeEntry>, e: TreeEntry) -> (r: Vec<TreeEntry>)
    requires
        sorted_listing(entries_view(v@)),
    ensures
        sorted_listing(entries_view(r@)),
        entries_view(r@).to_multiset() == entries_view(v@).to_multiset().insert(e@),
{
    broadcast use vstd::seq_lib::group_to_multiset_ensures;
    broadcast use vstd::multiset::group_multiset_axioms;

    let idx = find_insert_pos(&v, &e);
    let ghost s = entries_view(v@);
    let mut r = v;
    r.insert(idx, e);
    proof {
        lemma_entries_view(v@);
        lemma_entries_view(r@);
        let t = entries_view(r@);
        assert(t =~= s.insert(idx as int, e@));
        // Listing order of the result.
        assert forall|i: int, j: int| 0 <= i < j < t.len() implies listing_le(t[i], t[j]) by {
            if j < idx {
                assert(listing_le(s[i], s[j]));
            } else if i > idx {
                assert(listing_le(s[i - 1], s[j - 1]));
            } else if i < idx && j == idx {
                assert(listing_le(s[i], e@));
            } else if i == idx && idx < s.len() {
                // e comes before the old s[idx], and s is sorted after it.
                lemma_listing_le_total(e@, s[idx as int]);
                if j > idx + 1 {
                    lemma_listing_le_trans(e@, s[idx as int], s[j - 1]);
                }
            } else if i < idx && j > idx {
                assert(listing_le(s[i], s[j - 1]));
            }
        }
        // The result holds the same entries, plus `e`.
        assert(t =~= s.take(idx as int) + (seq![e@] + s.skip(idx as int)));
        assert(s =~= s.take(idx as int) + s.skip(idx as int));
        lemma_multiset_commutative(s.take(idx as int), seq![e@] + s.skip(idx as int));
        lemma_multiset_commutative(seq![e@], s.skip(idx as int));
        lemma_multiset_commutative(s.take(idx as int), s.skip(idx as int));
        assert(seq![e@].to_multiset() =~= Multiset::<EntryView>::empty().insert(e@)) by {
            assert(seq![e@] =~= Seq::<EntryView>::empty().push(e@));
            assert(Seq::<EntryView>::empty().to_multiset() =~= Multiset::<EntryView>::empty());
        }
        assert(t.to_multiset() =~= s.to_multiset().insert(e@));
    }
    r
}

/// Sorts a sibling list into listing order; the result holds exactly the
/// entries given, rearranged.
pub fn sort_entries(entries: Vec<TreeEntry>) -> (r: Vec<TreeEntry>)
    ensures
        sorted_listing(entries_view(r@)),
        entries_view(r@).to_multiset() == entries_view(entries@).to_multiset(),
{
    broadcast use vstd::seq_lib::group_to_multiset_ensures;
    broadcast use vstd::multiset::group_multiset_axioms;

    let mut rem = entries;
    let mut out: Vec<TreeEntry> = Vec::new();
    proof {
        assert(entries_view(out@) =~= Seq::<EntryView>::empty());
        assert(entries_view(out@).to_multiset() =~= Multiset::<EntryView>::empty());
    }
    while rem.len() > 0
        invariant
            sorted_listing(entries_view(out@)),
            entries_view(out@).to_multiset().add(entries_view(rem@).to_multiset())
                =~= entries_view(entries@).to_multiset(),
        decreases rem@.len(),
    {
        broadcast use vstd::seq_lib::group_to_multiset_ensures;
        broadcast use vstd::multiset::group_multiset_axioms;

        let ghost rem0 = entries_view(rem@);
        let e = rem.remove(0);
        proof {
            lemma_entries_view(rem@);
            let ghost rem1 = entries_view(rem@);
            assert(rem1 =~= rem0.drop_first());
            assert(rem0.remove(0) =~= rem0.drop_first());
            assert(rem0.remove(0).to_multiset() =~= rem0.to_multiset().remove(rem0[0]));
            assert(rem0.to_multiset().contains(rem0[0]));
            assert(rem1.to_multiset().insert(e@) =~= rem0.to_multiset());
        }
        out = insert_sorted(out, e);
    }
    proof {
        assert(entries_view(rem@) =~= Seq::<EntryView>::empty());
        assert(entries_view(rem@).to_multiset() =~= Multiset::<EntryView>::empty());
        assert(entries_view(out@).to_multiset() =~= entries_view(entries@).to_multiset());
    }
    out
}

/// Builds the tree entries for one directory level from what a filesystem
/// read found there, in listing order: all directories, case-insensitively
/// by name, before all files, case-insensitively by name.
pub fn load_listing(raw: Vec<RawEntry>) -> (r: Vec<TreeEntry>)
    ensures
        sorted_listing(entries_view(r@)),
        entries_view(r@).to_multiset() == raws_view(raw@).to_multiset(),
{
    broadcast use vstd::seq_lib::group_to_multiset_ensures;

    let mut unsorted: Vec<TreeEntry> = Vec::new();
    let mut i: usize = 0;
    while i < raw.len()
        invariant
            i <= raw@.len(),
            unsorted@.len() == i,
            forall|j: int| 0 <= j < i ==> entry_view(unsorted@[j]) == raw_entry_view(raw@[j]),
        decreases raw@.len() - i,
    {
        let ghost before = unsorted@;
        let re = &raw[i];
        if re.is_dir {
            unsorted.push(
                TreeEntry::Directory {
                    path: re.path.clone(),
                    name: re.name.clone(),
                    is_expanded: false,
                    children: Vec::new(),
                },
            );
        } else {
            unsorted.push(TreeEntry::File { path: re.path.clone(), name: re.name.clone() });
        }
        proof {
            assert(entry_view(unsorted@[i as int]) == raw_entry_view(raw@[i as int]));
        }
        i = i + 1;
    }
    proof {
        lemma_entries_view(unsorted@);
        lemma_raws_view(raw@);
        assert(entries_view(unsorted@) =~= raws_view(raw@));
    }
    sort_entries(unsorted)
}

/// The model of a raw list is the list of the models, index by index.
pub proof fn lemma_raws_view(s: Seq<RawEntry>)
    ensures
        raws_view(s).len() == s.len(),
        forall|i: int| 0 <= i < s.len() ==> raws_view(s)[i] == raw_entry_view(s[i]),
    decreases s,
{
    if s.len() > 0 {
        lemma_raws_view(s.drop_first());
    }
}

} // verus!
