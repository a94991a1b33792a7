//! Directory listings: entry snapshots, the listing order (directories
//! before files, case-insensitive name order) and the visible subset under
//! the hidden-file toggle and the fuzzy filter.

use vstd::prelude::*;
use vstd::seq_lib::lemma_multiset_commutative;
use crate::fuzzy::{fuzzy_match, lower_char_code, lower_code, spec_fuzzy_match};

verus! {

/// One directory entry, captured when the directory was read.
#[derive(Debug)]
pub struct DirEntryData {
    pub name: String,
    pub abs_path: String,
    pub is_dir: bool,
    pub is_hidden: bool,
}

/// Case-insensitive lexicographic order on names.
pub open spec fn spec_name_le(a: Seq<char>, b: Seq<char>) -> bool
    decreases a.len(),
{
    if a.len() == 0 {
        true
    } else if b.len() == 0 {
        false
    } else if lower_code(a.first()) < lower_code(b.first()) {
        true
    } else if lower_code(a.first()) > lower_code(b.first()) {
        false
    } else {
        spec_name_le(a.drop_first(), b.drop_first())
    }
}

pub proof fn lemma_name_le_total(a: Seq<char>, b: Seq<char>)
    ensures
        spec_name_le(a, b) || spec_name_le(b, a),
    decreases a.len(),
{
    if a.len() > 0 && b.len() > 0 && lower_code(a.first()) == lower_code(b.first()) {
        lemma_name_le_total(a.drop_first(), b.drop_first());
    }
}

pub proof fn lemma_name_le_trans(a: Seq<char>, b: Seq<char>, c: Seq<char>)
    requires
        spec_name_le(a, b),
        spec_name_le(b, c),
    ensures
        spec_name_le(a, c),
    decreases a.len(),
{
    if a.len() > 0 {
        if b.len() > 0 && c.len() > 0 && lower_code(a.first()) == lower_code(b.first())
            && lower_code(b.first()) == lower_code(c.first()) {
            lemma_name_le_trans(a.drop_first(), b.drop_first(), c.drop_first());
        }
    }
}

/// Whether `a` sorts at or before `b`.
pub fn name_le(a: &str, b: &str) -> (r: bool)
    ensures
        r == spec_name_le(a@, b@),
{
    let alen = a.unicode_len();
    let blen = b.unicode_len();
    proof {
        assert(a@.skip(0) =~= a@);
        assert(b@.skip(0) =~= b@);
    }
    let mut i: usize = 0;
    while i < alen && i < blen
        invariant
            i <= alen,
            i <= blen,
            alen == a@.len(),
            blen == b@.len(),
            spec_name_le(a@, b@) == spec_name_le(a@.skip(i as int), b@.skip(i as int)),
        decreases alen - i,
    {
        let ca = lower_char_code(a.get_char(i));
        let cb = lower_char_code(b.get_char(i));
        proof {
            let sa = a@.skip(i as int);
            let sb = b@.skip(i as int);
            assert(sa.first() == a@[i as int]);
            assert(sb.first() == b@[i as int]);
            assert(sa.drop_first() =~= a@.skip(i as int + 1));
            assert(sb.drop_first() =~= b@.skip(i as int + 1));
        }
        if ca < cb {
            return true;
        }
        if ca > cb {
            return false;
        }
        i = i + 1;
    }
    if i == alen {
        proof {
            assert(a@.skip(alen as int) =~= Seq::<char>::empty());
        }
        true
    } else {
        proof {
            assert(b@.skip(blen as int) =~= Seq::<char>::empty());
        }
        false
    }
}

/// The listing order: directories before files, names compared without
/// regard to ASCII case.
pub open spec fn spec_entry_le(a: DirEntryData, b: DirEntryData) -> bool {
    if a.is_dir != b.is_dir {
        a.is_dir
    } else {
        spec_name_le(a.name@, b.name@)
    }
}

pub proof fn lemma_entry_le_total(a: DirEntryData, b: DirEntryData)
    ensures
        spec_entry_le(a, b) || spec_entry_le(b, a),
{
    if a.is_dir == b.is_dir {
        lemma_name_le_total(a.name@, b.name@);
    }
}

pub proof fn lemma_entry_le_trans(a: DirEntryData, b: DirEntryData, c: DirEntryData)
    requires
        spec_entry_le(a, b),
        spec_entry_le(b, c),
    ensures
        spec_entry_le(a, c),
{
    if a.is_dir == b.is_dir && b.is_dir == c.is_dir {
        lemma_name_le_trans(a.name@, b.name@, c.name@);
    }
}

/// Whether `a` sorts at or before `b` in the listing.
pub fn entry_le(a: &DirEntryData, b: &DirEntryData) -> (r: bool)
    ensures
        r == spec_entry_le(*a, *b),
{
    if a.is_dir != b.is_dir {
        a.is_dir
    } else {
        name_le(a.name.as_str(), b.name.as_str())
    }
}

/// Every pair of positions stands in listing order.
pub open spec fn spec_entries_sorted(s: Seq<DirEntryData>) -> bool {
    forall|i: int, j: int| 0 <= i < j < s.len() ==> spec_entry_le(s[i], s[j])
}

proof fn lemma_to_multiset_insert(s: Seq<DirEntryData>, j: int, e: DirEntryData)
    requires
        0 <= j <= s.len(),
    ensures
        s.insert(j, e).to_multiset() == s.to_multiset().insert(e),
{
    broadcast use vstd::seq_lib::group_to_multiset_ensures;
    broadcast use vstd::multiset::group_multiset_axioms;

    let a = s.take(j);
    let b = s.skip(j);
    assert(s.insert(j, e) =~= a.push(e) + b);
    assert(s =~= a + b);
    lemma_multiset_commutative(a.push(e), b);
    lemma_multiset_commutative(a, b);
    assert(a.push(e).to_multiset() =~= a.to_multiset().insert(e));
    assert(a.to_multiset().insert(e).add(b.to_multiset()) =~= a.to_multiset().add(
        b.to_multiset(),
    ).insert(e));
}

/// Sort a directory listing: directories first, then case-insensitive name
/// order, with exactly the entries that were there before.
pub fn sort_entries(entries: &mut Vec<DirEntryData>)
    ensures
        final(entries)@.len() == old(entries)@.len(),
        final(entries)@.to_multiset() == old(entries)@.to_multiset(),
        spec_entries_sorted(final(entries)@),
{
    let mut i: usize = 1;
    while i < entries.len()
        invariant
            1 <= i,
            entries@.len() == old(entries)@.len(),
            entries@.to_multiset() == old(entries)@.to_multiset(),
            forall|a: int, b: int|
                0 <= a < b < i && b < entries@.len() ==> spec_entry_le(entries@[a], entries@[b]),
        decreases entries@.len() - i,
    {
        let mut j: usize = 0;
        while j < i && entry_le(&entries[j], &entries[i])
            invariant
                j <= i,
                i < entries@.len(),
                forall|t: int| 0 <= t < j ==> spec_entry_le(entries@[t], entries@[i as int]),
            decreases i - j,
        {
            j = j + 1;
        }
        if j < i {
            let ghost pre = entries@;
            let ghost e_spec = entries@[i as int];
            proof {
                lemma_entry_le_total(pre[j as int], e_spec);
                assert(spec_entry_le(e_spec, pre[j as int]));
                assert forall|t: int| j <= t < i implies spec_entry_le(e_spec, pre[t]) by {
                    if t > j {
                        assert(spec_entry_le(pre[j as int], pre[t]));
                        lemma_entry_le_trans(e_spec, pre[j as int], pre[t]);
                    }
                }
            }
            let e = entries.remove(i);
            entries.insert(j, e);
            proof {
                broadcast use vstd::seq_lib::group_to_multiset_ensures;
                broadcast use vstd::multiset::group_multiset_axioms;

                lemma_to_multiset_insert(pre.remove(i as int), j as int, e_spec);
                assert(pre.contains(e_spec)) by {
                    assert(pre[i as int] == e_spec);
                }
                assert(pre.to_multiset().remove(e_spec).insert(e_spec) =~= pre.to_multiset());
                let cur = entries@;
                assert forall|a: int, b: int|
                    0 <= a < b < i + 1 && b < cur.len() implies spec_entry_le(cur[a], cur[b]) by {
                    if b < j {
                        assert(cur[a] == pre[a] && cur[b] == pre[b]);
                    } else if a < j && b == j {
                        assert(cur[a] == pre[a] && cur[b] == e_spec);
                    } else if a < j && b > j {
                        assert(cur[a] == pre[a] && cur[b] == pre[b - 1]);
                    } else if a == j {
                        assert(cur[a] == e_spec && cur[b] == pre[b - 1]);
                    } else {
                        assert(cur[a] == pre[a - 1] && cur[b] == pre[b - 1]);
                    }
                }
            }
        } else {
            proof {
                let cur = entries@;
                assert forall|a: int, b: int|
                    0 <= a < b < i + 1 && b < cur.len() implies spec_entry_le(cur[a], cur[b]) by {
                    if b == i {
                        assert(spec_entry_le(cur[a], cur[i as int]));
                    }
                }
            }
        }
        i = i + 1;
    }
}

/// One browser row: the mark column, the padded kind label and the name.
pub open spec fn spec_entry_row(e: DirEntryData, marked: bool) -> Seq<char> {
    "["@ + (if marked {
        "*"@
    } else {
        " "@
    }) + "] "@ + (if e.is_dir {
        "DIR "@
    } else {
        "FILE"@
    }) + " "@ + e.name@
}

/// Render one row of the file browser.
pub fn entry_row_text(entry: &DirEntryData, marked: bool) -> (r: String)
    ensures
        r@ == spec_entry_row(*entry, marked),
{
    let mut row = String::from_str("[");
    if marked {
        row.append("*");
    } else {
        row.append(" ");
    }
    row.append("] ");
    if entry.is_dir {
        row.append("DIR ");
    } else {
        row.append("FILE");
    }
    row.append(" ");
    row.append(entry.name.as_str());
    row
}

/// Whether the entry shows under the hidden-file toggle and the filter.
pub open spec fn spec_entry_visible(e: DirEntryData, show_hidden: bool, filter: Seq<char>) -> bool {
    (show_hidden || !e.is_hidden) && (filter.len() == 0 || spec_fuzzy_match(e.name@, filter))
}

/// The indices of the visible entries, in listing order.
pub open spec fn spec_visible_indices(
    entries: Seq<DirEntryData>,
    show_hidden: bool,
    filter: Seq<char>,
) -> Seq<int>
    decreases entries.len(),
{
    if entries.len() == 0 {
        Seq::empty()
    } else {
        let rest = spec_visible_indices(entries.drop_last(), show_hidden, filter);
        if spec_entry_visible(entries.last(), show_hidden, filter) {
            rest.push(entries.len() - 1)
        } else {
            rest
        }
    }
}

/// The integer values of a vector of indices.
pub open spec fn indices_as_int(s: Seq<usize>) -> Seq<int> {
    Seq::new(s.len(), |i: int| s[i] as int)
}

/// Compute the visible subset of the listing.
pub fn compute_visible(entries: &Vec<DirEntryData>, show_hidden: bool, filter: &str) -> (r: Vec<
    usize,
>)
    ensures
        indices_as_int(r@) == spec_visible_indices(entries@, show_hidden, filter@),
{
    let mut r: Vec<usize> = Vec::new();
    proof {
        assert(indices_as_int(r@) =~= spec_visible_indices(entries@.take(0), show_hidden, filter@));
    }
    let filter_empty = filter.unicode_len() == 0;
    let mut k: usize = 0;
    while k < entries.len()
        invariant
            k <= entries@.len(),
            filter_empty == (filter@.len() == 0),
            indices_as_int(r@) == spec_visible_indices(
                entries@.take(k as int),
                show_hidden,
                filter@,
            ),
        decreases entries@.len() - k,
    {
        proof {
            assert(entries@.take(k as int + 1).drop_last() =~= entries@.take(k as int));
            assert(entries@.take(k as int + 1).last() == entries@[k as int]);
        }
        let visible = (show_hidden || !entries[k].is_hidden) && (filter_empty || fuzzy_match(
            entries[k].name.as_str(),
            filter,
        ));
        if visible {
            let ghost old_r = r@;
            r.push(k);
            proof {
                assert(indices_as_int(r@) =~= indices_as_int(old_r).push(k as int));
            }
        }
        k = k + 1;
    }
    proof {
        assert(entries@.take(entries@.len() as int) =~= entries@);
    }
    r
}

} // verus!
