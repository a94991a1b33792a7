//! Resolution of raw mark inputs: per-target existence validation and
//! order-preserving deduplication of the assembled mark list.

use vstd::prelude::*;
use crate::errors::{FugaError, FugaResult};
use crate::fuga::FileInfo;

verus! {

/// The character sequences of a sequence of strings.
pub open spec fn seq_views(v: Seq<String>) -> Seq<Seq<char>> {
    Seq::new(v.len(), |i: int| v[i]@)
}

/// No two entries are the same string.
pub open spec fn views_no_dup(s: Seq<Seq<char>>) -> bool {
    forall|i: int, j: int| 0 <= i < j < s.len() ==> s[i] != s[j]
}

/// The sequence with every repeated entry removed, keeping the first
/// occurrence of each and the order of what remains.
pub open spec fn spec_dedupe(s: Seq<Seq<char>>) -> Seq<Seq<char>>
    decreases s.len(),
{
    if s.len() == 0 {
        s
    } else {
        let rest = spec_dedupe(s.drop_last());
        if rest.contains(s.last()) {
            rest
        } else {
            rest.push(s.last())
        }
    }
}

/// Deduplication keeps an entry exactly when the input held it.
pub proof fn lemma_dedupe_contains(s: Seq<Seq<char>>, x: Seq<char>)
    ensures
        spec_dedupe(s).contains(x) == s.contains(x),
    decreases s.len(),
{
    if s.len() > 0 {
        lemma_dedupe_contains(s.drop_last(), x);
        let rest = spec_dedupe(s.drop_last());
        if s.contains(x) {
            let i = choose|i: int| 0 <= i < s.len() && s[i] == x;
            if i < s.len() - 1 {
                assert(s.drop_last()[i] == x);
                assert(s.drop_last().contains(x));
            } else {
                assert(s.last() == x);
            }
            assert(spec_dedupe(s).contains(x)) by {
                if rest.contains(x) {
                    if !rest.contains(s.last()) {
                        let j = choose|j: int| 0 <= j < rest.len() && rest[j] == x;
                        assert(rest.push(s.last())[j] == x);
                    }
                } else {
                    assert(rest.push(s.last()).last() == s.last());
                }
            }
        }
        if spec_dedupe(s).contains(x) {
            assert(s.contains(x)) by {
                if rest.contains(s.last()) {
                    assert(s.drop_last().contains(x));
                    let j = choose|j: int| 0 <= j < s.len() - 1 && s.drop_last()[j] == x;
                    assert(s[j] == x);
                } else {
                    let j = choose|j: int|
                        0 <= j < rest.push(s.last()).len() && rest.push(s.last())[j] == x;
                    if j < rest.len() {
                        assert(rest[j] == x);
                        assert(s.drop_last().contains(x));
                        let k = choose|k: int| 0 <= k < s.len() - 1 && s.drop_last()[k] == x;
                        assert(s[k] == x);
                    } else {
                        assert(s[s.len() - 1] == x);
                    }
                }
            }
        }
    }
}

/// Deduplication leaves no repeated entries.
pub proof fn lemma_dedupe_no_dup(s: Seq<Seq<char>>)
    ensures
        views_no_dup(spec_dedupe(s)),
    decreases s.len(),
{
    if s.len() > 0 {
        lemma_dedupe_no_dup(s.drop_last());
        let rest = spec_dedupe(s.drop_last());
        if !rest.contains(s.last()) {
            let r = rest.push(s.last());
            assert forall|i: int, j: int| 0 <= i < j < r.len() implies r[i] != r[j] by {
                if j == r.len() - 1 {
                    assert(r[i] == rest[i]);
                    assert(!rest.contains(r[j]));
                }
            }
        }
    }
}

/// A list without repeats is already deduplicated.
pub proof fn lemma_dedupe_of_no_dup(s: Seq<Seq<char>>)
    requires
        views_no_dup(s),
    ensures
        spec_dedupe(s) == s,
    decreases s.len(),
{
    if s.len() > 0 {
        assert(views_no_dup(s.drop_last())) by {
            assert(forall|i: int, j: int|
                0 <= i < j < s.len() - 1 ==> s.drop_last()[i] == s[i] && s.drop_last()[j] == s[j]);
        }
        lemma_dedupe_of_no_dup(s.drop_last());
        assert(!s.drop_last().contains(s.last())) by {
            if s.drop_last().contains(s.last()) {
                let i = choose|i: int| 0 <= i < s.len() - 1 && s.drop_last()[i] == s.last();
                assert(s[i] == s[s.len() - 1]);
            }
        }
        assert(s.drop_last().push(s.last()) =~= s);
    }
}

/// Marking an already marked path again leaves the mark list as it was:
/// adding `p` twice yields the same list as adding it once.
pub proof fn lemma_add_mark_idempotent(e: Seq<Seq<char>>, p: Seq<char>)
    ensures
        spec_dedupe(spec_dedupe(e.push(p)).push(p)) == spec_dedupe(e.push(p)),
{
    let m1 = spec_dedupe(e.push(p));
    lemma_dedupe_no_dup(e.push(p));
    assert(e.push(p).contains(p)) by {
        assert(e.push(p).last() == p);
    }
    lemma_dedupe_contains(e.push(p), p);
    assert(m1.contains(p));
    lemma_dedupe_of_no_dup(m1);
    assert(m1.push(p).drop_last() =~= m1);
    assert(m1.push(p).last() == p);
}

/// Whether some entry of the vector is the given string.
pub fn contains_str(v: &Vec<String>, x: &String) -> (r: bool)
    ensures
        r == seq_views(v@).contains(x@),
{
    let mut k: usize = 0;
    while k < v.len()
        invariant
            k <= v@.len(),
            forall|t: int| 0 <= t < k ==> v@[t]@ != x@,
        decreases v@.len() - k,
    {
        if v[k] == *x {
            proof {
                assert(seq_views(v@)[k as int] == x@);
            }
            return true;
        }
        k = k + 1;
    }
    proof {
        if seq_views(v@).contains(x@) {
            let i = choose|i: int| 0 <= i < v@.len() && seq_views(v@)[i] == x@;
            assert(v@[i]@ == x@);
        }
    }
    false
}

/// Remove every repeated path, keeping first occurrences in order.
pub fn dedupe_preserving_order(values: &mut Vec<String>)
    ensures
        seq_views(final(values)@) == spec_dedupe(seq_views(old(values)@)),
{
    let mut result: Vec<String> = Vec::new();
    proof {
        assert(seq_views(values@.take(0)) =~= Seq::<Seq<char>>::empty());
        assert(seq_views(result@) =~= Seq::<Seq<char>>::empty());
    }
    let mut k: usize = 0;
    while k < values.len()
        invariant
            k <= values@.len(),
            values@ == old(values)@,
            seq_views(result@) == spec_dedupe(seq_views(values@.take(k as int))),
        decreases values@.len() - k,
    {
        let v = values[k].clone();
        proof {
            let pre = seq_views(values@.take(k as int));
            let cur = seq_views(values@.take(k as int + 1));
            assert(cur.drop_last() =~= pre);
            assert(cur.last() == v@);
        }
        if !contains_str(&result, &v) {
            let ghost old_result = result@;
            result.push(v);
            proof {
                assert(seq_views(result@) =~= seq_views(old_result).push(v@));
            }
        }
        k = k + 1;
    }
    proof {
        assert(values@.take(values@.len() as int) =~= values@);
    }
    *values = result;
}

/// The sequence with every entry equal to `x` removed.
pub open spec fn spec_remove_all(s: Seq<Seq<char>>, x: Seq<char>) -> Seq<Seq<char>>
    decreases s.len(),
{
    if s.len() == 0 {
        s
    } else {
        let rest = spec_remove_all(s.drop_last(), x);
        if s.last() == x {
            rest
        } else {
            rest.push(s.last())
        }
    }
}

/// The paths with every occurrence of `x` removed, in order.
pub fn remove_matching(values: &Vec<String>, x: &String) -> (r: Vec<String>)
    ensures
        seq_views(r@) == spec_remove_all(seq_views(values@), x@),
{
    let mut r: Vec<String> = Vec::new();
    proof {
        assert(seq_views(r@) =~= spec_remove_all(seq_views(values@.take(0)), x@));
    }
    let mut k: usize = 0;
    while k < values.len()
        invariant
            k <= values@.len(),
            seq_views(r@) == spec_remove_all(seq_views(values@.take(k as int)), x@),
        decreases values@.len() - k,
    {
        proof {
            let pre = seq_views(values@.take(k as int));
            let cur = seq_views(values@.take(k as int + 1));
            assert(cur.drop_last() =~= pre);
            assert(cur.last() == values@[k as int]@);
        }
        if !(values[k] == *x) {
            let ghost old_r = r@;
            r.push(values[k].clone());
            proof {
                assert(seq_views(r@) =~= seq_views(old_r).push(values@[k as int]@));
            }
        }
        k = k + 1;
    }
    proof {
        assert(values@.take(values@.len() as int) =~= values@);
    }
    r
}

/// Copy a borrowed list of paths into an owned one.
pub fn strings_to_vec(s: &[String]) -> (r: Vec<String>)
    ensures
        seq_views(r@) == seq_views(s@),
{
    let mut r: Vec<String> = Vec::new();
    proof {
        assert(seq_views(r@) =~= seq_views(s@.take(0)));
    }
    let mut k: usize = 0;
    while k < s.len()
        invariant
            k <= s@.len(),
            seq_views(r@) == seq_views(s@.take(k as int)),
        decreases s@.len() - k,
    {
        let ghost old_r = r@;
        r.push(s[k].clone());
        proof {
            assert(seq_views(r@) =~= seq_views(old_r).push(s@[k as int]@));
            assert(seq_views(s@.take(k as int + 1)) =~= seq_views(s@.take(k as int)).push(
                s@[k as int]@,
            ));
        }
        k = k + 1;
    }
    proof {
        assert(s@.take(s@.len() as int) =~= s@);
    }
    r
}

/// A resolved target is accepted exactly when it still exists on disk;
/// a missing one is refused with `FileNotFound` naming that very path.
pub fn validate_target(abs_path: String, info: FileInfo) -> (r: FugaResult<(String, FileInfo)>)
    ensures
        info.exists ==> (r matches Ok(p) && p.0 == abs_path && p.1 == info),
        !info.exists ==> (r matches Err(e) && (e matches FugaError::FileNotFound(q) && q
            == abs_path)),
{
    if info.exists {
        Ok((abs_path, info))
    } else {
        Err(FugaError::FileNotFound(abs_path))
    }
}

} // verus!
