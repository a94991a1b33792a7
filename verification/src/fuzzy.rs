//! Case-insensitive ordered-subsequence matching, used for incremental
//! filtering of directory listings and preset names.

use vstd::prelude::*;

verus! {

/// The character's code, with ASCII capitals folded to lower case.
pub open spec fn lower_code(c: char) -> u32 {
    if 65 <= c as u32 && c as u32 <= 90 {
        (c as u32 + 32) as u32
    } else {
        c as u32
    }
}

/// Fold one character's code to lower case.
pub fn lower_char_code(c: char) -> (r: u32)
    ensures
        r == lower_code(c),
{
    let u = c as u32;
    if 65 <= u && u <= 90 {
        u + 32
    } else {
        u
    }
}

/// A candidate matches a pattern when the pattern's characters appear in the
/// candidate in order, not necessarily contiguously, ignoring ASCII case.
/// The empty pattern matches everything.
pub open spec fn spec_fuzzy_match(cand: Seq<char>, pat: Seq<char>) -> bool
    decreases cand.len(),
{
    if pat.len() == 0 {
        true
    } else if cand.len() == 0 {
        false
    } else if lower_code(cand.first()) == lower_code(pat.first()) {
        spec_fuzzy_match(cand.drop_first(), pat.drop_first())
    } else {
        spec_fuzzy_match(cand.drop_first(), pat)
    }
}

/// Whether `pattern` is a case-insensitive ordered subsequence of
/// `candidate`.
pub fn fuzzy_match(candidate: &str, pattern: &str) -> (r: bool)
    ensures
        r == spec_fuzzy_match(candidate@, pattern@),
{
    let clen = candidate.unicode_len();
    let plen = pattern.unicode_len();
    proof {
        assert(candidate@.skip(0) =~= candidate@);
        assert(pattern@.skip(0) =~= pattern@);
    }
    let mut i: usize = 0;
    let mut j: usize = 0;
    while i < clen && j < plen
        invariant
            i <= clen,
            j <= plen,
            clen == candidate@.len(),
            plen == pattern@.len(),
            spec_fuzzy_match(candidate@, pattern@) == spec_fuzzy_match(
                candidate@.skip(i as int),
                pattern@.skip(j as int),
            ),
        decreases clen - i,
    {
        let cc = lower_char_code(candidate.get_char(i));
        let pc = lower_char_code(pattern.get_char(j));
        proof {
            let cs = candidate@.skip(i as int);
            let ps = pattern@.skip(j as int);
            assert(cs.first() == candidate@[i as int]);
            assert(ps.first() == pattern@[j as int]);
            assert(cs.drop_first() =~= candidate@.skip(i as int + 1));
            assert(ps.drop_first() =~= pattern@.skip(j as int + 1));
        }
        if cc == pc {
            j = j + 1;
        }
        i = i + 1;
    }
    if j == plen {
        proof {
            assert(pattern@.skip(plen as int) =~= Seq::<char>::empty());
        }
        true
    } else {
        proof {
            assert(candidate@.skip(clen as int) =~= Seq::<char>::empty());
        }
        false
    }
}

} // verus!
