//! Path-string logic: base names, parents, joining and guards. Paths are
//! plain strings; `/` separates components, as the platform's paths do.

use vstd::prelude::*;
use crate::errors::{FugaError, FugaResult};

verus! {

/// `s` without its trailing separators.
pub open spec fn strip_trailing_slashes(s: Seq<char>) -> Seq<char>
    decreases s.len(),
{
    if s.len() == 0 {
        s
    } else if s.last() == '/' {
        strip_trailing_slashes(s.drop_last())
    } else {
        s
    }
}

/// The characters of `s` after its last separator (all of `s` if none).
pub open spec fn after_last_slash(s: Seq<char>) -> Seq<char>
    decreases s.len(),
{
    if s.len() == 0 {
        s
    } else if s.last() == '/' {
        Seq::empty()
    } else {
        after_last_slash(s.drop_last()).push(s.last())
    }
}

/// The final component of a path: trailing separators are ignored, and the
/// root, the empty path, `.` and `..` have no name.
pub open spec fn spec_basename(s: Seq<char>) -> Option<Seq<char>> {
    let t = strip_trailing_slashes(s);
    let name = after_last_slash(t);
    if t.len() == 0 {
        None
    } else if name == seq!['.'] || name == seq!['.', '.'] {
        None
    } else {
        Some(name)
    }
}

pub open spec fn all_slashes(s: Seq<char>) -> bool {
    forall|i: int| 0 <= i < s.len() ==> s[i] == '/'
}

/// The path with its final component removed: `None` for the root and the
/// empty path, the empty string for a single relative component.
pub open spec fn spec_parent(s: Seq<char>) -> Option<Seq<char>> {
    let t = strip_trailing_slashes(s);
    let name = after_last_slash(t);
    if t.len() == 0 {
        None
    } else {
        let p = t.take(t.len() - name.len());
        if p.len() == 0 {
            Some(Seq::empty())
        } else if all_slashes(p) {
            Some(seq!['/'])
        } else {
            Some(strip_trailing_slashes(p))
        }
    }
}

/// Joining a directory and a name inserts a separator only where the
/// directory does not already end in one.
pub open spec fn spec_join(dir: Seq<char>, name: Seq<char>) -> Seq<char> {
    if dir.len() == 0 {
        name
    } else if dir.last() == '/' {
        dir + name
    } else {
        dir + "/"@ + name
    }
}

proof fn lemma_strip_take(s: Seq<char>, end: int)
    requires
        0 <= end < s.len(),
        s[end] == '/',
    ensures
        strip_trailing_slashes(s.take(end + 1)) == strip_trailing_slashes(s.take(end)),
{
    let t = s.take(end + 1);
    assert(t.last() == s[end]);
    assert(t.drop_last() =~= s.take(end));
}

/// Locate the final component: returns `(end, start)` with the stripped path
/// being the first `end` characters and its last component starting at
/// `start`.
fn scan_path(path: &str) -> (r: (usize, usize))
    ensures
        r.1 <= r.0 <= path@.len(),
        strip_trailing_slashes(path@) == path@.take(r.0 as int),
        after_last_slash(strip_trailing_slashes(path@)) == path@.subrange(
            r.1 as int,
            r.0 as int,
        ),
        r.1 > 0 ==> path@[r.1 as int - 1] == '/',
{
    let len = path.unicode_len();
    proof {
        assert(path@.take(len as int) =~= path@);
    }
    let mut end: usize = len;
    while end > 0 && path.get_char(end - 1) == '/'
        invariant
            end <= len,
            len == path@.len(),
            strip_trailing_slashes(path@) == strip_trailing_slashes(path@.take(end as int)),
        decreases end,
    {
        proof {
            lemma_strip_take(path@, end - 1);
        }
        end = end - 1;
    }
    let ghost t = path@.take(end as int);
    proof {
        if end > 0 {
            assert(t.last() == path@[end - 1]);
        }
        assert(strip_trailing_slashes(t) == t);
        assert(t.take(end as int) =~= t);
        assert(after_last_slash(t) + Seq::<char>::empty() =~= after_last_slash(t));
        assert(t.skip(end as int) =~= Seq::<char>::empty());
    }
    let mut start: usize = end;
    while start > 0 && path.get_char(start - 1) != '/'
        invariant
            start <= end <= len,
            len == path@.len(),
            t == path@.take(end as int),
            strip_trailing_slashes(path@) == t,
            after_last_slash(t) == after_last_slash(t.take(start as int)) + t.skip(start as int),
        decreases start,
    {
        proof {
            let u = t.take(start as int);
            assert(u.last() == path@[start - 1]);
            assert(u.drop_last() =~= t.take(start as int - 1));
            assert(after_last_slash(u) == after_last_slash(u.drop_last()).push(u.last()));
            assert(after_last_slash(t.take(start as int - 1)).push(u.last()) + t.skip(
                start as int,
            ) =~= after_last_slash(t.take(start as int - 1)) + t.skip(start as int - 1));
        }
        start = start - 1;
    }
    proof {
        if start > 0 {
            let u = t.take(start as int);
            assert(u.last() == path@[start - 1]);
            assert(after_last_slash(u) == Seq::<char>::empty());
        } else {
            assert(t.take(0) =~= Seq::<char>::empty());
        }
        assert(Seq::<char>::empty() + t.skip(start as int) =~= t.skip(start as int));
        assert(t.skip(start as int) =~= path@.subrange(start as int, end as int));
    }
    (end, start)
}

/// The name of the file or directory that a path points at.
pub fn get_name(path: &str) -> (r: Option<String>)
    ensures
        (r is Some) == (spec_basename(path@) is Some),
        r matches Some(n) ==> spec_basename(path@) == Some(n@),
{
    let (end, start) = scan_path(path);
    if end == 0 {
        proof {
            assert(strip_trailing_slashes(path@).len() == 0);
        }
        return None;
    }
    let name = path.substring_char(start, end);
    let n_len = end - start;
    if n_len == 1 && name.get_char(0) == '.' {
        proof {
            assert(name@ =~= seq!['.']);
        }
        None
    } else if n_len == 2 && name.get_char(0) == '.' && name.get_char(1) == '.' {
        proof {
            assert(name@ =~= seq!['.', '.']);
        }
        None
    } else {
        proof {
            assert(name@ != seq!['.'] && name@ != seq!['.', '.']) by {
                if name@ == seq!['.'] {
                    assert(name@.len() == 1);
                }
                if name@ == seq!['.', '.'] {
                    assert(name@.len() == 2);
                }
            }
        }
        Some(String::from_str(name))
    }
}

/// The parent directory of a path.
pub fn parent_of(path: &str) -> (r: Option<String>)
    ensures
        (r is Some) == (spec_parent(path@) is Some),
        r matches Some(p) ==> spec_parent(path@) == Some(p@),
{
    let (end, start) = scan_path(path);
    if end == 0 {
        return None;
    }
    let ghost t = path@.take(end as int);
    proof {
        assert(t.len() - after_last_slash(t).len() == start);
        assert(t.take(start as int) =~= path@.take(start as int));
    }
    if start == 0 {
        proof {
            assert(t.take(0) =~= Seq::<char>::empty());
        }
        return Some(String::new());
    }
    // Strip the separators that precede the final component.
    let mut pend: usize = start;
    while pend > 0 && path.get_char(pend - 1) == '/'
        invariant
            pend <= start <= end <= path@.len(),
            strip_trailing_slashes(path@.take(start as int)) == strip_trailing_slashes(
                path@.take(pend as int),
            ),
            forall|i: int| pend <= i < start ==> path@[i] == '/',
        decreases pend,
    {
        proof {
            lemma_strip_take(path@, pend - 1);
        }
        pend = pend - 1;
    }
    let ghost p = t.take(start as int);
    if pend == 0 {
        proof {
            assert(all_slashes(p));
            reveal_strlit("/");
            assert("/"@ =~= seq!['/']);
        }
        return Some(String::from_str("/"));
    }
    proof {
        let u = path@.take(pend as int);
        assert(u.last() == path@[pend - 1]);
        assert(strip_trailing_slashes(u) == u);
        assert(!all_slashes(p)) by {
            assert(p[pend - 1] == path@[pend - 1]);
        }
    }
    let parent = path.substring_char(0, pend);
    proof {
        assert(parent@ =~= path@.take(pend as int));
    }
    Some(String::from_str(parent))
}

/// Join a directory path and a child name.
pub fn join_path(dir: &str, name: &str) -> (r: String)
    ensures
        r@ == spec_join(dir@, name@),
{
    let len = dir.unicode_len();
    if len == 0 {
        String::from_str(name)
    } else if dir.get_char(len - 1) == '/' {
        let mut s = String::from_str(dir);
        s.append(name);
        s
    } else {
        let mut s = String::from_str(dir);
        s.append("/");
        s.append(name);
        s
    }
}

/// Whether the path is absolute.
pub fn is_abs_path(path: &str) -> (r: bool)
    ensures
        r == (path@.len() > 0 && path@[0] == '/'),
{
    path.unicode_len() > 0 && path.get_char(0) == '/'
}

/// Equality of two path strings.
pub fn str_eq(a: &str, b: &str) -> (r: bool)
    ensures
        r == (a@ == b@),
{
    let s1 = String::from_str(a);
    let s2 = String::from_str(b);
    s1 == s2
}

/// An operation from a source onto itself is refused; any other pairing is
/// accepted.
pub fn duplicate_guard(source: &str, destination: &str) -> (r: FugaResult<()>)
    ensures
        source@ == destination@ ==> (r matches Err(e) && (e matches FugaError::DuplicatePath {
            source: s,
            destination: d,
        } && s@ == source@ && d@ == destination@)),
        source@ != destination@ ==> r is Ok,
{
    if str_eq(source, destination) {
        Err(
            FugaError::DuplicatePath {
                source: String::from_str(source),
                destination: String::from_str(destination),
            },
        )
    } else {
        Ok(())
    }
}

} // verus!
