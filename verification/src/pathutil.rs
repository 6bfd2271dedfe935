//! Splitting canonical absolute paths, as handed back by file
//! descriptor canonicalization, into parent directory and file name.

use vstd::prelude::*;

verus! {

/// The index of the last `/` in `s`, or -1 if there is none.
pub open spec fn last_slash(s: Seq<char>) -> int
    decreases s.len(),
{
    if s.len() == 0 {
        -1
    } else if s.last() == '/' {
        s.len() - 1
    } else {
        last_slash(s.drop_last())
    }
}

pub proof fn lemma_last_slash_bounds(s: Seq<char>)
    ensures
        -1 <= last_slash(s) < s.len(),
        last_slash(s) >= 0 ==> s[last_slash(s)] == '/',
        forall|j: int| last_slash(s) < j < s.len() ==> s[j] != '/',
    decreases s.len(),
{
    if s.len() > 0 && s.last() != '/' {
        lemma_last_slash_bounds(s.drop_last());
        assert forall|j: int| last_slash(s) < j < s.len() implies s[j] != '/' by {
            if j < s.len() - 1 {
                assert(s.drop_last()[j] == s[j]);
            }
        }
    }
}

/// The parent directory of an absolute path: everything before the
/// last `/`, or the root itself when the path is directly under it.
pub open spec fn parent_of(s: Seq<char>) -> Seq<char> {
    if last_slash(s) <= 0 {
        "/"@
    } else {
        s.take(last_slash(s))
    }
}

/// The file name of an absolute path: everything after the last `/`,
/// or `.` when nothing follows it.
pub open spec fn basename_of(s: Seq<char>) -> Seq<char> {
    let tail = s.skip(last_slash(s) + 1);
    if tail.len() == 0 {
        "."@
    } else {
        tail
    }
}

/// Finds the index one past the last `/` of `path`, which must be
/// absolute.
#[verifier::loop_isolation(false)]
fn find_last_slash(path: &str) -> (r: usize)
    requires
        path@.len() > 0,
        path@[0] == '/',
    ensures
        r == last_slash(path@),
        r < path@.len(),
{
    let n = path.unicode_len();
    let mut i: usize = n;
    proof {
        lemma_last_slash_bounds(path@);
        assert(last_slash(path@) >= 0);
    }
    while i > 0
        invariant
            i <= n,
            n == path@.len(),
            forall|j: int| i <= j < n ==> path@[j] != '/',
        decreases i,
    {
        i -= 1;
        let c = path.get_char(i);
        if c == '/' {
            proof {
                lemma_last_slash_bounds(path@);
            }
            return i;
        }
    }
    proof {
        assert(path@[0] != '/');
        assert(false);
    }
    unreached()
}

/// The parent directory of a canonical absolute path, with the root
/// as its own parent.
pub fn path_parent(path: &str) -> (r: String)
    requires
        path@.len() > 0,
        path@[0] == '/',
    ensures
        r@ == parent_of(path@),
{
    let k = find_last_slash(path);
    if k == 0 {
        String::from_str("/")
    } else {
        let head = path.substring_char(0, k);
        proof {
            assert(head@ =~= path@.take(k as int));
        }
        String::from_str(head)
    }
}

/// The file name of a canonical absolute path, `.` when the path
/// ends in its last `/`.
pub fn path_basename(path: &str) -> (r: String)
    requires
        path@.len() > 0,
        path@[0] == '/',
    ensures
        r@ == basename_of(path@),
{
    let k = find_last_slash(path);
    let n = path.unicode_len();
    if k + 1 >= n {
        proof {
            assert(path@.skip(last_slash(path@) + 1).len() == 0);
        }
        String::from_str(".")
    } else {
        let tail = path.substring_char(k + 1, n);
        proof {
            assert(tail@ =~= path@.skip(last_slash(path@) + 1));
        }
        String::from_str(tail)
    }
}

/// `first` followed by `second`, as one string.
pub fn concat_str(first: &str, second: &str) -> (r: String)
    ensures
        r@ == first@ + second@,
{
    let mut joined = String::from_str(first);
    joined.append(second);
    joined
}

} // verus!
