//! Small helpers shared by the cache lookups: a "first match" spec
//! function over sequences and an executable string comparison.

use vstd::prelude::*;

verus! {

/// The first element of `rows` satisfying `p`, if any, scanning from
/// the front.
pub open spec fn first_match<T>(rows: Seq<T>, p: spec_fn(T) -> bool) -> Option<T>
    decreases rows.len(),
{
    if rows.len() == 0 {
        None
    } else if p(rows[0]) {
        Some(rows[0])
    } else {
        first_match(rows.drop_first(), p)
    }
}

/// Scanning past a non-matching element leaves the first match alone.
pub proof fn lemma_first_match_step<T>(rows: Seq<T>, p: spec_fn(T) -> bool, i: int)
    requires
        0 <= i < rows.len(),
        !p(rows[i]),
    ensures
        first_match(rows.skip(i), p) == first_match(rows.skip(i + 1), p),
{
    assert(rows.skip(i).len() > 0);
    assert(rows.skip(i)[0] == rows[i]);
    assert(rows.skip(i).drop_first() =~= rows.skip(i + 1));
}

/// A matching element ends the scan at once.
pub proof fn lemma_first_match_found<T>(rows: Seq<T>, p: spec_fn(T) -> bool, i: int)
    requires
        0 <= i < rows.len(),
        p(rows[i]),
    ensures
        first_match(rows.skip(i), p) == Some(rows[i]),
{
    assert(rows.skip(i).len() > 0);
    assert(rows.skip(i)[0] == rows[i]);
}

/// Whatever `first_match` returns satisfies the predicate it was
/// asked for.
pub proof fn lemma_first_match_holds<T>(rows: Seq<T>, p: spec_fn(T) -> bool)
    ensures
        match first_match(rows, p) {
            Some(r) => p(r),
            None => true,
        },
    decreases rows.len(),
{
    if rows.len() > 0 && !p(rows[0]) {
        lemma_first_match_holds(rows.drop_first(), p);
    }
}

/// Character-for-character string equality.
pub fn str_eq(a: &str, b: &str) -> (r: bool)
    ensures
        r == (a@ == b@),
{
    let sa = String::from_str(a);
    let sb = String::from_str(b);
    sa == sb
}

} // verus!
