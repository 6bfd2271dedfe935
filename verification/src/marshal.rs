//! Argument marshalling: pairing a hook's formal arguments, in
//! ascending position order, with the register-sized values captured
//! at call entry.

use vstd::prelude::*;

use crate::db::PolicyCache;
use crate::rows::ArgumentRow;

verus! {

impl ArgumentRow {
    /// A field-for-field copy.
    pub fn duplicate(&self) -> (r: ArgumentRow)
        ensures
            r == *self,
    {
        ArgumentRow {
            hook: self.hook,
            parent: self.parent,
            id: self.id,
            position: self.position,
            real: self.real,
            datatype: self.datatype.clone(),
            pointer: self.pointer,
            signed: self.signed,
            variadic: self.variadic,
            array: self.array,
        }
    }
}

/// Whether a row is a formal argument of the hook: it belongs to it
/// and has no parent row.
pub open spec fn formal_pred(hook_id: i64) -> spec_fn(ArgumentRow) -> bool {
    |a: ArgumentRow| a.hook == hook_id && a.parent is None
}

/// `row` placed after every element of `s` whose position does not
/// exceed its own: a stable insertion.
pub open spec fn insert_sorted(s: Seq<ArgumentRow>, row: ArgumentRow) -> Seq<ArgumentRow>
    decreases s.len(),
{
    if s.len() == 0 {
        seq![row]
    } else if s[0].position <= row.position {
        seq![s[0]] + insert_sorted(s.drop_first(), row)
    } else {
        seq![row] + s
    }
}

/// The hook's formal arguments in ascending position order, equal
/// positions kept in table order.
pub open spec fn formals_sorted(rows: Seq<ArgumentRow>, hook_id: i64) -> Seq<ArgumentRow>
    decreases rows.len(),
{
    if rows.len() == 0 {
        Seq::empty()
    } else {
        let prev = formals_sorted(rows.drop_last(), hook_id);
        if formal_pred(hook_id)(rows.last()) {
            insert_sorted(prev, rows.last())
        } else {
            prev
        }
    }
}

/// Inserting at the first index whose position exceeds the new row's
/// is what `insert_sorted` does.
proof fn lemma_insert_sorted_at(s: Seq<ArgumentRow>, row: ArgumentRow, idx: int)
    requires
        0 <= idx <= s.len(),
        forall|j: int| 0 <= j < idx ==> s[j].position <= row.position,
        idx < s.len() ==> s[idx].position > row.position,
    ensures
        insert_sorted(s, row) == s.take(idx) + seq![row] + s.skip(idx),
    decreases s.len(),
{
    if idx == 0 {
        if s.len() == 0 {
            assert(s.take(0) + seq![row] + s.skip(0) =~= seq![row]);
        } else {
            assert(s[0].position > row.position);
            assert(s.take(0) + seq![row] + s.skip(0) =~= seq![row] + s);
        }
    } else {
        let rest = s.drop_first();
        assert(s[0].position <= row.position);
        lemma_insert_sorted_at(rest, row, idx - 1);
        assert(rest.take(idx - 1) =~= s.subrange(1, idx));
        assert(rest.skip(idx - 1) =~= s.skip(idx));
        assert(seq![s[0]] + (rest.take(idx - 1) + seq![row] + rest.skip(idx - 1)) =~= s.take(idx)
            + seq![row] + s.skip(idx));
    }
}

/// Collects the hook's formal arguments in ascending position order.
#[verifier::loop_isolation(false)]
fn collect_formals(cache: &PolicyCache, hook_id: i64) -> (r: Vec<ArgumentRow>)
    ensures
        r@ == formals_sorted(cache.arguments@, hook_id),
{
    let rows = &cache.arguments;
    let n = rows.len();
    let mut formals: Vec<ArgumentRow> = Vec::new();
    let mut i: usize = 0;
    proof {
        assert(rows@.take(0) =~= Seq::<ArgumentRow>::empty());
    }
    while i < n
        invariant
            i <= n,
            n == rows@.len(),
            formals@ == formals_sorted(rows@.take(i as int), hook_id),
        decreases n - i,
    {
        if rows[i].hook == hook_id && rows[i].parent.is_none() {
            let ghost before = formals@;
            let row = rows[i].duplicate();
            let m = formals.len();
            let mut j: usize = 0;
            while j < m
                invariant
                    j <= m,
                    m == formals@.len(),
                    forall|k: int| 0 <= k < j ==> formals@[k].position <= row.position,
                    formals@ == before,
                decreases m - j,
            {
                if formals[j].position > row.position {
                    break;
                }
                j += 1;
            }
            formals.insert(j, row);
            proof {
                lemma_insert_sorted_at(before, rows@[i as int], j as int);
                assert(formals@ =~= before.take(j as int) + seq![rows@[i as int]] + before.skip(
                    j as int,
                ));
            }
        }
        proof {
            assert(rows@.take(i + 1).drop_last() =~= rows@.take(i as int));
            assert(rows@.take(i + 1).last() == rows@[i as int]);
        }
        i += 1;
    }
    proof {
        assert(rows@.take(n as int) =~= rows@);
    }
    formals
}

/// The marshalled view of a call: the hook's sorted formals, each
/// carrying the register value captured at its position.
pub open spec fn marshaled_args(
    arguments: Seq<ArgumentRow>,
    hook_id: i64,
    reals: Seq<usize>,
) -> Seq<ArgumentRow> {
    Seq::new(
        reals.len(),
        |i: int|
            ArgumentRow { real: reals[i], ..formals_sorted(arguments, hook_id)[i] },
    )
}

/// Marshals a hooked call: the hook's formal arguments in position
/// order, each carrying the register value captured for it.
/// Extracting `real` from every marshalled argument recovers the
/// captured values exactly.
#[verifier::loop_isolation(false)]
pub fn marshal_arguments(cache: &PolicyCache, hook_id: i64, reals: &Vec<usize>) -> (r: Vec<
    ArgumentRow,
>)
    requires
        formals_sorted(cache.arguments@, hook_id).len() == reals@.len(),
    ensures
        r@ == marshaled_args(cache.arguments@, hook_id, reals@),
        r@.len() == reals@.len(),
        forall|i: int| 0 <= i < r@.len() ==> r@[i] == (ArgumentRow {
            real: reals@[i],
            ..formals_sorted(cache.arguments@, hook_id)[i]
        }),
        forall|i: int| 0 <= i < r@.len() ==> r@[i].real == reals@[i],
{
    let formals = collect_formals(cache, hook_id);
    let n = formals.len();
    let mut result: Vec<ArgumentRow> = Vec::new();
    let mut k: usize = 0;
    while k < n
        invariant
            k <= n,
            n == formals@.len(),
            n == reals@.len(),
            formals@ == formals_sorted(cache.arguments@, hook_id),
            result@.len() == k,
            forall|i: int| 0 <= i < k ==> result@[i] == (ArgumentRow {
                real: reals@[i],
                ..formals_sorted(cache.arguments@, hook_id)[i]
            }),
        decreases n - k,
    {
        let mut row = formals[k].duplicate();
        row.real = reals[k];
        result.push(row);
        k += 1;
    }
    proof {
        assert(result@ =~= marshaled_args(cache.arguments@, hook_id, reals@));
    }
    result
}

} // verus!
