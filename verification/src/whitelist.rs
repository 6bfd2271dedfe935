//! The writable-directory whitelist: which glob patterns apply to a
//! given source program, and whether any of them covers a target
//! directory.

use vstd::prelude::*;

use crate::db::PolicyCache;
use crate::rows::WhitelistRow;
use crate::util::str_eq;

verus! {

/// Whether `pattern` is a well-formed glob.
pub uninterp spec fn glob_pattern_ok(pattern: Seq<char>) -> bool;

/// Whether the well-formed glob `pattern` matches `text`.
pub uninterp spec fn glob_matches(pattern: Seq<char>, text: Seq<char>) -> bool;

/// Relies on glob's `Pattern::new`, whose `Err` marks a malformed
/// pattern, and `Pattern::matches`; both depend only on the two
/// strings.
#[verifier::external_body]
fn glob_match(pattern: &str, text: &str) -> (r: Option<bool>)
    ensures
        r is Some <==> glob_pattern_ok(pattern@),
        r is Some ==> r.unwrap() == glob_matches(pattern@, text@),
{
    match glob::Pattern::new(pattern) {
        Ok(compiled) => Some(compiled.matches(text)),
        Err(_e) => None,
    }
}

/// Whether a whitelist row authorises writable directories for
/// `src_prog`: the right class, bound to that program or to every
/// program.
pub open spec fn wl_applies(row: WhitelistRow, src_prog: Seq<char>) -> bool {
    &&& row.class@ == "Filesystem/Directory/Writable"@
    &&& (row.path@ == src_prog || row.path@ == "ANY"@)
}

/// The directory patterns authorised for `src_prog`, in table order.
pub open spec fn allowed_dirs(rows: Seq<WhitelistRow>, src_prog: Seq<char>) -> Seq<Seq<char>>
    decreases rows.len(),
{
    if rows.len() == 0 {
        Seq::empty()
    } else {
        allowed_dirs(rows.drop_last(), src_prog) + (if wl_applies(rows.last(), src_prog) {
            seq![rows.last().value@]
        } else {
            Seq::empty()
        })
    }
}

/// Collects the whitelist values that authorise writable directories
/// for `src_prog`.
#[verifier::loop_isolation(false)]
pub fn get_allowed_directories(cache: &PolicyCache, src_prog: &str) -> (r: Vec<String>)
    ensures
        r.deep_view() == allowed_dirs(cache.whitelist@, src_prog@),
{
    let rows = &cache.whitelist;
    let n = rows.len();
    let mut result: Vec<String> = Vec::new();
    let mut i: usize = 0;
    proof {
        assert(rows@.take(0) =~= Seq::<WhitelistRow>::empty());
    }
    while i < n
        invariant
            i <= n,
            n == rows@.len(),
            result.deep_view() == allowed_dirs(rows@.take(i as int), src_prog@),
        decreases n - i,
    {
        let ghost prev = result.deep_view();
        if str_eq(rows[i].class.as_str(), "Filesystem/Directory/Writable") && (str_eq(
            rows[i].path.as_str(),
            src_prog,
        ) || str_eq(rows[i].path.as_str(), "ANY")) {
            result.push(rows[i].value.clone());
            proof {
                assert(result.deep_view() =~= prev + seq![rows@[i as int].value@]);
            }
        } else {
            proof {
                assert(prev + Seq::<Seq<char>>::empty() =~= prev);
            }
        }
        proof {
            assert(rows@.take(i + 1).drop_last() =~= rows@.take(i as int));
            assert(rows@.take(i + 1).last() == rows@[i as int]);
        }
        i += 1;
    }
    proof {
        assert(rows@.take(n as int) =~= rows@);
    }
    result
}

/// Whether the literal entry `ANY` stands among the patterns.
pub open spec fn contains_any(dirs: Seq<Seq<char>>) -> bool {
    exists|i: int| 0 <= i < dirs.len() && dirs[i] == "ANY"@
}

/// Looks for the literal entry `ANY` among the collected patterns.
#[verifier::loop_isolation(false)]
pub fn has_any_entry(dirs: &Vec<String>) -> (r: bool)
    ensures
        r == contains_any(dirs.deep_view()),
{
    let n = dirs.len();
    let mut i: usize = 0;
    while i < n
        invariant
            i <= n,
            n == dirs@.len(),
            forall|j: int| 0 <= j < i ==> dirs.deep_view()[j] != "ANY"@,
        decreases n - i,
    {
        if str_eq(dirs[i].as_str(), "ANY") {
            proof {
                assert(dirs.deep_view()[i as int] == "ANY"@);
            }
            return true;
        }
        i += 1;
    }
    false
}

/// What scanning the patterns against `text` in order yields: `None`
/// when a malformed pattern is reached before any match (a fatal
/// policy error), otherwise whether some pattern matched.
pub open spec fn glob_verdict(dirs: Seq<Seq<char>>, text: Seq<char>) -> Option<bool>
    decreases dirs.len(),
{
    if dirs.len() == 0 {
        Some(false)
    } else if !glob_pattern_ok(dirs[0]) {
        None
    } else if glob_matches(dirs[0], text) {
        Some(true)
    } else {
        glob_verdict(dirs.drop_first(), text)
    }
}

/// Scans the patterns in order against `text`.
#[verifier::loop_isolation(false)]
pub fn any_pattern_matches(dirs: &Vec<String>, text: &str) -> (r: Option<bool>)
    ensures
        r == glob_verdict(dirs.deep_view(), text@),
{
    let n = dirs.len();
    let mut i: usize = 0;
    proof {
        assert(dirs.deep_view().skip(0) =~= dirs.deep_view());
    }
    while i < n
        invariant
            i <= n,
            n == dirs@.len(),
            glob_verdict(dirs.deep_view().skip(i as int), text@) == glob_verdict(
                dirs.deep_view(),
                text@,
            ),
        decreases n - i,
    {
        let ghost rest = dirs.deep_view().skip(i as int);
        proof {
            assert(rest.len() > 0);
            assert(rest[0] == dirs.deep_view()[i as int]);
            assert(rest.drop_first() =~= dirs.deep_view().skip(i + 1));
        }
        match glob_match(dirs[i].as_str(), text) {
            None => {
                return None;
            },
            Some(true) => {
                return Some(true);
            },
            Some(false) => {},
        }
        i += 1;
    }
    proof {
        assert(dirs.deep_view().skip(n as int) =~= Seq::<Seq<char>>::empty());
    }
    Some(false)
}

} // verus!
