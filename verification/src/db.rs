//! The in-memory policy cache and the lookups the rule engine runs
//! against it: settings, action-argument chains and function
//! redirections.

use vstd::prelude::*;

use crate::rows::{ActionArgumentRow, ArgumentRow, HookRow, RuleRow, SettingRow, WhitelistRow};
use crate::util::{first_match, lemma_first_match_found, lemma_first_match_holds, lemma_first_match_step, str_eq};

verus! {

/// One consistent snapshot of the six policy tables, plus the second
/// in which it was last refreshed.
pub struct PolicyCache {
    pub hooks: Vec<HookRow>,
    pub arguments: Vec<ArgumentRow>,
    pub whitelist: Vec<WhitelistRow>,
    pub action_arguments: Vec<ActionArgumentRow>,
    pub rules: Vec<RuleRow>,
    pub settings: Vec<SettingRow>,
    pub last_refresh: u32,
}

impl PolicyCache {
    /// The cache as it stands at library load: empty, never refreshed.
    pub fn new() -> (c: PolicyCache)
        ensures
            c.hooks@.len() == 0,
            c.arguments@.len() == 0,
            c.whitelist@.len() == 0,
            c.action_arguments@.len() == 0,
            c.rules@.len() == 0,
            c.settings@.len() == 0,
            c.last_refresh == 0,
    {
        PolicyCache {
            hooks: Vec::new(),
            arguments: Vec::new(),
            whitelist: Vec::new(),
            action_arguments: Vec::new(),
            rules: Vec::new(),
            settings: Vec::new(),
            last_refresh: 0,
        }
    }
}

pub open spec fn setting_pred(param: Seq<char>) -> spec_fn(SettingRow) -> bool {
    |r: SettingRow| r.param@ == param
}

/// The value of the first settings row for `param`, if one exists.
pub open spec fn setting_lookup(rows: Seq<SettingRow>, param: Seq<char>) -> Option<Seq<char>> {
    match first_match(rows, setting_pred(param)) {
        Some(r) => Some(r.value@),
        None => None,
    }
}

pub open spec fn has_setting(rows: Seq<SettingRow>, param: Seq<char>) -> bool {
    setting_lookup(rows, param) is Some
}

/// The value for `param`, for use where a row is known to exist.
pub open spec fn setting_of(rows: Seq<SettingRow>, param: Seq<char>) -> Seq<char> {
    match setting_lookup(rows, param) {
        Some(v) => v,
        None => Seq::empty(),
    }
}

/// The four settings rows every well-configured database carries.
/// Their absence is a fatal configuration error, checked by the host
/// shim before any policy question is asked.
pub open spec fn wf_settings(rows: Seq<SettingRow>) -> bool {
    &&& has_setting(rows, "Prevention"@)
    &&& has_setting(rows, "ConsoleSecret"@)
    &&& has_setting(rows, "RecoverySecret"@)
    &&& has_setting(rows, "ConsoleSecretExpiry"@)
}

/// Whether enforcement (rather than mere auditing) is switched on.
pub open spec fn prevention_on(rows: Seq<SettingRow>) -> bool {
    setting_of(rows, "Prevention"@) == "true"@
}

/// The value of the settings row for `param`.  A missing row is a
/// fatal configuration error and is excluded by the precondition.
#[verifier::loop_isolation(false)]
pub fn get_setting(cache: &PolicyCache, param: &str) -> (r: String)
    requires
        has_setting(cache.settings@, param@),
    ensures
        Some(r@) == setting_lookup(cache.settings@, param@),
{
    let rows = &cache.settings;
    let n = rows.len();
    let mut i: usize = 0;
    proof {
        assert(rows@.skip(0) =~= rows@);
    }
    while i < n
        invariant
            i <= n,
            n == rows@.len(),
            has_setting(rows@, param@),
            first_match(rows@.skip(i as int), setting_pred(param@)) == first_match(
                rows@,
                setting_pred(param@),
            ),
        decreases n - i,
    {
        if str_eq(rows[i].param.as_str(), param) {
            proof {
                lemma_first_match_found(rows@, setting_pred(param@), i as int);
            }
            return rows[i].value.clone();
        }
        proof {
            lemma_first_match_step(rows@, setting_pred(param@), i as int);
        }
        i += 1;
    }
    proof {
        assert(rows@.skip(n as int) =~= Seq::<SettingRow>::empty());
        assert(false);
    }
    unreached()
}

/// Whether the `Prevention` setting holds the exact value `true`.
pub fn get_prevention(cache: &PolicyCache) -> (r: bool)
    requires
        has_setting(cache.settings@, "Prevention"@),
    ensures
        r == prevention_on(cache.settings@),
{
    let v = get_setting(cache, "Prevention");
    str_eq(v.as_str(), "true")
}

pub open spec fn act_arg_pred(id: i64) -> spec_fn(ActionArgumentRow) -> bool {
    |r: ActionArgumentRow| r.id == id
}

/// The first action-argument row carrying `id`, if any.
pub open spec fn act_arg_lookup(rows: Seq<ActionArgumentRow>, id: i64) -> Option<
    ActionArgumentRow,
> {
    first_match(rows, act_arg_pred(id))
}

/// The values collected by walking the list rooted at `id` through at
/// most `fuel` nodes.  A missing row ends the walk; so does exhausted
/// fuel.
pub open spec fn act_chain(rows: Seq<ActionArgumentRow>, id: i64, fuel: nat) -> Seq<Seq<char>>
    decreases fuel,
{
    if fuel == 0 {
        Seq::empty()
    } else {
        match act_arg_lookup(rows, id) {
            None => Seq::empty(),
            Some(row) => match row.next {
                None => seq![row.value@],
                Some(next_id) => seq![row.value@] + act_chain(rows, next_id, (fuel - 1) as nat),
            },
        }
    }
}

/// Whether the walk from `id` reaches its natural end (a missing row
/// or a row without successor) within `fuel` nodes.
pub open spec fn act_chain_ends(rows: Seq<ActionArgumentRow>, id: i64, fuel: nat) -> bool
    decreases fuel,
{
    if fuel == 0 {
        false
    } else {
        match act_arg_lookup(rows, id) {
            None => true,
            Some(row) => match row.next {
                None => true,
                Some(next_id) => act_chain_ends(rows, next_id, (fuel - 1) as nat),
            },
        }
    }
}

/// Fuel that suffices for every acyclic list held in `rows`: a walk
/// that has not ended after visiting more nodes than the table holds
/// must be revisiting some row.
pub open spec fn chain_fuel(rows: Seq<ActionArgumentRow>) -> nat {
    rows.len() + 1
}

/// Once a walk has ended, granting more fuel changes nothing: the
/// collected values are stable.  Together with the bounded walk of
/// `get_action_arguments` this says that on an acyclic table the
/// function returns the whole reachable chain.
pub proof fn lemma_act_chain_fuel_stable(
    rows: Seq<ActionArgumentRow>,
    id: i64,
    fuel: nat,
    more: nat,
)
    requires
        act_chain_ends(rows, id, fuel),
        fuel <= more,
    ensures
        act_chain_ends(rows, id, more),
        act_chain(rows, id, more) == act_chain(rows, id, fuel),
    decreases fuel,
{
    match act_arg_lookup(rows, id) {
        None => {},
        Some(row) => match row.next {
            None => {},
            Some(next_id) => {
                lemma_act_chain_fuel_stable(rows, next_id, (fuel - 1) as nat, (more - 1) as nat);
            },
        },
    }
}

#[verifier::loop_isolation(false)]
fn find_act_arg(rows: &Vec<ActionArgumentRow>, id: i64) -> (r: Option<usize>)
    ensures
        match r {
            Some(i) => i < rows@.len() && act_arg_lookup(rows@, id) == Some(rows@[i as int]),
            None => act_arg_lookup(rows@, id) is None,
        },
{
    let n = rows.len();
    let mut i: usize = 0;
    proof {
        assert(rows@.skip(0) =~= rows@);
    }
    while i < n
        invariant
            i <= n,
            n == rows@.len(),
            first_match(rows@.skip(i as int), act_arg_pred(id)) == first_match(
                rows@,
                act_arg_pred(id),
            ),
        decreases n - i,
    {
        if rows[i].id == id {
            proof {
                lemma_first_match_found(rows@, act_arg_pred(id), i as int);
            }
            return Some(i);
        }
        proof {
            lemma_first_match_step(rows@, act_arg_pred(id), i as int);
        }
        i += 1;
    }
    proof {
        assert(rows@.skip(n as int) =~= Seq::<ActionArgumentRow>::empty());
    }
    None
}

/// Walks the action-argument list rooted at `initial_id`, collecting
/// the value at each node.  The walk visits at most one node more
/// than the table holds, so it ends on every input; on an acyclic
/// table that bound is never the reason it stops.
#[verifier::loop_isolation(false)]
pub fn get_action_arguments(cache: &PolicyCache, initial_id: i64) -> (r: Vec<String>)
    ensures
        r.deep_view() == act_chain(
            cache.action_arguments@,
            initial_id,
            chain_fuel(cache.action_arguments@),
        ),
{
    let rows = &cache.action_arguments;
    let n = rows.len();
    let mut result: Vec<String> = Vec::new();
    let mut current: i64 = initial_id;
    let mut steps: usize = 0;
    loop
        invariant
            steps <= n,
            n == rows@.len(),
            result.deep_view() + act_chain(rows@, current, (chain_fuel(rows@) - steps) as nat)
                == act_chain(rows@, initial_id, chain_fuel(rows@)),
        decreases n - steps,
    {
        let ghost fuel = (chain_fuel(rows@) - steps) as nat;
        assert(fuel > 0);
        match find_act_arg(rows, current) {
            None => {
                proof {
                    assert(act_chain(rows@, current, fuel) =~= Seq::<Seq<char>>::empty());
                    assert(result.deep_view() + Seq::<Seq<char>>::empty() =~= result.deep_view());
                }
                break;
            },
            Some(idx) => {
                let ghost prev = result.deep_view();
                let value = rows[idx].value.clone();
                result.push(value);
                proof {
                    assert(result.deep_view() =~= prev + seq![rows@[idx as int].value@]);
                }
                match rows[idx].next {
                    None => {
                        proof {
                            assert(act_chain(rows@, current, fuel) == seq![
                                rows@[idx as int].value@,
                            ]);
                        }
                        break;
                    },
                    Some(next_id) => {
                        proof {
                            assert(act_chain(rows@, current, fuel) == seq![rows@[idx as int].value@]
                                + act_chain(rows@, next_id, (fuel - 1) as nat));
                            assert((prev + seq![rows@[idx as int].value@]) + act_chain(
                                rows@,
                                next_id,
                                (fuel - 1) as nat,
                            ) =~= prev + (seq![rows@[idx as int].value@] + act_chain(
                                rows@,
                                next_id,
                                (fuel - 1) as nat,
                            )));
                        }
                        if steps == n {
                            proof {
                                assert(act_chain(rows@, next_id, 0nat) =~= Seq::<Seq<char>>::empty());
                                assert(result.deep_view() + Seq::<Seq<char>>::empty()
                                    =~= result.deep_view());
                            }
                            break;
                        }
                        current = next_id;
                        steps += 1;
                    },
                }
            },
        }
    }
    result
}

pub open spec fn pos0_pred(hook_id: i64) -> spec_fn(ArgumentRow) -> bool {
    |a: ArgumentRow| a.hook == hook_id && a.parent is None && a.position == 0
}

/// The position-zero, parentless argument of a hook: the one its
/// redirection rule, if any, is bound to.
pub open spec fn pos0_arg(args: Seq<ArgumentRow>, hook_id: i64) -> Option<ArgumentRow> {
    first_match(args, pos0_pred(hook_id))
}

pub open spec fn redirect_pred(arg_id: i64) -> spec_fn(RuleRow) -> bool {
    |r: RuleRow| r.arg == arg_id && r.action@ == "RedirectFunction"@ && r.actionarg is Some
}

/// The first redirection rule bound to `arg_id`, if any.
pub open spec fn redirect_rule(rules: Seq<RuleRow>, arg_id: i64) -> Option<RuleRow> {
    first_match(rules, redirect_pred(arg_id))
}

#[verifier::loop_isolation(false)]
fn find_pos0_arg(rows: &Vec<ArgumentRow>, hook_id: i64) -> (r: Option<usize>)
    ensures
        match r {
            Some(i) => i < rows@.len() && pos0_arg(rows@, hook_id) == Some(rows@[i as int]),
            None => pos0_arg(rows@, hook_id) is None,
        },
{
    let n = rows.len();
    let mut i: usize = 0;
    proof {
        assert(rows@.skip(0) =~= rows@);
    }
    while i < n
        invariant
            i <= n,
            n == rows@.len(),
            first_match(rows@.skip(i as int), pos0_pred(hook_id)) == first_match(
                rows@,
                pos0_pred(hook_id),
            ),
        decreases n - i,
    {
        if rows[i].hook == hook_id && rows[i].parent.is_none() && rows[i].position == 0 {
            proof {
                lemma_first_match_found(rows@, pos0_pred(hook_id), i as int);
            }
            return Some(i);
        }
        proof {
            lemma_first_match_step(rows@, pos0_pred(hook_id), i as int);
        }
        i += 1;
    }
    proof {
        assert(rows@.skip(n as int) =~= Seq::<ArgumentRow>::empty());
    }
    None
}

#[verifier::loop_isolation(false)]
fn find_redirect_rule(rows: &Vec<RuleRow>, arg_id: i64) -> (r: Option<usize>)
    ensures
        match r {
            Some(i) => i < rows@.len() && redirect_rule(rows@, arg_id) == Some(rows@[i as int]),
            None => redirect_rule(rows@, arg_id) is None,
        },
{
    let n = rows.len();
    let mut i: usize = 0;
    proof {
        assert(rows@.skip(0) =~= rows@);
    }
    while i < n
        invariant
            i <= n,
            n == rows@.len(),
            first_match(rows@.skip(i as int), redirect_pred(arg_id)) == first_match(
                rows@,
                redirect_pred(arg_id),
            ),
        decreases n - i,
    {
        if rows[i].arg == arg_id && str_eq(rows[i].action.as_str(), "RedirectFunction")
            && rows[i].actionarg.is_some() {
            proof {
                lemma_first_match_found(rows@, redirect_pred(arg_id), i as int);
            }
            return Some(i);
        }
        proof {
            lemma_first_match_step(rows@, redirect_pred(arg_id), i as int);
        }
        i += 1;
    }
    proof {
        assert(rows@.skip(n as int) =~= Seq::<RuleRow>::empty());
    }
    None
}

/// Where a `RedirectFunction` rule is bound to the hook's first
/// argument, the `(library, symbol)` pair the lookup should target
/// instead.  The hook must have a position-zero argument, and a bound
/// redirection must name exactly a library and a symbol; both are
/// configuration invariants of the database.
pub fn get_redirect(cache: &PolicyCache, hook_id: i64) -> (r: Option<(String, String)>)
    requires
        pos0_arg(cache.arguments@, hook_id) is Some,
        match redirect_rule(cache.rules@, pos0_arg(cache.arguments@, hook_id).unwrap().id) {
            Some(rule) => act_chain(
                cache.action_arguments@,
                rule.actionarg.unwrap(),
                chain_fuel(cache.action_arguments@),
            ).len() == 2,
            None => true,
        },
    ensures
        match redirect_rule(cache.rules@, pos0_arg(cache.arguments@, hook_id).unwrap().id) {
            Some(rule) => {
                let chain = act_chain(
                    cache.action_arguments@,
                    rule.actionarg.unwrap(),
                    chain_fuel(cache.action_arguments@),
                );
                r is Some && r.unwrap().0@ == chain[0] && r.unwrap().1@ == chain[1]
            },
            None => r is None,
        },
{
    let arg_idx = match find_pos0_arg(&cache.arguments, hook_id) {
        Some(i) => i,
        None => {
            proof {
                assert(false);
            }
            return None;
        },
    };
    let arg_id = cache.arguments[arg_idx].id;
    proof {
        lemma_first_match_holds(cache.rules@, redirect_pred(arg_id));
    }
    let act_arg_id = match find_redirect_rule(&cache.rules, arg_id) {
        Some(i) => match cache.rules[i].actionarg {
            Some(a) => a,
            None => {
                proof {
                    assert(false);
                }
                return None;
            },
        },
        None => {
            return None;
        },
    };
    let redirected = get_action_arguments(cache, act_arg_id);
    assert(redirected@.len() == 2);
    let library = redirected[0].clone();
    let symbol = redirected[1].clone();
    Some((library, symbol))
}

} // verus!
