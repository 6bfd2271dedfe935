//! The hook dispatcher: marshals a hooked call, applies the bound
//! rules in table order, and decides whether the real function is
//! invoked or a synthetic value returned — never re-entering itself
//! from within its own work.

use vstd::prelude::*;

use crate::action::{
    arg_for_id, is_fopen_family, is_open_family, terminate_verdict, verify_can_terminate,
    verify_can_write, write_verdict, HookInvocation, LogEvent, LogSeverity, TerminateFacts,
    TerminateVerdict, WriteFacts, WriteVerdict,
};
use crate::auth::{env_auth_ok, AuthFacts};
use crate::db::{prevention_on, wf_settings, PolicyCache};
use crate::marshal::{formals_sorted, marshal_arguments, marshaled_args};
use crate::numparse::int_dec_string;
use crate::rows::{ArgumentRow, HookRow, RuleRow, SettingRow, WhitelistRow};
use crate::util::{lemma_first_match_holds, str_eq};

verus! {

/// A log event at specification level: severity and message text.
pub struct LogView {
    pub severity: LogSeverity,
    pub message: Seq<char>,
}

/// The pipeline state the rules fold over: the synthetic-return
/// decision so far, the events and diagnostics emitted so far, and
/// whether some action gave the call up.
pub struct PipeState {
    pub do_return: bool,
    pub return_value: i64,
    pub logs: Seq<LogView>,
    pub diags: Seq<Seq<char>>,
    pub aborted: bool,
}

pub open spec fn init_state() -> PipeState {
    PipeState {
        do_return: false,
        return_value: 0,
        logs: Seq::empty(),
        diags: Seq::empty(),
        aborted: false,
    }
}

pub open spec fn log_views(logs: Seq<LogEvent>) -> Seq<LogView> {
    Seq::new(
        logs.len(),
        |i: int| LogView { severity: logs[i].severity, message: logs[i].message@ },
    )
}

/// What one rule does to the pipeline: nothing unless some argument
/// of the call carries the rule's argument id; otherwise the named
/// action runs, and an unknown name runs nothing.
pub open spec fn rule_step(
    rule: RuleRow,
    settings: Seq<SettingRow>,
    whitelist: Seq<WhitelistRow>,
    hook: HookRow,
    args: Seq<ArgumentRow>,
    src_prog: Seq<char>,
    auth: AuthFacts,
    tfacts: TerminateFacts,
    wfacts: WriteFacts,
    st: PipeState,
) -> PipeState {
    if arg_for_id(args, rule.arg) is Some {
        if rule.action@ == "VerifyCanTerminate"@ {
            match terminate_verdict(settings, args, rule.arg, auth, tfacts) {
                TerminateVerdict::Pass => st,
                TerminateVerdict::Deny { pid } => PipeState {
                    do_return: true,
                    return_value: -1i64,
                    logs: st.logs.push(
                        LogView {
                            severity: LogSeverity::Warn,
                            message: "Blocked "@ + src_prog
                                + " from killing WhiteBeam service (VerifyCanTerminate)"@,
                        },
                    ),
                    diags: st.diags.push(
                        "WhiteBeam: kill ("@ + int_dec_string(pid as int)
                            + "): Operation not permitted"@,
                    ),
                    aborted: st.aborted,
                },
            }
        } else if rule.action@ == "VerifyCanWrite"@ {
            match write_verdict(settings, whitelist, hook, args, src_prog, auth, wfacts) {
                WriteVerdict::Pass => st,
                WriteVerdict::Deny { retval, target_directory, full_path } => PipeState {
                    do_return: true,
                    return_value: retval,
                    logs: st.logs.push(
                        LogView {
                            severity: LogSeverity::Warn,
                            message: "Blocked "@ + src_prog + " from writing to "@
                                + target_directory + " (VerifyCanWrite)"@,
                        },
                    ),
                    diags: st.diags.push(
                        "WhiteBeam: "@ + full_path + ": Permission denied"@,
                    ),
                    aborted: st.aborted,
                },
                WriteVerdict::Abort => PipeState { aborted: true, ..st },
            }
        } else {
            st
        }
    } else {
        st
    }
}

/// The rules applied in table order, stopping once an action gives
/// the call up.
pub open spec fn rules_fold(
    rules: Seq<RuleRow>,
    settings: Seq<SettingRow>,
    whitelist: Seq<WhitelistRow>,
    hook: HookRow,
    args: Seq<ArgumentRow>,
    src_prog: Seq<char>,
    auth: AuthFacts,
    tfacts: TerminateFacts,
    wfacts: WriteFacts,
    st: PipeState,
) -> PipeState
    decreases rules.len(),
{
    if rules.len() == 0 || st.aborted {
        st
    } else {
        rules_fold(
            rules.drop_first(),
            settings,
            whitelist,
            hook,
            args,
            src_prog,
            auth,
            tfacts,
            wfacts,
            rule_step(rules[0], settings, whitelist, hook, args, src_prog, auth, tfacts, wfacts, st),
        )
    }
}

/// While enforcement is off, or while the environment credential is
/// accepted, every rule passes the call untouched.
pub proof fn lemma_fold_passes(
    rules: Seq<RuleRow>,
    settings: Seq<SettingRow>,
    whitelist: Seq<WhitelistRow>,
    hook: HookRow,
    args: Seq<ArgumentRow>,
    src_prog: Seq<char>,
    auth: AuthFacts,
    tfacts: TerminateFacts,
    wfacts: WriteFacts,
    st: PipeState,
)
    requires
        !prevention_on(settings) || env_auth_ok(settings, auth),
    ensures
        rules_fold(rules, settings, whitelist, hook, args, src_prog, auth, tfacts, wfacts, st)
            == st,
    decreases rules.len(),
{
    if rules.len() > 0 && !st.aborted {
        assert(rule_step(
            rules[0],
            settings,
            whitelist,
            hook,
            args,
            src_prog,
            auth,
            tfacts,
            wfacts,
            st,
        ) == st);
        lemma_fold_passes(
            rules.drop_first(),
            settings,
            whitelist,
            hook,
            args,
            src_prog,
            auth,
            tfacts,
            wfacts,
            st,
        );
    }
}

/// What the dispatcher decides for the host shim: call the real
/// function, return the synthetic value instead, or abort because
/// the call could not be judged.
#[derive(Clone, Copy, Debug, PartialEq, Eq, Structural)]
pub enum CallDecision {
    CallReal,
    Synthetic { value: i64 },
    Abort,
}

/// Everything the dispatcher hands back: the decision, the final
/// invocation (whose argument values the real call would use), and
/// the events and diagnostics to emit.
pub struct DispatchOutput {
    pub decision: CallDecision,
    pub inv: HookInvocation,
    pub logs: Vec<LogEvent>,
    pub diagnostics: Vec<String>,
}

/// Every fact the host shim gathers before dispatching: credentials,
/// service identities and decoded pointer arguments.
pub struct DispatchFacts {
    pub auth: AuthFacts,
    pub terminate: TerminateFacts,
    pub write: WriteFacts,
}

/// The dispatcher's whole contract over the rules fold.  Kept as one
/// predicate so the guarded entry point can restate it verbatim.
pub open spec fn dispatch_post(
    cache: PolicyCache,
    src_prog: Seq<char>,
    hook: HookRow,
    reals: Seq<usize>,
    facts: DispatchFacts,
    out: DispatchOutput,
) -> bool {
    let margs = marshaled_args(cache.arguments@, hook.id, reals);
    let st = rules_fold(
        cache.rules@,
        cache.settings@,
        cache.whitelist@,
        hook,
        margs,
        src_prog,
        facts.auth,
        facts.terminate,
        facts.write,
        init_state(),
    );
    &&& out.inv.hook == hook
    &&& out.inv.args@ == margs
    &&& out.inv.do_return == st.do_return
    &&& out.inv.return_value == st.return_value
    &&& log_views(out.logs@) == st.logs
    &&& out.diagnostics.deep_view() == st.diags
    &&& (st.aborted ==> out.decision is Abort)
    &&& (!st.aborted && st.do_return ==> out.decision == CallDecision::Synthetic {
        value: st.return_value,
    })
    &&& (!st.aborted && !st.do_return ==> out.decision == CallDecision::CallReal)
    &&& (!prevention_on(cache.settings@) ==> out.decision == CallDecision::CallReal
        && out.logs@.len() == 0 && out.diagnostics@.len() == 0)
    &&& (env_auth_ok(cache.settings@, facts.auth) ==> out.decision == CallDecision::CallReal
        && out.logs@.len() == 0 && out.diagnostics@.len() == 0)
}

/// The preconditions under which the dispatcher can judge a call:
/// well-formed settings, one captured register value per formal
/// argument, and the decoded facts each action that might run will
/// need.
pub open spec fn dispatch_pre(
    cache: PolicyCache,
    hook: HookRow,
    reals: Seq<usize>,
    facts: DispatchFacts,
) -> bool {
    &&& wf_settings(cache.settings@)
    &&& formals_sorted(cache.arguments@, hook.id).len() == reals.len()
    &&& facts.terminate.service_pgid != i32::MIN
    &&& (is_fopen_family(hook) ==> facts.write.mode_string is Some)
    &&& (is_open_family(hook) ==> reals.len() >= 3)
    &&& match facts.write.canonical_path {
        Some(c) => c@.len() > 0 && c@[0] == '/',
        None => true,
    }
}

/// Marshals the call and applies every rule bound to one of its
/// arguments, in table order.
#[verifier::loop_isolation(false)]
pub fn dispatch(
    cache: &PolicyCache,
    src_prog: &str,
    hook: &HookRow,
    reals: &Vec<usize>,
    facts: &DispatchFacts,
) -> (out: DispatchOutput)
    requires
        dispatch_pre(*cache, *hook, reals@, *facts),
    ensures
        dispatch_post(*cache, src_prog@, *hook, reals@, *facts, out),
{
    let ghost margs = marshaled_args(cache.arguments@, hook.id, reals@);
    let args = marshal_arguments(cache, hook.id, reals);
    let mut inv = HookInvocation {
        hook: hook.duplicate(),
        args,
        do_return: false,
        return_value: 0,
    };
    let mut logs: Vec<LogEvent> = Vec::new();
    let mut diags: Vec<String> = Vec::new();
    let rules = &cache.rules;
    let n = rules.len();
    let mut i: usize = 0;
    let ghost full = rules_fold(
        rules@,
        cache.settings@,
        cache.whitelist@,
        *hook,
        margs,
        src_prog@,
        facts.auth,
        facts.terminate,
        facts.write,
        init_state(),
    );
    proof {
        assert(rules@.skip(0) =~= rules@);
        assert(log_views(logs@) =~= Seq::<LogView>::empty());
        assert(diags.deep_view() =~= Seq::<Seq<char>>::empty());
    }
    while i < n
        invariant
            i <= n,
            n == rules@.len(),
            inv.hook == *hook,
            inv.args@ == margs,
            rules_fold(
                rules@.skip(i as int),
                cache.settings@,
                cache.whitelist@,
                *hook,
                margs,
                src_prog@,
                facts.auth,
                facts.terminate,
                facts.write,
                PipeState {
                    do_return: inv.do_return,
                    return_value: inv.return_value,
                    logs: log_views(logs@),
                    diags: diags.deep_view(),
                    aborted: false,
                },
            ) == full,
        decreases n - i,
    {
        let ghost cur = PipeState {
            do_return: inv.do_return,
            return_value: inv.return_value,
            logs: log_views(logs@),
            diags: diags.deep_view(),
            aborted: false,
        };
        proof {
            assert(rules@.skip(i as int).len() > 0);
            assert(rules@.skip(i as int)[0] == rules@[i as int]);
            assert(rules@.skip(i as int).drop_first() =~= rules@.skip(i + 1));
        }
        let rule_arg = rules[i].arg;
        let matched = crate::action::find_arg_index(&inv.args, rule_arg);
        match matched {
            None => {},
            Some(found) => {
                proof {
                    lemma_first_match_holds(inv.args@, crate::action::arg_id_pred(rule_arg));
                    assert(inv.args@[found as int].id == rule_arg);
                }
                if str_eq(rules[i].action.as_str(), "VerifyCanTerminate") {
                    let acted = verify_can_terminate(
                        cache,
                        src_prog,
                        rule_arg,
                        inv,
                        &facts.auth,
                        &facts.terminate,
                    );
                    inv = acted.inv;
                    let ghost prev_logs = log_views(logs@);
                    let ghost prev_diags = diags.deep_view();
                    match acted.log {
                        Some(event) => {
                            logs.push(event);
                            proof {
                                assert(log_views(logs@) =~= prev_logs.push(
                                    LogView {
                                        severity: logs@.last().severity,
                                        message: logs@.last().message@,
                                    },
                                ));
                            }
                        },
                        None => {},
                    }
                    match acted.diagnostic {
                        Some(line) => {
                            diags.push(line);
                            proof {
                                assert(diags.deep_view() =~= prev_diags.push(
                                    diags@.last()@,
                                ));
                            }
                        },
                        None => {},
                    }
                } else if str_eq(rules[i].action.as_str(), "VerifyCanWrite") {
                    let acted = verify_can_write(
                        cache,
                        src_prog,
                        rule_arg,
                        inv,
                        &facts.auth,
                        &facts.write,
                    );
                    inv = acted.inv;
                    let ghost prev_logs = log_views(logs@);
                    let ghost prev_diags = diags.deep_view();
                    match acted.log {
                        Some(event) => {
                            logs.push(event);
                            proof {
                                assert(log_views(logs@) =~= prev_logs.push(
                                    LogView {
                                        severity: logs@.last().severity,
                                        message: logs@.last().message@,
                                    },
                                ));
                            }
                        },
                        None => {},
                    }
                    match acted.diagnostic {
                        Some(line) => {
                            diags.push(line);
                            proof {
                                assert(diags.deep_view() =~= prev_diags.push(
                                    diags@.last()@,
                                ));
                            }
                        },
                        None => {},
                    }
                    match acted.aborted {
                        Some(_reason) => {
                            proof {
                                let st_aborted = rule_step(
                                    rules@[i as int],
                                    cache.settings@,
                                    cache.whitelist@,
                                    *hook,
                                    margs,
                                    src_prog@,
                                    facts.auth,
                                    facts.terminate,
                                    facts.write,
                                    cur,
                                );
                                assert(st_aborted.aborted);
                                assert(rules_fold(
                                    rules@.skip(i + 1),
                                    cache.settings@,
                                    cache.whitelist@,
                                    *hook,
                                    margs,
                                    src_prog@,
                                    facts.auth,
                                    facts.terminate,
                                    facts.write,
                                    st_aborted,
                                ) == st_aborted);
                            }
                            return DispatchOutput {
                                decision: CallDecision::Abort,
                                inv,
                                logs,
                                diagnostics: diags,
                            };
                        },
                        None => {},
                    }
                }
            },
        }
        i += 1;
    }
    proof {
        assert(rules@.skip(n as int) =~= Seq::<RuleRow>::empty());
        let cur = PipeState {
            do_return: inv.do_return,
            return_value: inv.return_value,
            logs: log_views(logs@),
            diags: diags.deep_view(),
            aborted: false,
        };
        assert(rules_fold(
            rules@.skip(n as int),
            cache.settings@,
            cache.whitelist@,
            *hook,
            margs,
            src_prog@,
            facts.auth,
            facts.terminate,
            facts.write,
            cur,
        ) == cur);
        assert(cur == full);
        if !prevention_on(cache.settings@) || env_auth_ok(cache.settings@, facts.auth) {
            lemma_fold_passes(
                rules@,
                cache.settings@,
                cache.whitelist@,
                *hook,
                margs,
                src_prog@,
                facts.auth,
                facts.terminate,
                facts.write,
                init_state(),
            );
        }
    }
    let decision = if inv.do_return {
        CallDecision::Synthetic { value: inv.return_value }
    } else {
        CallDecision::CallReal
    };
    DispatchOutput { decision, inv, logs, diagnostics: diags }
}

/// The per-thread reentry guard: hooked calls made while the
/// dispatcher is already running on this thread must go straight to
/// the real symbol.
pub struct ReentryGuard {
    pub active: bool,
}

impl ReentryGuard {
    /// A fresh thread starts outside the dispatcher.
    pub fn new() -> (g: ReentryGuard)
        ensures
            !g.active,
    {
        ReentryGuard { active: false }
    }
}

/// What a hooked call's wrapper should do.
pub enum HookOutcome {
    /// The dispatcher was already running on this thread: call the
    /// real symbol at once, with the original arguments.
    Bypass,
    /// The call was judged; act on the dispatcher's output.
    Dispatched { output: DispatchOutput },
}

/// The guarded entry point of every hook wrapper.  A call arriving
/// while the guard is held — that is, from within an action of this
/// very dispatcher — never reaches the dispatcher again: it is told
/// to bypass, and the guard is left exactly as it was.  Otherwise
/// the guard is held for the span of the dispatch and released
/// before returning.
pub fn hook_entry(
    guard: &mut ReentryGuard,
    cache: &PolicyCache,
    src_prog: &str,
    hook: &HookRow,
    reals: &Vec<usize>,
    facts: &DispatchFacts,
) -> (r: HookOutcome)
    requires
        !old(guard).active ==> dispatch_pre(*cache, *hook, reals@, *facts),
    ensures
        old(guard).active ==> r is Bypass && *final(guard) == *old(guard),
        !old(guard).active ==> !final(guard).active && r is Dispatched && dispatch_post(
            *cache,
            src_prog@,
            *hook,
            reals@,
            *facts,
            r->output,
        ),
{
    if guard.active {
        return HookOutcome::Bypass;
    }
    guard.active = true;
    let output = dispatch(cache, src_prog, hook, reals, facts);
    guard.active = false;
    HookOutcome::Dispatched { output }
}

} // verus!
