//! The two mandatory policy actions: refusing writes outside
//! whitelisted directories and refusing signals aimed at the
//! service.  Each action takes the facts the host shim gathered
//! (credentials, canonical paths, process identities) and rewrites
//! the invocation, with every branch of the decision pinned down.

use vstd::prelude::*;

use crate::auth::{env_auth_ok, get_valid_auth_env, AuthFacts};
use crate::db::{get_prevention, prevention_on, wf_settings, PolicyCache};
use crate::numparse::{i32_dec_string, int_dec_string};
use crate::pathutil::{basename_of, concat_str, parent_of, path_basename, path_parent};
use crate::rows::{ArgumentRow, HookRow, SettingRow};
use crate::util::{first_match, lemma_first_match_found, lemma_first_match_step, str_eq};
use crate::whitelist::{
    allowed_dirs, any_pattern_matches, contains_any, get_allowed_directories, glob_verdict,
    has_any_entry,
};

verus! {

// Flag bits of the open family and of the *at calls, as Linux
// declares them for this target.
pub const O_WRONLY: usize = 1;

pub const O_RDWR: usize = 2;

pub const O_CREAT: usize = 64;

pub const O_EXCL: usize = 128;

pub const O_TRUNC: usize = 512;

pub const O_APPEND: usize = 1024;

pub const O_TMPFILE: usize = 4259840;

pub const WRITE_FLAGS: usize = O_RDWR | O_WRONLY | O_CREAT | O_EXCL | O_TMPFILE | O_APPEND
    | O_TRUNC;

pub const AT_EMPTY_PATH: usize = 4096;

/// How grave a log event is.
#[derive(Clone, Copy, PartialEq, Eq, Structural)]
pub enum LogSeverity {
    Info,
    Warn,
    Error,
}

/// One event for the host-side collector.
pub struct LogEvent {
    pub severity: LogSeverity,
    pub message: String,
}

/// A hooked call in flight: the hook, its marshalled arguments, and
/// whether a synthetic return has been decided.
pub struct HookInvocation {
    pub hook: HookRow,
    pub args: Vec<ArgumentRow>,
    pub do_return: bool,
    pub return_value: i64,
}

/// What an action leaves behind: the rewritten invocation, at most
/// one log event and one standard-error line, and — where the call
/// cannot be judged at all — a fatal diagnostic.
pub struct ActionOutput {
    pub inv: HookInvocation,
    pub log: Option<LogEvent>,
    pub diagnostic: Option<String>,
    pub aborted: Option<String>,
}

/// Process identities the termination check needs, gathered by the
/// host shim: the service's pid (from its pid file), that pid's
/// process group, and the calling process's effective uid.
pub struct TerminateFacts {
    pub service_pid: i32,
    pub service_pgid: i32,
    pub uid: u32,
}

/// Decoded views of the write-check's pointer arguments, gathered by
/// the host shim: the canonical path of the file descriptor under
/// evaluation, the `fopen` mode string, and the path string that
/// follows the descriptor argument in `*at` calls.
pub struct WriteFacts {
    pub canonical_path: Option<String>,
    pub mode_string: Option<String>,
    pub path_after: Option<String>,
}

pub open spec fn libc_path() -> Seq<char> {
    "/lib/x86_64-linux-gnu/libc.so.6"@
}

pub open spec fn is_libc(hook: HookRow) -> bool {
    hook.library@ == libc_path()
}

/// The stream-open calls, whose second argument is a mode string and
/// which return a null stream on denial.
pub open spec fn is_fopen_family(hook: HookRow) -> bool {
    &&& is_libc(hook)
    &&& (hook.symbol@ == "fdopen"@ || hook.symbol@ == "fopen"@ || hook.symbol@ == "fopen64"@)
}

/// The open calls, whose third argument is a flags word.
pub open spec fn is_open_family(hook: HookRow) -> bool {
    &&& is_libc(hook)
    &&& (hook.symbol@ == "open"@ || hook.symbol@ == "open64"@ || hook.symbol@ == "openat"@
        || hook.symbol@ == "openat64"@ || hook.symbol@ == "__open"@ || hook.symbol@ == "__open_2"@
        || hook.symbol@ == "__open64"@ || hook.symbol@ == "__open64_2"@ || hook.symbol@
        == "__openat_2"@ || hook.symbol@ == "__openat64_2"@)
}

/// The calls whose evaluated argument is a descriptor naming the
/// file itself rather than a directory.
pub open spec fn is_fd_only(hook: HookRow) -> bool {
    &&& is_libc(hook)
    &&& (hook.symbol@ == "fopen"@ || hook.symbol@ == "fopen64"@ || hook.symbol@ == "truncate"@
        || hook.symbol@ == "truncate64"@ || hook.symbol@ == "fchmod"@ || hook.symbol@ == "fchown"@
        || hook.symbol@ == "fdopen"@ || hook.symbol@ == "ftruncate"@ || hook.symbol@
        == "ftruncate64"@)
}

/// The `*at` calls whose last argument may carry `AT_EMPTY_PATH`.
pub open spec fn is_at_flag_call(hook: HookRow) -> bool {
    &&& is_libc(hook)
    &&& (hook.symbol@ == "fchownat"@ || hook.symbol@ == "linkat"@)
}

fn hook_is_libc(hook: &HookRow) -> (r: bool)
    ensures
        r == is_libc(*hook),
{
    str_eq(hook.library.as_str(), "/lib/x86_64-linux-gnu/libc.so.6")
}

fn hook_is_fopen_family(hook: &HookRow) -> (r: bool)
    ensures
        r == is_fopen_family(*hook),
{
    hook_is_libc(hook) && (str_eq(hook.symbol.as_str(), "fdopen") || str_eq(
        hook.symbol.as_str(),
        "fopen",
    ) || str_eq(hook.symbol.as_str(), "fopen64"))
}

fn hook_is_open_family(hook: &HookRow) -> (r: bool)
    ensures
        r == is_open_family(*hook),
{
    let s = hook.symbol.as_str();
    hook_is_libc(hook) && (str_eq(s, "open") || str_eq(s, "open64") || str_eq(s, "openat")
        || str_eq(s, "openat64") || str_eq(s, "__open") || str_eq(s, "__open_2") || str_eq(
        s,
        "__open64",
    ) || str_eq(s, "__open64_2") || str_eq(s, "__openat_2") || str_eq(s, "__openat64_2"))
}

fn hook_is_fd_only(hook: &HookRow) -> (r: bool)
    ensures
        r == is_fd_only(*hook),
{
    let s = hook.symbol.as_str();
    hook_is_libc(hook) && (str_eq(s, "fopen") || str_eq(s, "fopen64") || str_eq(s, "truncate")
        || str_eq(s, "truncate64") || str_eq(s, "fchmod") || str_eq(s, "fchown") || str_eq(
        s,
        "fdopen",
    ) || str_eq(s, "ftruncate") || str_eq(s, "ftruncate64"))
}

fn hook_is_at_flag_call(hook: &HookRow) -> (r: bool)
    ensures
        r == is_at_flag_call(*hook),
{
    hook_is_libc(hook) && (str_eq(hook.symbol.as_str(), "fchownat") || str_eq(
        hook.symbol.as_str(),
        "linkat",
    ))
}

pub open spec fn seq_has_char(s: Seq<char>, c: char) -> bool {
    exists|i: int| 0 <= i < s.len() && s[i] == c
}

#[verifier::loop_isolation(false)]
fn str_has_char(s: &str, c: char) -> (r: bool)
    ensures
        r == seq_has_char(s@, c),
{
    let n = s.unicode_len();
    let mut i: usize = 0;
    while i < n
        invariant
            i <= n,
            n == s@.len(),
            forall|j: int| 0 <= j < i ==> s@[j] != c,
        decreases n - i,
    {
        if s.get_char(i) == c {
            return true;
        }
        i += 1;
    }
    false
}

/// A mode string that opens for reading only: none of `w`, `a`, `+`.
pub open spec fn mode_read_only(mode: Seq<char>) -> bool {
    !seq_has_char(mode, 'w') && !seq_has_char(mode, 'a') && !seq_has_char(mode, '+')
}

/// Whether the hooked call only reads: a read-only mode string for
/// the stream opens, no writing flag for the open family, and
/// nothing else.
pub open spec fn read_only_call(hook: HookRow, args: Seq<ArgumentRow>, facts: WriteFacts) -> bool {
    if is_fopen_family(hook) {
        match facts.mode_string {
            Some(m) => mode_read_only(m@),
            None => false,
        }
    } else if is_open_family(hook) {
        args[2].real & WRITE_FLAGS == 0
    } else {
        false
    }
}

/// Whether resolving the write target needs the path string after
/// the descriptor argument.
pub open spec fn needs_path_after(hook: HookRow, args: Seq<ArgumentRow>) -> bool {
    if is_fd_only(hook) {
        false
    } else if is_at_flag_call(hook) {
        args.last().real & AT_EMPTY_PATH == 0
    } else {
        true
    }
}

/// The target directory and file name of the write under
/// evaluation.  For descriptor-only calls — and for `*at` calls
/// whose flags carry `AT_EMPTY_PATH` — the canonical path names the
/// file; otherwise it names the directory and the path argument
/// names the file.
pub open spec fn resolved_target(
    hook: HookRow,
    args: Seq<ArgumentRow>,
    canon: Seq<char>,
    path_after: Option<String>,
) -> (Seq<char>, Seq<char>) {
    if is_fd_only(hook) {
        (parent_of(canon), basename_of(canon))
    } else if is_at_flag_call(hook) && args.last().real & AT_EMPTY_PATH != 0 {
        (parent_of(canon), basename_of(canon))
    } else {
        (canon, path_after.unwrap()@)
    }
}

/// The write check's outcome: pass the call through, force a
/// synthetic error return, or give the call up as unjudgeable.
pub enum WriteVerdict {
    Pass,
    Deny { retval: i64, target_directory: Seq<char>, full_path: Seq<char> },
    Abort,
}

/// The whole write check, in order: audit-only mode, a valid bypass
/// credential, a read-only call and a whitelist `ANY` entry each
/// pass the call; then the target is resolved and passes if it is
/// `/dev/tty` or `/dev/null` or a whitelisted pattern covers its
/// directory; anything else is denied.  An unresolvable descriptor
/// or a malformed pattern aborts the call.
pub open spec fn write_verdict(
    settings: Seq<SettingRow>,
    whitelist: Seq<crate::rows::WhitelistRow>,
    hook: HookRow,
    args: Seq<ArgumentRow>,
    src_prog: Seq<char>,
    auth: AuthFacts,
    facts: WriteFacts,
) -> WriteVerdict {
    if !prevention_on(settings) {
        WriteVerdict::Pass
    } else if env_auth_ok(settings, auth) {
        WriteVerdict::Pass
    } else if read_only_call(hook, args, facts) {
        WriteVerdict::Pass
    } else {
        let dirs = allowed_dirs(whitelist, src_prog);
        if contains_any(dirs) {
            WriteVerdict::Pass
        } else {
            match facts.canonical_path {
                None => WriteVerdict::Abort,
                Some(canon) => if needs_path_after(hook, args) && facts.path_after is None {
                    WriteVerdict::Abort
                } else {
                    let target = resolved_target(hook, args, canon@, facts.path_after);
                    let target_directory = target.0 + "/"@;
                    let full_path = target_directory + target.1;
                    if full_path == "/dev/tty"@ || full_path == "/dev/null"@ {
                        WriteVerdict::Pass
                    } else {
                        match glob_verdict(dirs, target_directory) {
                            None => WriteVerdict::Abort,
                            Some(true) => WriteVerdict::Pass,
                            Some(false) => WriteVerdict::Deny {
                                retval: if is_fopen_family(hook) {
                                    0i64
                                } else {
                                    -1i64
                                },
                                target_directory,
                                full_path,
                            },
                        }
                    }
                },
            }

        }
    }
}

/// Refuses writes outside the whitelisted directories.
#[verifier::loop_isolation(false)]
pub fn verify_can_write(
    cache: &PolicyCache,
    src_prog: &str,
    arg_id: i64,
    inv: HookInvocation,
    auth: &AuthFacts,
    facts: &WriteFacts,
) -> (out: ActionOutput)
    requires
        wf_settings(cache.settings@),
        exists|i: int| 0 <= i < inv.args@.len() && #[trigger] inv.args@[i].id == arg_id,
        is_fopen_family(inv.hook) ==> facts.mode_string is Some,
        is_open_family(inv.hook) ==> inv.args@.len() >= 3,
        match facts.canonical_path {
            Some(c) => c@.len() > 0 && c@[0] == '/',
            None => true,
        },
    ensures
        ({
            let verdict = write_verdict(
                cache.settings@,
                cache.whitelist@,
                inv.hook,
                inv.args@,
                src_prog@,
                *auth,
                *facts,
            );
            match verdict {
                WriteVerdict::Pass => out.inv == inv && out.log is None && out.diagnostic is None
                    && out.aborted is None,
                WriteVerdict::Deny { retval, target_directory, full_path } => {
                    &&& out.inv.hook == inv.hook
                    &&& out.inv.args == inv.args
                    &&& out.inv.do_return == true
                    &&& out.inv.return_value == retval
                    &&& out.log is Some
                    &&& out.log.unwrap().severity == LogSeverity::Warn
                    &&& out.log.unwrap().message@ == "Blocked "@ + src_prog@
                        + " from writing to "@ + target_directory + " (VerifyCanWrite)"@
                    &&& out.diagnostic is Some
                    &&& out.diagnostic.unwrap()@ == "WhiteBeam: "@ + full_path
                        + ": Permission denied"@
                    &&& out.aborted is None
                },
                WriteVerdict::Abort => out.inv == inv && out.log is None && out.diagnostic
                    is None && out.aborted is Some,
            }
        }),
{
    let mut inv = inv;
    if !get_prevention(cache) {
        return ActionOutput { inv, log: None, diagnostic: None, aborted: None };
    }
    if get_valid_auth_env(cache, auth) {
        return ActionOutput { inv, log: None, diagnostic: None, aborted: None };
    }
    let fopen_family = hook_is_fopen_family(&inv.hook);
    let open_family = hook_is_open_family(&inv.hook);
    let read_only: bool = if fopen_family {
        match &facts.mode_string {
            Some(m) => !(str_has_char(m.as_str(), 'w') || str_has_char(m.as_str(), 'a')
                || str_has_char(m.as_str(), '+')),
            None => false,
        }
    } else if open_family {
        (inv.args[2].real & WRITE_FLAGS) == 0
    } else {
        false
    };
    if read_only {
        return ActionOutput { inv, log: None, diagnostic: None, aborted: None };
    }
    let dirs = get_allowed_directories(cache, src_prog);
    if has_any_entry(&dirs) {
        return ActionOutput { inv, log: None, diagnostic: None, aborted: None };
    }
    let canon: String = match &facts.canonical_path {
        Some(c) => c.clone(),
        None => {
            return ActionOutput {
                inv,
                log: None,
                diagnostic: None,
                aborted: Some(String::from_str("WhiteBeam: Lost track of environment")),
            };
        },
    };
    let fd_only = hook_is_fd_only(&inv.hook);
    let at_flag = hook_is_at_flag_call(&inv.hook);
    proof {
        let i = choose|i: int| 0 <= i < inv.args@.len() && inv.args@[i].id == arg_id;
        assert(inv.args@.len() > 0);
    }
    let take_fd_path: bool = if fd_only {
        true
    } else if at_flag {
        let last_index = inv.args.len() - 1;
        (inv.args[last_index].real & AT_EMPTY_PATH) != 0
    } else {
        false
    };
    let target_pair: (String, String) = if take_fd_path {
        (path_parent(canon.as_str()), path_basename(canon.as_str()))
    } else {
        match &facts.path_after {
            Some(p) => (canon.clone(), p.clone()),
            None => {
                return ActionOutput {
                    inv,
                    log: None,
                    diagnostic: None,
                    aborted: Some(String::from_str("WhiteBeam: Lost track of environment")),
                };
            },
        }
    };
    let target_directory = concat_str(target_pair.0.as_str(), "/");
    let full_path = concat_str(target_directory.as_str(), target_pair.1.as_str());
    if str_eq(full_path.as_str(), "/dev/tty") || str_eq(full_path.as_str(), "/dev/null") {
        return ActionOutput { inv, log: None, diagnostic: None, aborted: None };
    }
    match any_pattern_matches(&dirs, target_directory.as_str()) {
        None => {
            return ActionOutput {
                inv,
                log: None,
                diagnostic: None,
                aborted: Some(String::from_str("WhiteBeam: Invalid glob pattern")),
            };
        },
        Some(true) => {
            return ActionOutput { inv, log: None, diagnostic: None, aborted: None };
        },
        Some(false) => {},
    }
    let retval: i64 = if fopen_family {
        0
    } else {
        -1
    };
    let mut message = String::from_str("Blocked ");
    message.append(src_prog);
    message.append(" from writing to ");
    message.append(target_directory.as_str());
    message.append(" (VerifyCanWrite)");
    let mut diagnostic = String::from_str("WhiteBeam: ");
    diagnostic.append(full_path.as_str());
    diagnostic.append(": Permission denied");
    inv.do_return = true;
    inv.return_value = retval;
    ActionOutput {
        inv,
        log: Some(LogEvent { severity: LogSeverity::Warn, message }),
        diagnostic: Some(diagnostic),
        aborted: None,
    }
}

pub open spec fn arg_id_pred(arg_id: i64) -> spec_fn(ArgumentRow) -> bool {
    |a: ArgumentRow| a.id == arg_id
}

/// The argument an action is bound to: the first one carrying its
/// id.
pub open spec fn arg_for_id(args: Seq<ArgumentRow>, arg_id: i64) -> Option<ArgumentRow> {
    first_match(args, arg_id_pred(arg_id))
}

#[verifier::loop_isolation(false)]
pub fn find_arg_index(args: &Vec<ArgumentRow>, arg_id: i64) -> (r: Option<usize>)
    ensures
        match r {
            Some(i) => i < args@.len() && arg_for_id(args@, arg_id) == Some(args@[i as int]),
            None => arg_for_id(args@, arg_id) is None,
        },
{
    let n = args.len();
    let mut i: usize = 0;
    proof {
        assert(args@.skip(0) =~= args@);
    }
    while i < n
        invariant
            i <= n,
            n == args@.len(),
            first_match(args@.skip(i as int), arg_id_pred(arg_id)) == first_match(
                args@,
                arg_id_pred(arg_id),
            ),
        decreases n - i,
    {
        if args[i].id == arg_id {
            proof {
                lemma_first_match_found(args@, arg_id_pred(arg_id), i as int);
            }
            return Some(i);
        }
        proof {
            lemma_first_match_step(args@, arg_id_pred(arg_id), i as int);
        }
        i += 1;
    }
    proof {
        assert(args@.skip(n as int) =~= Seq::<ArgumentRow>::empty());
    }
    None
}

/// The termination check's outcome.
pub enum TerminateVerdict {
    Pass,
    Deny { pid: i32 },
}

/// The whole termination check: audit-only mode and a valid bypass
/// credential pass the call; otherwise the signal is refused when it
/// aims at the service's pid, at its process group, or at every
/// process while the caller is root.
pub open spec fn terminate_verdict(
    settings: Seq<SettingRow>,
    args: Seq<ArgumentRow>,
    arg_id: i64,
    auth: AuthFacts,
    facts: TerminateFacts,
) -> TerminateVerdict {
    if !prevention_on(settings) {
        TerminateVerdict::Pass
    } else if env_auth_ok(settings, auth) {
        TerminateVerdict::Pass
    } else {
        let pid = arg_for_id(args, arg_id).unwrap().real as i32;
        if pid == facts.service_pid || pid == -facts.service_pgid || (pid == -1 && facts.uid
            == 0) {
            TerminateVerdict::Deny { pid }
        } else {
            TerminateVerdict::Pass
        }
    }
}

/// Refuses signals aimed at the service.
pub fn verify_can_terminate(
    cache: &PolicyCache,
    src_prog: &str,
    arg_id: i64,
    inv: HookInvocation,
    auth: &AuthFacts,
    facts: &TerminateFacts,
) -> (out: ActionOutput)
    requires
        wf_settings(cache.settings@),
        arg_for_id(inv.args@, arg_id) is Some,
        facts.service_pgid != i32::MIN,
    ensures
        ({
            let verdict = terminate_verdict(
                cache.settings@,
                inv.args@,
                arg_id,
                *auth,
                *facts,
            );
            match verdict {
                TerminateVerdict::Pass => out.inv == inv && out.log is None && out.diagnostic
                    is None && out.aborted is None,
                TerminateVerdict::Deny { pid } => {
                    &&& out.inv.hook == inv.hook
                    &&& out.inv.args == inv.args
                    &&& out.inv.do_return == true
                    &&& out.inv.return_value == -1
                    &&& out.log is Some
                    &&& out.log.unwrap().severity == LogSeverity::Warn
                    &&& out.log.unwrap().message@ == "Blocked "@ + src_prog@
                        + " from killing WhiteBeam service (VerifyCanTerminate)"@
                    &&& out.diagnostic is Some
                    &&& out.diagnostic.unwrap()@ == "WhiteBeam: kill ("@ + int_dec_string(
                        pid as int,
                    ) + "): Operation not permitted"@
                    &&& out.aborted is None
                },
            }
        }),
{
    let mut inv = inv;
    if !get_prevention(cache) {
        return ActionOutput { inv, log: None, diagnostic: None, aborted: None };
    }
    if get_valid_auth_env(cache, auth) {
        return ActionOutput { inv, log: None, diagnostic: None, aborted: None };
    }
    let pid_index = match find_arg_index(&inv.args, arg_id) {
        Some(i) => i,
        None => {
            proof {
                assert(false);
            }
            return ActionOutput { inv, log: None, diagnostic: None, aborted: None };
        },
    };
    let pid: i32 = #[verifier::truncate] (inv.args[pid_index].real as i32);
    if pid == facts.service_pid || pid == -facts.service_pgid || (pid == -1 && facts.uid == 0) {
        let mut message = String::from_str("Blocked ");
        message.append(src_prog);
        message.append(" from killing WhiteBeam service (VerifyCanTerminate)");
        let mut diagnostic = String::from_str("WhiteBeam: kill (");
        diagnostic.append(i32_dec_string(pid).as_str());
        diagnostic.append("): Operation not permitted");
        inv.do_return = true;
        inv.return_value = -1;
        ActionOutput {
            inv,
            log: Some(LogEvent { severity: LogSeverity::Warn, message }),
            diagnostic: Some(diagnostic),
            aborted: None,
        }
    } else {
        ActionOutput { inv, log: None, diagnostic: None, aborted: None }
    }
}

} // verus!
