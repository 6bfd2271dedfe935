use whitebeam::action::{verify_can_terminate, HookInvocation, LogSeverity, TerminateFacts};
use whitebeam::auth::AuthFacts;
use whitebeam::db::PolicyCache;
use whitebeam::rows::{ArgumentRow, HookRow, SettingRow};

fn setting(param: &str, value: &str) -> SettingRow {
    SettingRow { param: param.to_string(), value: value.to_string() }
}

fn base_settings(prevention: &str) -> Vec<SettingRow> {
    vec![
        setting("Prevention", prevention),
        setting("ConsoleSecret", "undefined"),
        setting("RecoverySecret", "undefined"),
        setting("ConsoleSecretExpiry", "0"),
    ]
}

fn cache_with(settings: Vec<SettingRow>) -> PolicyCache {
    PolicyCache {
        hooks: vec![],
        arguments: vec![],
        whitelist: vec![],
        action_arguments: vec![],
        rules: vec![],
        settings,
        last_refresh: 0,
    }
}

fn kill_hook() -> HookRow {
    HookRow {
        language: "c".to_string(),
        library: "/lib/x86_64-linux-gnu/libc.so.6".to_string(),
        symbol: "kill".to_string(),
        id: 2,
    }
}

fn pid_arg(real: usize) -> ArgumentRow {
    ArgumentRow {
        hook: 2,
        parent: None,
        id: 20,
        position: 0,
        real,
        datatype: "pid_t".to_string(),
        pointer: false,
        signed: true,
        variadic: false,
        array: false,
    }
}

fn invocation(args: Vec<ArgumentRow>) -> HookInvocation {
    HookInvocation { hook: kill_hook(), args, do_return: false, return_value: 0 }
}

fn no_auth() -> AuthFacts {
    AuthFacts { wb_auth: None, now: 100 }
}

fn service(pid: i32, pgid: i32, uid: u32) -> TerminateFacts {
    TerminateFacts { service_pid: pid, service_pgid: pgid, uid }
}

const MINUS_ONE: usize = usize::MAX;

#[test]
fn kill_minus_one_as_root_denied() {
    let cache = cache_with(base_settings("true"));
    let out = verify_can_terminate(
        &cache,
        "/usr/bin/pkill",
        20,
        invocation(vec![pid_arg(MINUS_ONE)]),
        &no_auth(),
        &service(4242, 4242, 0),
    );
    assert!(out.inv.do_return);
    assert_eq!(out.inv.return_value, -1);
    assert_eq!(
        out.diagnostic.as_deref(),
        Some("WhiteBeam: kill (-1): Operation not permitted")
    );
    let event = out.log.expect("a warn event is owed on denial");
    assert!(matches!(event.severity, LogSeverity::Warn));
    assert_eq!(
        event.message,
        "Blocked /usr/bin/pkill from killing WhiteBeam service (VerifyCanTerminate)"
    );
}

#[test]
fn kill_minus_one_as_ordinary_user_passes() {
    let cache = cache_with(base_settings("true"));
    let out = verify_can_terminate(
        &cache,
        "/usr/bin/pkill",
        20,
        invocation(vec![pid_arg(MINUS_ONE)]),
        &no_auth(),
        &service(4242, 4242, 1000),
    );
    assert!(!out.inv.do_return);
    assert!(out.log.is_none());
}

#[test]
fn kill_service_pid_denied() {
    let cache = cache_with(base_settings("true"));
    let out = verify_can_terminate(
        &cache,
        "/bin/kill",
        20,
        invocation(vec![pid_arg(4242)]),
        &no_auth(),
        &service(4242, 4242, 1000),
    );
    assert!(out.inv.do_return);
    assert_eq!(out.inv.return_value, -1);
    assert_eq!(
        out.diagnostic.as_deref(),
        Some("WhiteBeam: kill (4242): Operation not permitted")
    );
}

#[test]
fn kill_service_process_group_denied() {
    let cache = cache_with(base_settings("true"));
    // Killing the negated process group id aims at the service's
    // whole group.
    let neg_pgid = (-4242i64) as usize;
    let out = verify_can_terminate(
        &cache,
        "/bin/kill",
        20,
        invocation(vec![pid_arg(neg_pgid)]),
        &no_auth(),
        &service(7, 4242, 1000),
    );
    assert!(out.inv.do_return);
    assert_eq!(out.inv.return_value, -1);
}

#[test]
fn kill_unrelated_pid_passes() {
    let cache = cache_with(base_settings("true"));
    let out = verify_can_terminate(
        &cache,
        "/bin/kill",
        20,
        invocation(vec![pid_arg(777)]),
        &no_auth(),
        &service(4242, 4242, 0),
    );
    assert!(!out.inv.do_return);
    assert!(out.log.is_none());
    assert!(out.diagnostic.is_none());
}

#[test]
fn prevention_off_passes_kill() {
    let cache = cache_with(base_settings("false"));
    let out = verify_can_terminate(
        &cache,
        "/bin/kill",
        20,
        invocation(vec![pid_arg(4242)]),
        &no_auth(),
        &service(4242, 4242, 0),
    );
    assert!(!out.inv.do_return);
    assert!(out.log.is_none());
}
