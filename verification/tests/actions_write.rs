use whitebeam::action::{verify_can_write, HookInvocation, LogSeverity, WriteFacts};
use whitebeam::auth::AuthFacts;
use whitebeam::db::PolicyCache;
use whitebeam::rows::{ArgumentRow, HookRow, SettingRow, WhitelistRow};

fn setting(param: &str, value: &str) -> SettingRow {
    SettingRow { param: param.to_string(), value: value.to_string() }
}

fn base_settings(prevention: &str) -> Vec<SettingRow> {
    vec![
        setting("Prevention", prevention),
        setting("ConsoleSecret", "undefined"),
        setting("RecoverySecret", "undefined"),
        setting("ConsoleSecretExpiry", "0"),
    ]
}

fn wl(path: &str, value: &str) -> WhitelistRow {
    WhitelistRow {
        class: "Filesystem/Directory/Writable".to_string(),
        parent: String::new(),
        path: path.to_string(),
        value: value.to_string(),
    }
}

fn cache_with(settings: Vec<SettingRow>, whitelist: Vec<WhitelistRow>) -> PolicyCache {
    PolicyCache {
        hooks: vec![],
        arguments: vec![],
        whitelist,
        action_arguments: vec![],
        rules: vec![],
        settings,
        last_refresh: 0,
    }
}

fn libc_hook(symbol: &str) -> HookRow {
    HookRow {
        language: "c".to_string(),
        library: "/lib/x86_64-linux-gnu/libc.so.6".to_string(),
        symbol: symbol.to_string(),
        id: 1,
    }
}

fn arg(id: i64, position: i64, real: usize) -> ArgumentRow {
    ArgumentRow {
        hook: 1,
        parent: None,
        id,
        position,
        real,
        datatype: "x".to_string(),
        pointer: false,
        signed: false,
        variadic: false,
        array: false,
    }
}

fn invocation(hook: HookRow, args: Vec<ArgumentRow>) -> HookInvocation {
    HookInvocation { hook, args, do_return: false, return_value: 0 }
}

fn no_auth() -> AuthFacts {
    AuthFacts { wb_auth: None, now: 100 }
}

const O_WRONLY: usize = 1;
const O_TRUNC: usize = 512;

#[test]
fn open_dev_null_write_passes_without_whitelist() {
    let cache = cache_with(base_settings("true"), vec![]);
    let hook = libc_hook("open");
    let args = vec![arg(10, 0, 0), arg(11, 1, 0), arg(12, 2, O_WRONLY)];
    let facts = WriteFacts {
        canonical_path: Some("/dev".to_string()),
        mode_string: None,
        path_after: Some("null".to_string()),
    };
    let out = verify_can_write(&cache, "/usr/bin/foo", 10, invocation(hook, args), &no_auth(), &facts);
    assert!(!out.inv.do_return);
    assert!(out.log.is_none());
    assert!(out.diagnostic.is_none());
    assert!(out.aborted.is_none());
}

#[test]
fn open_read_only_passes() {
    let cache = cache_with(base_settings("true"), vec![]);
    let hook = libc_hook("open");
    let args = vec![arg(10, 0, 0), arg(11, 1, 0), arg(12, 2, 0)];
    let facts = WriteFacts {
        canonical_path: Some("/etc".to_string()),
        mode_string: None,
        path_after: Some("shadow".to_string()),
    };
    let out = verify_can_write(&cache, "/usr/bin/foo", 10, invocation(hook, args), &no_auth(), &facts);
    assert!(!out.inv.do_return);
    assert!(out.log.is_none());
}

#[test]
fn open_write_outside_whitelist_denied() {
    let cache = cache_with(base_settings("true"), vec![]);
    let hook = libc_hook("open");
    let args = vec![arg(10, 0, 0), arg(11, 1, 0), arg(12, 2, O_WRONLY)];
    let facts = WriteFacts {
        canonical_path: Some("/home/user".to_string()),
        mode_string: None,
        path_after: Some("x.txt".to_string()),
    };
    let out = verify_can_write(&cache, "/usr/bin/foo", 10, invocation(hook, args), &no_auth(), &facts);
    assert!(out.inv.do_return);
    assert_eq!(out.inv.return_value, -1);
    assert_eq!(
        out.diagnostic.as_deref(),
        Some("WhiteBeam: /home/user/x.txt: Permission denied")
    );
    let event = out.log.expect("a warn event is owed on denial");
    assert!(matches!(event.severity, LogSeverity::Warn));
    assert_eq!(
        event.message,
        "Blocked /usr/bin/foo from writing to /home/user/ (VerifyCanWrite)"
    );
}

#[test]
fn fopen_write_denied_returns_null_stream() {
    let cache = cache_with(base_settings("true"), vec![]);
    let hook = libc_hook("fopen");
    let args = vec![arg(10, 0, 0), arg(11, 1, 0)];
    let facts = WriteFacts {
        canonical_path: Some("/tmp/x".to_string()),
        mode_string: Some("w".to_string()),
        path_after: None,
    };
    let out = verify_can_write(&cache, "/usr/bin/tee", 10, invocation(hook, args), &no_auth(), &facts);
    assert!(out.inv.do_return);
    assert_eq!(out.inv.return_value, 0);
    assert_eq!(out.diagnostic.as_deref(), Some("WhiteBeam: /tmp/x: Permission denied"));
    assert_eq!(
        out.log.expect("a warn event is owed on denial").message,
        "Blocked /usr/bin/tee from writing to /tmp/ (VerifyCanWrite)"
    );
}

#[test]
fn fopen_read_only_mode_passes() {
    let cache = cache_with(base_settings("true"), vec![]);
    let hook = libc_hook("fopen");
    let args = vec![arg(10, 0, 0), arg(11, 1, 0)];
    let facts = WriteFacts {
        canonical_path: Some("/etc/passwd".to_string()),
        mode_string: Some("rb".to_string()),
        path_after: None,
    };
    let out = verify_can_write(&cache, "/usr/bin/cat", 10, invocation(hook, args), &no_auth(), &facts);
    assert!(!out.inv.do_return);
    assert!(out.log.is_none());
}

#[test]
fn any_whitelist_entry_passes_everything() {
    let cache = cache_with(base_settings("true"), vec![wl("ANY", "ANY")]);
    let hook = libc_hook("fopen");
    let args = vec![arg(10, 0, 0), arg(11, 1, 0)];
    let facts = WriteFacts {
        canonical_path: Some("/tmp/x".to_string()),
        mode_string: Some("w".to_string()),
        path_after: None,
    };
    let out = verify_can_write(&cache, "/usr/bin/tee", 10, invocation(hook, args), &no_auth(), &facts);
    assert!(!out.inv.do_return);
    assert!(out.log.is_none());
}

#[test]
fn glob_pattern_decides_the_verdict() {
    // A pattern that covers the target directory passes the call; a
    // cache whose only pattern misses it denies the call.  Both
    // would fail if pattern matching handed its input back.
    let hit = cache_with(base_settings("true"), vec![wl("ANY", "/tmp/*/")]);
    let miss = cache_with(base_settings("true"), vec![wl("ANY", "/var/*/")]);
    let facts = WriteFacts {
        canonical_path: Some("/tmp/sub/file".to_string()),
        mode_string: Some("a".to_string()),
        path_after: None,
    };
    let args = vec![arg(10, 0, 0), arg(11, 1, 0)];
    let out_hit = verify_can_write(
        &hit,
        "/usr/bin/tee",
        10,
        invocation(libc_hook("fopen"), args.clone()),
        &no_auth(),
        &facts,
    );
    assert!(!out_hit.inv.do_return);
    let out_miss = verify_can_write(
        &miss,
        "/usr/bin/tee",
        10,
        invocation(libc_hook("fopen"), args),
        &no_auth(),
        &facts,
    );
    assert!(out_miss.inv.do_return);
    assert_eq!(out_miss.inv.return_value, 0);
}

#[test]
fn whitelist_entry_for_other_program_does_not_apply() {
    let cache = cache_with(base_settings("true"), vec![wl("/usr/bin/other", "ANY")]);
    let hook = libc_hook("fopen");
    let args = vec![arg(10, 0, 0), arg(11, 1, 0)];
    let facts = WriteFacts {
        canonical_path: Some("/tmp/x".to_string()),
        mode_string: Some("w".to_string()),
        path_after: None,
    };
    let out = verify_can_write(&cache, "/usr/bin/tee", 10, invocation(hook, args), &no_auth(), &facts);
    assert!(out.inv.do_return);
}

#[test]
fn malformed_glob_aborts_the_call() {
    let cache = cache_with(base_settings("true"), vec![wl("ANY", "[")]);
    let hook = libc_hook("fopen");
    let args = vec![arg(10, 0, 0), arg(11, 1, 0)];
    let facts = WriteFacts {
        canonical_path: Some("/tmp/x".to_string()),
        mode_string: Some("w".to_string()),
        path_after: None,
    };
    let out = verify_can_write(&cache, "/usr/bin/tee", 10, invocation(hook, args), &no_auth(), &facts);
    assert!(out.aborted.is_some());
}

#[test]
fn missing_path_argument_aborts_the_call() {
    // An open call needs the path string after the descriptor
    // argument; without it the target cannot be named, and the call
    // is given up rather than guessed at.
    let cache = cache_with(base_settings("true"), vec![]);
    let hook = libc_hook("open");
    let args = vec![arg(10, 0, 0), arg(11, 1, 0), arg(12, 2, O_WRONLY)];
    let facts = WriteFacts {
        canonical_path: Some("/home/user".to_string()),
        mode_string: None,
        path_after: None,
    };
    let out = verify_can_write(&cache, "/usr/bin/foo", 10, invocation(hook, args), &no_auth(), &facts);
    assert!(out.aborted.is_some());
    assert!(!out.inv.do_return);
}

#[test]
fn fchownat_with_empty_path_flag_targets_the_descriptor() {
    let cache = cache_with(base_settings("true"), vec![]);
    let hook = libc_hook("fchownat");
    // fd, path, owner, group, flags: the last argument carries
    // AT_EMPTY_PATH, so the descriptor's canonical path names the
    // target file.
    let args = vec![
        arg(10, 0, 3),
        arg(11, 1, 0),
        arg(12, 2, 0),
        arg(13, 3, 0),
        arg(14, 4, 0x1000),
    ];
    let facts = WriteFacts {
        canonical_path: Some("/var/log/app.log".to_string()),
        mode_string: None,
        path_after: Some("".to_string()),
    };
    let out = verify_can_write(&cache, "/usr/bin/chown", 10, invocation(hook, args), &no_auth(), &facts);
    assert!(out.inv.do_return);
    assert_eq!(out.inv.return_value, -1);
    assert_eq!(
        out.diagnostic.as_deref(),
        Some("WhiteBeam: /var/log/app.log: Permission denied")
    );
}

#[test]
fn fchownat_without_flag_targets_the_path_argument() {
    let cache = cache_with(base_settings("true"), vec![]);
    let hook = libc_hook("fchownat");
    let args = vec![
        arg(10, 0, 3),
        arg(11, 1, 0),
        arg(12, 2, 0),
        arg(13, 3, 0),
        arg(14, 4, 0),
    ];
    let facts = WriteFacts {
        canonical_path: Some("/srv/data".to_string()),
        mode_string: None,
        path_after: Some("report.txt".to_string()),
    };
    let out = verify_can_write(&cache, "/usr/bin/chown", 10, invocation(hook, args), &no_auth(), &facts);
    assert!(out.inv.do_return);
    assert_eq!(
        out.diagnostic.as_deref(),
        Some("WhiteBeam: /srv/data/report.txt: Permission denied")
    );
}

#[test]
fn prevention_off_passes_write() {
    let cache = cache_with(base_settings("false"), vec![]);
    let hook = libc_hook("open");
    let args = vec![arg(10, 0, 0), arg(11, 1, 0), arg(12, 2, O_WRONLY | O_TRUNC)];
    let facts = WriteFacts {
        canonical_path: Some("/etc".to_string()),
        mode_string: None,
        path_after: Some("shadow".to_string()),
    };
    let out = verify_can_write(&cache, "/usr/bin/foo", 10, invocation(hook, args), &no_auth(), &facts);
    assert!(!out.inv.do_return);
    assert!(out.log.is_none());
    assert!(out.diagnostic.is_none());
}
