use argon2::PasswordHasher;
use whitebeam::action::{verify_can_write, HookInvocation, WriteFacts};
use whitebeam::auth::{get_valid_auth_env, get_valid_auth_string, AuthFacts};
use whitebeam::db::PolicyCache;
use whitebeam::rows::{ArgumentRow, HookRow, SettingRow};

fn setting(param: &str, value: &str) -> SettingRow {
    SettingRow { param: param.to_string(), value: value.to_string() }
}

fn cache_with_settings(settings: Vec<SettingRow>) -> PolicyCache {
    PolicyCache {
        hooks: vec![],
        arguments: vec![],
        whitelist: vec![],
        action_arguments: vec![],
        rules: vec![],
        settings,
        last_refresh: 0,
    }
}

fn argon2id_hash(password: &str) -> String {
    let hasher = argon2::Argon2::default();
    let hash: argon2::PasswordHash = hasher
        .hash_password(password.as_bytes())
        .expect("hashing a test password succeeds");
    hash.to_string()
}

#[test]
fn console_secret_without_expiry_accepts_the_password() {
    let cache = cache_with_settings(vec![
        setting("Prevention", "true"),
        setting("ConsoleSecret", &argon2id_hash("open sesame")),
        setting("RecoverySecret", "undefined"),
        setting("ConsoleSecretExpiry", "0"),
    ]);
    assert!(get_valid_auth_string(&cache, "open sesame", 100));
    assert!(!get_valid_auth_string(&cache, "wrong password", 100));
}

#[test]
fn expired_console_secret_is_refused() {
    let cache = cache_with_settings(vec![
        setting("Prevention", "true"),
        setting("ConsoleSecret", &argon2id_hash("open sesame")),
        setting("RecoverySecret", "undefined"),
        setting("ConsoleSecretExpiry", "50"),
    ]);
    // At second 40 the expiry (second 50) has not passed.
    assert!(get_valid_auth_string(&cache, "open sesame", 40));
    // At second 60 it has.
    assert!(!get_valid_auth_string(&cache, "open sesame", 60));
}

#[test]
fn unparsable_expiry_disables_the_console_secret() {
    let cache = cache_with_settings(vec![
        setting("Prevention", "true"),
        setting("ConsoleSecret", &argon2id_hash("open sesame")),
        setting("RecoverySecret", "undefined"),
        setting("ConsoleSecretExpiry", "never"),
    ]);
    assert!(!get_valid_auth_string(&cache, "open sesame", 100));
}

#[test]
fn recovery_secret_accepts_even_when_console_expired() {
    let cache = cache_with_settings(vec![
        setting("Prevention", "true"),
        setting("ConsoleSecret", &argon2id_hash("console pw")),
        setting("RecoverySecret", &argon2id_hash("recovery pw")),
        setting("ConsoleSecretExpiry", "50"),
    ]);
    assert!(get_valid_auth_string(&cache, "recovery pw", 100));
    assert!(!get_valid_auth_string(&cache, "console pw", 100));
}

#[test]
fn malformed_hashes_match_nothing() {
    let cache = cache_with_settings(vec![
        setting("Prevention", "true"),
        setting("ConsoleSecret", "undefined"),
        setting("RecoverySecret", "undefined"),
        setting("ConsoleSecretExpiry", "0"),
    ]);
    assert!(!get_valid_auth_string(&cache, "undefined", 100));
    assert!(!get_valid_auth_string(&cache, "", 100));
}

#[test]
fn unset_environment_credential_is_refused() {
    let cache = cache_with_settings(vec![
        setting("Prevention", "true"),
        setting("ConsoleSecret", "undefined"),
        setting("RecoverySecret", &argon2id_hash("recovery pw")),
        setting("ConsoleSecretExpiry", "0"),
    ]);
    assert!(!get_valid_auth_env(&cache, &AuthFacts { wb_auth: None, now: 100 }));
    assert!(get_valid_auth_env(
        &cache,
        &AuthFacts { wb_auth: Some("recovery pw".to_string()), now: 100 }
    ));
}

#[test]
fn valid_recovery_credential_bypasses_the_write_check() {
    let cache = cache_with_settings(vec![
        setting("Prevention", "true"),
        setting("ConsoleSecret", "undefined"),
        setting("RecoverySecret", &argon2id_hash("recovery pw")),
        setting("ConsoleSecretExpiry", "0"),
    ]);
    let hook = HookRow {
        language: "c".to_string(),
        library: "/lib/x86_64-linux-gnu/libc.so.6".to_string(),
        symbol: "open".to_string(),
        id: 1,
    };
    let args = vec![ArgumentRow {
        hook: 1,
        parent: None,
        id: 10,
        position: 0,
        real: 0,
        datatype: "x".to_string(),
        pointer: false,
        signed: false,
        variadic: false,
        array: false,
    }];
    // open(path, O_WRONLY | O_TRUNC) aimed at /etc/shadow — but the
    // credential stands, so the call passes through.
    let mut flags_arg = args[0].clone();
    flags_arg.id = 12;
    flags_arg.position = 2;
    flags_arg.real = 1 | 512;
    let mut middle = args[0].clone();
    middle.id = 11;
    middle.position = 1;
    let inv = HookInvocation {
        hook,
        args: vec![args[0].clone(), middle, flags_arg],
        do_return: false,
        return_value: 0,
    };
    let auth = AuthFacts { wb_auth: Some("recovery pw".to_string()), now: 100 };
    let facts = WriteFacts {
        canonical_path: Some("/etc".to_string()),
        mode_string: None,
        path_after: Some("shadow".to_string()),
    };
    let out = verify_can_write(&cache, "/usr/bin/foo", 10, inv, &auth, &facts);
    assert!(!out.inv.do_return);
    assert!(out.log.is_none());
}
