use whitebeam::db::{get_action_arguments, get_prevention, get_redirect, get_setting, PolicyCache};
use whitebeam::numparse::{i32_dec_string, parse_i32, parse_service_pid, parse_u32, u32_dec_string};
use whitebeam::pathutil::{concat_str, path_basename, path_parent};
use whitebeam::platform::{
    get_data_file_path, get_syslog_path, is_superuser, path_open_secure, start_service,
    stop_service, PlatformError,
};
use whitebeam::rows::{ActionArgumentRow, ArgumentRow, RuleRow, SettingRow};

fn setting(param: &str, value: &str) -> SettingRow {
    SettingRow { param: param.to_string(), value: value.to_string() }
}

fn act_arg(id: i64, value: &str, next: Option<i64>) -> ActionArgumentRow {
    ActionArgumentRow { id, value: value.to_string(), next }
}

fn empty_cache() -> PolicyCache {
    PolicyCache {
        hooks: vec![],
        arguments: vec![],
        whitelist: vec![],
        action_arguments: vec![],
        rules: vec![],
        settings: vec![],
        last_refresh: 0,
    }
}

#[test]
fn get_setting_returns_the_first_matching_row() {
    let mut cache = empty_cache();
    cache.settings = vec![
        setting("Prevention", "true"),
        setting("Other", "x"),
        setting("Prevention", "shadowed"),
    ];
    assert_eq!(get_setting(&cache, "Prevention"), "true");
    assert_eq!(get_setting(&cache, "Other"), "x");
    assert!(get_prevention(&cache));
    cache.settings[0].value = "false".to_string();
    assert!(!get_prevention(&cache));
}

#[test]
fn action_argument_chain_is_walked_in_order() {
    let mut cache = empty_cache();
    cache.action_arguments = vec![
        act_arg(3, "third", None),
        act_arg(1, "first", Some(2)),
        act_arg(2, "second", Some(3)),
    ];
    let chain: Vec<String> = get_action_arguments(&cache, 1);
    assert_eq!(chain, vec!["first".to_string(), "second".to_string(), "third".to_string()]);
    assert_eq!(get_action_arguments(&cache, 3), vec!["third".to_string()]);
    assert_eq!(get_action_arguments(&cache, 9), Vec::<String>::new());
}

#[test]
fn chain_ending_at_a_missing_row_stops_there() {
    let mut cache = empty_cache();
    cache.action_arguments = vec![act_arg(1, "only", Some(2))];
    assert_eq!(get_action_arguments(&cache, 1), vec!["only".to_string()]);
}

#[test]
fn redirect_resolves_library_and_symbol() {
    let mut cache = empty_cache();
    cache.arguments = vec![ArgumentRow {
        hook: 5,
        parent: None,
        id: 50,
        position: 0,
        real: 0,
        datatype: "x".to_string(),
        pointer: false,
        signed: false,
        variadic: false,
        array: false,
    }];
    cache.rules = vec![RuleRow {
        arg: 50,
        action: "RedirectFunction".to_string(),
        actionarg: Some(1),
    }];
    cache.action_arguments = vec![
        act_arg(1, "/usr/lib/libother.so", Some(2)),
        act_arg(2, "open_checked", None),
    ];
    let redirect = get_redirect(&cache, 5).expect("a redirection is configured");
    assert_eq!(redirect.0, "/usr/lib/libother.so");
    assert_eq!(redirect.1, "open_checked");
}

#[test]
fn absent_redirect_rule_yields_none() {
    let mut cache = empty_cache();
    cache.arguments = vec![ArgumentRow {
        hook: 5,
        parent: None,
        id: 50,
        position: 0,
        real: 0,
        datatype: "x".to_string(),
        pointer: false,
        signed: false,
        variadic: false,
        array: false,
    }];
    cache.rules = vec![RuleRow { arg: 50, action: "VerifyCanWrite".to_string(), actionarg: None }];
    assert!(get_redirect(&cache, 5).is_none());
}

#[test]
fn unsigned_parsing_follows_the_standard_form() {
    assert_eq!(parse_u32("0"), Some(0));
    assert_eq!(parse_u32("+1700000000"), Some(1_700_000_000));
    assert_eq!(parse_u32("4294967295"), Some(u32::MAX));
    assert_eq!(parse_u32("4294967296"), None);
    assert_eq!(parse_u32(""), None);
    assert_eq!(parse_u32("+"), None);
    assert_eq!(parse_u32("12x"), None);
    assert_eq!(parse_u32("-1"), None);
}

#[test]
fn signed_parsing_covers_the_whole_range() {
    assert_eq!(parse_i32("2147483647"), Some(i32::MAX));
    assert_eq!(parse_i32("-2147483648"), Some(i32::MIN));
    assert_eq!(parse_i32("2147483648"), None);
    assert_eq!(parse_i32("-2147483649"), None);
    assert_eq!(parse_i32("-0"), Some(0));
}

#[test]
fn pid_file_contents_parse_with_one_trailing_newline() {
    assert_eq!(parse_service_pid("4242\n"), Some(4242));
    assert_eq!(parse_service_pid("4242"), Some(4242));
    assert_eq!(parse_service_pid("4242\n\n"), None);
    assert_eq!(parse_service_pid("\n"), None);
    assert_eq!(parse_service_pid("pid"), None);
}

#[test]
fn decimal_rendering_matches_expectations() {
    assert_eq!(u32_dec_string(0), "0");
    assert_eq!(u32_dec_string(40907), "40907");
    assert_eq!(i32_dec_string(-1), "-1");
    assert_eq!(i32_dec_string(2047), "2047");
    assert_eq!(i32_dec_string(i32::MIN), "-2147483648");
}

#[test]
fn paths_split_into_parent_and_basename() {
    assert_eq!(path_parent("/var/log/app.log"), "/var/log");
    assert_eq!(path_basename("/var/log/app.log"), "app.log");
    assert_eq!(path_parent("/etc"), "/");
    assert_eq!(path_basename("/etc"), "etc");
    assert_eq!(path_parent("/"), "/");
    assert_eq!(path_basename("/"), ".");
    assert_eq!(concat_str("/tmp/", "x"), "/tmp/x");
}

#[test]
fn data_files_live_under_the_data_directory() {
    assert_eq!(
        get_data_file_path("database.sqlite"),
        "/Applications/WhiteBeam/data/database.sqlite"
    );
    assert_eq!(get_data_file_path(""), "/Applications/WhiteBeam/data/");
}

#[test]
fn unsupported_platform_operations_say_so() {
    assert_eq!(start_service(), Err(PlatformError::Unsupported));
    assert_eq!(stop_service(), Err(PlatformError::Unsupported));
    assert!(get_syslog_path().is_err());
    assert_eq!(path_open_secure("/tmp/x"), Err(PlatformError::Unsupported));
    assert!(is_superuser().is_err());
}
