//! Launching profiles, and the tasks that belong to running ones.
use cockpit_codex::account::{
    bind_target, supports_bind_account, BindTarget, CodexAccount, CodexTokens,
};
use cockpit_codex::launch::{
    build_launch_args, is_debug_arg, profile_key, remote_debugging_port_from_command_line,
};
use cockpit_codex::runtime::{
    profiles_to_restore, register_task, restore_running_profiles, search_dir, start_for_profile,
    stop_all, stop_for_profile, FoundProfile, InstanceLaunchMode, ProfileInstance,
    DEFAULT_INSTANCE_ID,
};
use cockpit_codex::settings::{enabled_for_app, UserConfig};
use cockpit_codex::table::TextTable;

fn strings(list: &[&str]) -> Vec<String> {
    list.iter().map(|text| text.to_string()).collect()
}

fn config(enabled: bool) -> UserConfig {
    UserConfig {
        codex_app_ui_injection_enabled: enabled,
        codex_auto_refresh_minutes: 10,
        language: "en".to_string(),
    }
}

fn oauth_account() -> CodexAccount {
    CodexAccount::new(
        "acc".to_string(),
        "acc@example.com".to_string(),
        CodexTokens {
            id_token: "id".to_string(),
            access_token: "access".to_string(),
            refresh_token: Some("refresh".to_string()),
        },
    )
}

#[test]
fn launch_args_keep_their_order() {
    let args = strings(&["--a", "--remote-debugging-port", "1", "--b", "--remote-debugging-portal"]);
    let launch = build_launch_args(&args, true, Ok(9000)).expect("launch");
    assert_eq!(
        launch.args,
        strings(&[
            "--a",
            "--b",
            "--remote-debugging-portal",
            "--remote-debugging-address=127.0.0.1",
            "--remote-debugging-port=9000",
        ])
    );
    assert_eq!(launch.port, Some(9000));
}

#[test]
fn other_args_are_kept_and_debugging_stays_on_loopback() {
    let plain = strings(&["--a", "b", "--remote-debugging-pipe", ""]);
    let launch = build_launch_args(&plain, true, Ok(7)).expect("launch");
    assert_eq!(launch.args[..4], plain[..]);
    assert_eq!(launch.args[4], "--remote-debugging-address=127.0.0.1");
    assert_eq!(launch.args[5], "--remote-debugging-port=7");
    assert_eq!(launch.args.len(), 6);
}

#[test]
fn flag_at_the_end_takes_nothing_with_it() {
    let args = strings(&["--a", "--remote-debugging-address"]);
    let launch = build_launch_args(&args, true, Ok(1)).expect("launch");
    assert_eq!(
        launch.args,
        strings(&["--a", "--remote-debugging-address=127.0.0.1", "--remote-debugging-port=1"])
    );
}

#[test]
fn flag_swallows_the_next_flag_as_its_value() {
    let args = strings(&["--remote-debugging-port", "--remote-debugging-address", "0.0.0.0"]);
    let launch = build_launch_args(&args, true, Ok(1)).expect("launch");
    assert_eq!(launch.args[0], "0.0.0.0");
    assert_eq!(launch.args.len(), 3);
}

#[test]
fn port_that_cannot_be_reserved_fails_the_launch() {
    let failed = build_launch_args(&strings(&["--a"]), true, Err("no port".to_string()));
    assert_eq!(failed.unwrap_err(), "no port");
    assert!(build_launch_args(&strings(&["--a"]), false, Err("no port".to_string())).is_ok());
}

#[test]
fn relaunching_replaces_the_port() {
    let first = build_launch_args(&strings(&["--a"]), true, Ok(1000)).expect("first");
    let second = build_launch_args(&first.args, true, Ok(2000)).expect("second");
    let direct = build_launch_args(&strings(&["--a"]), true, Ok(2000)).expect("direct");
    assert_eq!(second.args, direct.args);
}

#[test]
fn launched_port_is_read_back_from_the_command_line() {
    let launch = build_launch_args(&strings(&["--a"]), true, Ok(64404)).expect("launch");
    let line = launch.args.join(" ");
    assert_eq!(remote_debugging_port_from_command_line(&line), Some(64404));
    let line = format!("ChatGPT {}", line);
    assert_eq!(remote_debugging_port_from_command_line(&line), Some(64404));
}

#[test]
fn debug_args_are_told_by_name() {
    assert!(is_debug_arg("--x", "--x"));
    assert!(is_debug_arg("--x=", "--x"));
    assert!(is_debug_arg("--x=1", "--x"));
    assert!(!is_debug_arg("--xy", "--x"));
    assert!(!is_debug_arg("--", "--x"));
}

#[test]
fn command_line_ports() {
    let port = remote_debugging_port_from_command_line;
    assert_eq!(port(""), None);
    assert_eq!(port("app --remote-debugging-port"), None);
    assert_eq!(port("app --remote-debugging-port x --remote-debugging-port=5"), None);
    assert_eq!(port("app '--remote-debugging-port=77'"), Some(77));
    assert_eq!(port("app --remote-debugging-port='78'"), Some(78));
    assert_eq!(port("app\t--remote-debugging-port\n\u{2003}+65535"), Some(65535));
    assert_eq!(port("app --remote-debugging-port=-1"), None);
    assert_eq!(port("app --remote-debugging-port=1_0"), None);
    assert_eq!(port("app --remote-debugging-port="), None);
    assert_eq!(port("app --remote-debugging-port=00080"), Some(80));
}

#[test]
fn profile_keys_ignore_ascii_case_and_outer_space() {
    assert_eq!(profile_key(" /Users/Ä/Codex "), "/users/Ä/codex");
}

#[test]
fn bindings_are_trimmed() {
    assert!(matches!(bind_target(Some(" __api_service__ ")), BindTarget::ApiService));
    assert!(matches!(bind_target(Some("__provider_gateway__:x")), BindTarget::Unsupported));
    assert!(matches!(bind_target(Some("  ")), BindTarget::Unsupported));
    assert!(matches!(bind_target(None), BindTarget::Unsupported));
    match bind_target(Some(" acc\n")) {
        BindTarget::Account(id) => assert_eq!(id, "acc"),
        other => panic!("{:?}", other),
    }
    assert!(supports_bind_account(Some(" __api_service__ "), None));
    assert!(supports_bind_account(Some("acc"), Some(&oauth_account())));
    assert!(!supports_bind_account(Some("__provider_gateway__:x"), Some(&oauth_account())));
}

#[test]
fn blank_refresh_tokens_do_not_count() {
    let mut account = oauth_account();
    account.auth = cockpit_codex::account::CodexAuth::Tokens(CodexTokens {
        id_token: String::new(),
        access_token: "x-at-".to_string(),
        refresh_token: Some("  ".to_string()),
    });
    assert!(!supports_bind_account(Some("acc"), Some(&account)));
}

#[test]
fn display_setting_is_read() {
    assert!(enabled_for_app(&config(true)));
    assert!(!enabled_for_app(&config(false)));
}

#[test]
fn tasks_are_started_replaced_and_stopped() {
    let mut runtimes: TextTable<u32> = TextTable::new();
    let on = config(true);
    let service = Some("__api_service__");
    let start = start_for_profile(&mut runtimes, &on, "/Home", Some(9), service, None);
    assert_eq!(start.port, Some(9));
    assert_eq!(start.replaced, None);
    assert_eq!(register_task(&mut runtimes, "/Home", 1), None);
    register_task(&mut runtimes, "/other", 2);

    let again = start_for_profile(&mut runtimes, &on, "/home ", Some(8), service, None);
    assert_eq!(again.port, Some(8));
    assert_eq!(again.replaced, Some(1));
    assert_eq!(stop_for_profile(&mut runtimes, "/home"), None);
    assert_eq!(register_task(&mut runtimes, "/home", 3), None);
    assert_eq!(register_task(&mut runtimes, "/HOME", 4), Some(3));

    assert_eq!(stop_for_profile(&mut runtimes, "/HOME"), Some(4));
    assert_eq!(stop_for_profile(&mut runtimes, "/HOME"), None);
    register_task(&mut runtimes, "/home", 5);
    let mut tasks = stop_all(&mut runtimes);
    tasks.sort();
    assert_eq!(tasks, vec![2, 5]);
    assert!(stop_all(&mut runtimes).is_empty());
}

#[test]
fn tasks_are_not_started_without_a_port_a_binding_or_the_setting() {
    let mut runtimes: TextTable<u32> = TextTable::new();
    register_task(&mut runtimes, "/home", 1);
    let service = Some("__api_service__");
    let (on, off) = (config(true), config(false));
    for start in [
        start_for_profile(&mut runtimes, &on, "/home", None, service, None),
        start_for_profile(&mut runtimes, &off, "/home", Some(9), service, None),
        start_for_profile(&mut runtimes, &on, "/home", Some(9), None, None),
        start_for_profile(&mut runtimes, &on, "/home", Some(9), Some("acc"), None),
    ] {
        assert_eq!(start.port, None);
        assert_eq!(start.replaced, None);
    }
    assert_eq!(runtimes.get("/home"), Some(&1));
}

fn profile(id: &str, mode: InstanceLaunchMode, bound: Option<&str>) -> ProfileInstance {
    ProfileInstance {
        instance_id: id.to_string(),
        is_default: id == DEFAULT_INSTANCE_ID,
        profile_dir: format!("/profiles/{}", id),
        launch_mode: mode,
        last_pid: None,
        bind_account_id: bound.map(str::to_string),
        account: None,
    }
}

#[test]
fn profiles_that_show_quotas_are_restored() {
    let service = Some("__api_service__");
    let instances = || {
        let mut own = profile("own", InstanceLaunchMode::App, Some("acc"));
        own.account = Some(oauth_account());
        vec![
            profile("cli", InstanceLaunchMode::Other, service),
            profile("unbound", InstanceLaunchMode::App, None),
            own,
            profile("service", InstanceLaunchMode::App, service),
        ]
    };
    let default = || profile(DEFAULT_INSTANCE_ID, InstanceLaunchMode::App, service);
    let found = profiles_to_restore(&config(true), default(), instances());
    let ids: Vec<&str> = found.iter().map(|item| item.instance_id.as_str()).collect();
    assert_eq!(ids, vec!["__default__", "own", "service"]);

    assert!(profiles_to_restore(&config(false), default(), instances()).is_empty());
    let unbound = profile(DEFAULT_INSTANCE_ID, InstanceLaunchMode::App, None);
    assert_eq!(profiles_to_restore(&config(true), unbound, instances()).len(), 2);
}

#[test]
fn default_profile_is_looked_for_without_a_directory() {
    let mut profile = profile("own", InstanceLaunchMode::App, None);
    assert_eq!(search_dir(&profile), Some("/profiles/own"));
    profile.instance_id = DEFAULT_INSTANCE_ID.to_string();
    assert_eq!(search_dir(&profile), Some("/profiles/own"));
    profile.is_default = true;
    assert_eq!(search_dir(&profile), None);
}

#[test]
fn running_profiles_without_a_port_are_left_out() {
    let found = |id: &str, pid: Option<u32>, port: Option<u16>| FoundProfile {
        profile: profile(id, InstanceLaunchMode::App, None),
        pid,
        port,
    };
    let plan = restore_running_profiles(vec![
        found("a", Some(1), Some(9000)),
        found("b", None, None),
        found("c", Some(2), None),
        found("d", Some(3), Some(9001)),
    ]);
    let ids = |list: &Vec<FoundProfile>| -> Vec<String> {
        list.iter().map(|item| item.profile.instance_id.clone()).collect()
    };
    assert_eq!(ids(&plan.restored), vec!["a", "d"]);
    assert_eq!(ids(&plan.without_port), vec!["c"]);
}
