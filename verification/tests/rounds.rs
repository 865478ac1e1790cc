//! The rounds of a display, the refreshes that it asks for, and the messages to the renderer.
use cockpit_codex::account::{CodexAccount, CodexTokens};
use cockpit_codex::cdp::{
    evaluate_request, evaluation_socket, read_reply, reply_from_parts, target_list_url, CdpReply,
    CdpTarget,
};
use cockpit_codex::gateway::ProfileGatewayConfig;
use cockpit_codex::injection::{
    refresh_report, InjectionState, QuotaSource, RefreshEnd, RefreshReport, RoundEnd, RoundStart,
    CDP_CONNECT_TIMEOUT_MS, INJECTION_INTERVAL_MS, QUOTA_REFRESH_INTERVAL_MS, SHUTDOWN_PAUSE_MS,
};
use cockpit_codex::json::{number_literal, optional_literal, string_literal};
use cockpit_codex::pool::{
    api_service_quota_refresh_targets, continue_pool_refresh, finish_account_refresh,
    finish_pool_refresh, joined_pool_refresh, refresh_api_service_quota_pool,
    run_quota_refresh_for_bind, run_quota_refresh_singleflight, BindRefresh, PoolMember,
    PoolRefresh, PoolStep, PoolTurn,
};
use cockpit_codex::quota::{QuotaPlanSummary, QuotaResponse};
use cockpit_codex::script::{plans_literal, ScriptLabels};

fn service() -> InjectionState {
    InjectionState::new(Some("__api_service__".to_string()))
}

fn bound() -> InjectionState {
    InjectionState::new(Some("acc".to_string()))
}

fn finished(counts: Option<(i32, usize)>) -> RefreshEnd {
    RefreshEnd::Finished(Ok(counts))
}

fn pool_of(count: i64) -> QuotaResponse {
    QuotaResponse {
        account_count: Some(count),
        ..QuotaResponse::default()
    }
}

fn labels() -> ScriptLabels {
    let text = |value: &str| value.to_string();
    ScriptLabels {
        account_pool: text("Accounts"),
        weekly: text("Weekly"),
        five_hour: text("5h"),
        pool_title: text("Account Pool"),
        quota_empty: text("None"),
        available: text("Available"),
        issues: text("Issues"),
        refresh: text("Refresh"),
        close: text("Close"),
    }
}

#[test]
fn waits_are_short() {
    assert_eq!(CDP_CONNECT_TIMEOUT_MS, 2000);
    assert_eq!(INJECTION_INTERVAL_MS, 2000);
    assert_eq!(QUOTA_REFRESH_INTERVAL_MS, 15000);
    assert_eq!(SHUTDOWN_PAUSE_MS, 50);
}

#[test]
fn ends_are_reported() {
    let report = |api, end: RefreshEnd| refresh_report(api, &end);
    assert_eq!(report(true, finished(Some((0, 0)))), RefreshReport::EmptyPool);
    assert_eq!(report(false, finished(Some((0, 0)))), RefreshReport::Complete);
    assert_eq!(report(true, finished(Some((3, 3)))), RefreshReport::Complete);
    assert_eq!(report(true, finished(Some((2, 3)))), RefreshReport::Partial);
    assert_eq!(report(true, finished(Some((-1, usize::MAX)))), RefreshReport::Complete);
    assert_eq!(report(true, finished(Some((-1, 1)))), RefreshReport::Partial);
    assert_eq!(report(true, finished(None)), RefreshReport::Joined);
    assert_eq!(report(false, finished(None)), RefreshReport::Silent);
    let failed = RefreshEnd::Finished(Err("x".to_string()));
    assert_eq!(report(true, failed), RefreshReport::Failed);
    assert_eq!(report(true, RefreshEnd::Aborted("x".to_string())), RefreshReport::Aborted);
}

#[test]
fn figures_are_read_at_first_and_when_stale() {
    let mut state = service();
    let work = |reload| RoundStart::Work { report: None, reload };
    assert_eq!(state.begin_round(true, None, 0), RoundStart::Pause);
    assert_eq!(state.begin_round(false, None, 0), work(true));
    state.finish_reload(None, None, 1000);
    assert_eq!(state.begin_round(false, None, 500), work(false));
    assert_eq!(state.begin_round(false, None, 15999), work(false));
    assert_eq!(state.begin_round(false, None, 16000), work(true));
    let end = finished(Some((1, 1)));
    assert_eq!(
        state.begin_round(false, Some(&end), 1001),
        RoundStart::Work { report: Some(RefreshReport::Complete), reload: true }
    );
}

#[test]
fn sources_follow_the_binding() {
    assert!(matches!(service().quota_source(), QuotaSource::Pool));
    assert!(matches!(bound().quota_source(), QuotaSource::Account("acc")));
    assert!(matches!(InjectionState::new(None).quota_source(), QuotaSource::Nowhere));
    let spaced = InjectionState::new(Some(" __api_service__".to_string()));
    assert!(matches!(spaced.quota_source(), QuotaSource::Account(" __api_service__")));
}

#[test]
fn unread_figures_stay() {
    let mut state = service();
    state.finish_reload(Some(pool_of(3)), None, 0);
    assert_eq!(state.quota.account_count, Some(3));
    state.finish_reload(None, None, 1);
    assert_eq!(state.quota.account_count, Some(3));
    state.finish_reload(Some(pool_of(4)), Some(RefreshReport::EmptyPool), 2);
    assert_eq!(state.quota.account_count, Some(0));
    assert_eq!(state.quota.weekly_remaining_percent, Some(0));
    assert_eq!(state.last_quota_at, Some(2));
    let mut unbound = InjectionState::new(None);
    unbound.finish_reload(Some(pool_of(3)), None, 7);
    assert_eq!(unbound.quota.account_count, None);
    assert_eq!(unbound.last_quota_at, Some(7));
}

#[test]
fn provider_is_named_for_the_service_only() {
    let gateway = ProfileGatewayConfig {
        base_url: String::new(),
        api_key: "k".to_string(),
        provider_name: "Pool".to_string(),
    };
    assert_eq!(service().provider_name(Some(&gateway)), "Pool");
    assert_eq!(service().provider_name(None), "Codex");
    assert_eq!(bound().provider_name(Some(&gateway)), "Codex");
}

#[test]
fn last_new_request_counts() {
    let mut state = bound();
    let replies = |list: &[Option<&str>]| -> Vec<Option<String>> {
        list.iter().map(|item| item.map(str::to_string)).collect()
    };
    assert_eq!(state.requested_token(&vec![]), None);
    let list = replies(&[Some("a"), Some("b"), None]);
    assert_eq!(state.requested_token(&list).as_deref(), Some("b"));
    state.handled_refresh_token = Some("b".to_string());
    assert_eq!(state.requested_token(&list).as_deref(), Some("a"));
    assert_eq!(state.requested_token(&replies(&[None, Some("b")])), None);
}

#[test]
fn requests_are_taken_up_once_and_one_at_a_time() {
    let mut state = bound();
    assert!(matches!(state.end_round(None), RoundEnd::Rest));
    match state.end_round(Some("r1".to_string())) {
        RoundEnd::Refresh(Some(id)) => assert_eq!(id, "acc"),
        other => panic!("{:?}", other),
    }
    assert!(state.refresh_running);
    assert_eq!(state.handled_refresh_token.as_deref(), Some("r1"));
    assert!(matches!(state.end_round(Some("r2".to_string())), RoundEnd::Rest));
    assert_eq!(state.handled_refresh_token.as_deref(), Some("r1"));
    let end = finished(Some((1, 1)));
    state.begin_round(true, Some(&end), 0);
    assert!(state.refresh_running);
    state.begin_round(false, Some(&end), 0);
    assert!(!state.refresh_running);
    assert_eq!(state.requested_token(&vec![Some("r1".to_string())]), None);
    assert!(matches!(state.end_round(Some("r2".to_string())), RoundEnd::Refresh(Some(_))));

    let mut unbound = InjectionState::new(None);
    assert!(matches!(unbound.end_round(Some("r".to_string())), RoundEnd::Refresh(None)));
    assert!(!unbound.refresh_running);
}

#[test]
fn scripts_show_the_state() {
    let mut state = bound();
    state.finish_reload(Some(pool_of(1)), None, 0);
    let idle = state.script("P \"q\"", &labels());
    assert!(idle.contains("const accountCount = 1"));
    assert!(idle.contains("\"P \\\"q\\\"\""));
    let busy = state.refreshing_script("P", &labels());
    assert_ne!(state.script("P", &labels()), busy);
    state.end_round(Some("r\n1".to_string()));
    let running = state.script("P", &labels());
    assert_eq!(running, state.refreshing_script("P", &labels()));
    assert!(running.contains("\"r\\n1\""));
}

#[test]
fn texts_with_line_breaks_keep_to_their_line() {
    let mut state = bound();
    let plain = state.script("P", &labels());
    let broken = state.script("P\n;alert(1)//\r\u{b}", &labels());
    assert_eq!(plain.split('\n').count(), broken.split('\n').count());
    state.end_round(Some("t\"\n".to_string()));
    let handled = state.script("P", &labels());
    assert_eq!(plain.split('\n').count(), handled.split('\n').count());
    assert!(handled.contains("const handledRefreshToken = \"t\\\"\\n\";\n"));
}

#[test]
fn members_that_are_gone_do_not_count() {
    let member = |id: &str, supports: Option<bool>| PoolMember {
        account_id: id.to_string(),
        supports_refresh: supports,
    };
    let members = vec![
        member("a", Some(true)),
        member("gone", None),
        member("key", Some(false)),
        member("b", Some(true)),
    ];
    let (existing, ids) = api_service_quota_refresh_targets(Some(&members));
    assert_eq!(existing, 3);
    assert_eq!(ids, vec!["a", "b"]);
    let (existing, ids) = api_service_quota_refresh_targets(None);
    assert_eq!(existing, 0);
    assert!(ids.is_empty());
}

#[test]
fn pools_are_refreshed_in_a_batch() {
    match refresh_api_service_quota_pool(0, vec![]) {
        PoolRefresh::Settled(Ok(counts)) => assert_eq!(counts, (0, 0)),
        other => panic!("{:?}", other),
    }
    match refresh_api_service_quota_pool(2, vec![]) {
        PoolRefresh::Settled(Err(error)) => assert_eq!(error, "API 服务账号池暂无可刷新的额度"),
        other => panic!("{:?}", other),
    }
    match refresh_api_service_quota_pool(2, vec!["a".to_string()]) {
        PoolRefresh::Batch(ids) => assert_eq!(ids, vec!["a"]),
        other => panic!("{:?}", other),
    }
    assert_eq!(finish_pool_refresh(3, Ok(2)), Ok((2, 3)));
    assert_eq!(finish_pool_refresh(3, Ok(0)), Err("API 服务账号池额度刷新失败".to_string()));
    assert_eq!(finish_pool_refresh(3, Ok(-1)), Err("API 服务账号池额度刷新失败".to_string()));
    assert_eq!(finish_pool_refresh(3, Err("x".to_string())), Err("x".to_string()));
    assert_eq!(joined_pool_refresh(0), Some((0, 0)));
    assert_eq!(joined_pool_refresh(2), None);
}

#[test]
fn pool_is_refreshed_by_one_and_joined_by_others() {
    let ids = || vec!["a".to_string()];
    assert_eq!(run_quota_refresh_singleflight(false), PoolStep::Refresh);
    assert_eq!(run_quota_refresh_singleflight(true), PoolStep::Join);
    match continue_pool_refresh(PoolStep::Refresh, 2, ids()) {
        PoolTurn::Batch(targets) => assert_eq!(targets, ids()),
        other => panic!("{:?}", other),
    }
    let done = |step, existing, ids| match continue_pool_refresh(step, existing, ids) {
        PoolTurn::Done(outcome) => outcome,
        other => panic!("{:?}", other),
    };
    assert_eq!(done(PoolStep::Refresh, 0, vec![]), Ok(Some((0, 0))));
    assert_eq!(
        done(PoolStep::Refresh, 2, vec![]),
        Err("API 服务账号池暂无可刷新的额度".to_string())
    );
    assert_eq!(done(PoolStep::Join, 2, ids()), Ok(None));
    assert_eq!(done(PoolStep::Join, 2, vec![]), Ok(None));
    assert_eq!(done(PoolStep::Join, 0, vec![]), Ok(Some((0, 0))));
}

#[test]
fn refreshes_follow_the_binding() {
    let account = CodexAccount::new(
        "acc".to_string(),
        String::new(),
        CodexTokens {
            id_token: String::new(),
            access_token: String::new(),
            refresh_token: Some("r".to_string()),
        },
    );
    assert!(matches!(run_quota_refresh_for_bind("__api_service__", None), BindRefresh::Pool));
    match run_quota_refresh_for_bind("acc", Some(&account)) {
        BindRefresh::Account(id) => assert_eq!(id, "acc"),
        other => panic!("{:?}", other),
    }
    match run_quota_refresh_for_bind("acc", None) {
        BindRefresh::Refused(reason) => assert_eq!(reason, "当前绑定账号不支持独立额度刷新"),
        other => panic!("{:?}", other),
    }
    assert_eq!(finish_account_refresh(Ok(5)), Ok(Some((1, 1))));
    let failed: Result<u8, String> = Err("x".to_string());
    assert_eq!(finish_account_refresh(failed), Err("x".to_string()));
}

#[test]
fn pages_and_web_views_are_talked_to() {
    let target = |kind: &str, url: Option<&str>| CdpTarget {
        target_type: kind.to_string(),
        websocket_url: url.map(str::to_string),
    };
    assert_eq!(evaluation_socket(&target("page", Some("ws://a"))), Some("ws://a"));
    assert_eq!(evaluation_socket(&target("webview", Some("ws://b"))), Some("ws://b"));
    assert_eq!(evaluation_socket(&target("page", None)), None);
    assert_eq!(evaluation_socket(&target("worker", Some("ws://a"))), None);
    assert_eq!(target_list_url(9333), "http://127.0.0.1:9333/json/list");
}

#[test]
fn requests_are_json() {
    let script = "a\n\"b\" \\ \u{1f} \u{8} \u{c} \r\t 账号";
    let request: serde_json::Value =
        serde_json::from_str(&evaluate_request(script)).expect("request");
    assert_eq!(request["id"], 1);
    assert_eq!(request["method"], "Runtime.evaluate");
    assert_eq!(request["params"]["expression"], script);
    assert_eq!(request["params"]["returnByValue"], true);
    assert_eq!(request["params"]["awaitPromise"], false);
    assert_eq!(request["params"].as_object().unwrap().len(), 3);
    assert_eq!(request.as_object().unwrap().len(), 3);
}

#[test]
fn replies_are_told_by_their_number() {
    let answer = r#"{"id":1,"result":{"result":{"value":{"refreshRequestToken":" t "}}}}"#;
    match read_reply(answer) {
        CdpReply::Answer(Some(token)) => assert_eq!(token, "t"),
        other => panic!("{:?}", other),
    }
    assert!(matches!(read_reply(r#"{"id":1}"#), CdpReply::Answer(None)));
    let blank = r#"{"id":1,"result":{"result":{"value":{"refreshRequestToken":" "}}}}"#;
    assert!(matches!(read_reply(blank), CdpReply::Answer(None)));
    assert!(matches!(read_reply(r#"{"id":2}"#), CdpReply::Other));
    assert!(matches!(read_reply(r#"{"id":1.0}"#), CdpReply::Other));
    assert!(matches!(read_reply("no json"), CdpReply::Other));
    assert!(matches!(reply_from_parts(Some(1), None), CdpReply::Answer(None)));
    assert!(matches!(reply_from_parts(None, None), CdpReply::Other));
}

#[test]
fn literals_are_json() {
    for text in ["", "plain", "q\"\\", "\n\r\t\u{0}\u{8}\u{c}\u{1f}\u{7f}", "账号\u{1f600}\u{2028}"] {
        let back: String = serde_json::from_str(&string_literal(text, "null")).expect("literal");
        assert_eq!(back, text);
    }
    assert_eq!(string_literal("\u{1f}", "null"), "\"\\u001f\"");
    assert_eq!(number_literal(Some(i64::MIN)), "-9223372036854775808");
    assert_eq!(number_literal(Some(0)), "0");
    assert_eq!(number_literal(None), "null");
    assert_eq!(optional_literal(Some("x")), "\"x\"");
    assert_eq!(optional_literal(None), "null");
}

#[test]
fn plans_are_json() {
    let plan = |name: &str, weekly: Option<i64>| QuotaPlanSummary {
        plan: name.to_string(),
        count: 2,
        weekly_remaining_percent: weekly,
        five_hour_remaining_percent: None,
    };
    assert_eq!(plans_literal(&vec![]), "[]");
    assert_eq!(
        plans_literal(&vec![plan("A\"", Some(-1)), plan("B", None)]),
        [
            r#"[{"plan":"A\"","count":2,"weeklyRemainingPercent":-1,"fiveHourRemainingPercent":null},"#,
            r#"{"plan":"B","count":2,"weeklyRemainingPercent":null,"fiveHourRemainingPercent":null}]"#,
        ]
        .concat()
    );
}
