//! When quotas are refreshed, and how a refresh goes on.
use cockpit_codex::account::{CodexAccount, CodexTokens};
use cockpit_codex::backoff::{
    record_result, should_skip, AccountRefreshState, FAILURE_BACKOFF_SECONDS,
    MIN_REMOTE_INTERVAL_SECONDS,
};
use cockpit_codex::refresh::{
    advance, refresh_account, RefreshEvent, RefreshFlow, RefreshReason, RefreshStage, RefreshTurn,
    StoredQuota, GLOBAL_REFRESH_PERMITS, OPENAI_REFRESH_PERMITS, SCHEDULED_REFRESH_PERMITS,
};
use cockpit_codex::schedule::{
    account_is_due, cache_was_updated, configure_current_account_interval, due_account_ids,
    effective_interval_seconds, ensure_started, trigger_api_request_refresh,
    CodexGroupQuotaRefreshPolicy, CurrentAccountInterval, RefreshedAccount, ScheduleSettings,
    ScheduledAccount,
};
use cockpit_codex::table::TextTable;

#[test]
fn stale_accounts_are_due_and_fresh_accounts_are_not() {
    assert!(account_is_due("account-a", Some(100), 60, 200));
    assert!(!account_is_due("account-a", Some(190), 60, 200));
    assert!(account_is_due("account-a", None, 60, 200));
}

#[test]
fn failure_backoff_is_bounded() {
    assert_eq!(FAILURE_BACKOFF_SECONDS, [60, 120, 300, 600, 900]);
}

#[test]
fn scheduled_refresh_is_the_only_low_priority_reason() {
    assert!(RefreshReason::Scheduled.is_background_batch());
    assert!(!RefreshReason::Manual.is_background_batch());
    assert!(!RefreshReason::LoginOrImport.is_background_batch());
    assert!(!RefreshReason::ApiRequest.is_background_batch());
    assert!(!RefreshReason::ApiReserve.is_background_batch());
}

#[test]
fn reasons_have_log_names() {
    assert_eq!(RefreshReason::Scheduled.label(), "scheduled");
    assert_eq!(RefreshReason::Manual.label(), "manual");
    assert_eq!(RefreshReason::LoginOrImport.label(), "login_or_import");
    assert_eq!(RefreshReason::ApiRequest.label(), "api_request");
    assert_eq!(RefreshReason::ApiReserve.label(), "api_reserve");
}

#[test]
fn accounts_are_spread_over_a_tenth_of_the_interval() {
    // The bytes of the id add up to 85545331570881, which leaves 81 of 120 seconds.
    assert!(!account_is_due("account-a", Some(0), 1200, 1280));
    assert!(account_is_due("account-a", Some(0), 1200, 1281));
}

#[test]
fn due_time_saturates() {
    assert!(!account_is_due("a", Some(i64::MAX - 1), 60, i64::MAX - 1));
    assert!(account_is_due("a", Some(i64::MAX - 1), 60, i64::MAX));
}

#[test]
fn short_and_negative_intervals_have_no_offset() {
    assert!(!account_is_due("account-a", Some(100), 9, 108));
    assert!(account_is_due("account-a", Some(100), 9, 109));
    assert!(account_is_due("account-a", Some(100), -60, 40));
    assert!(!account_is_due("account-a", Some(100), -60, 39));
}

#[test]
fn current_account_interval_is_configured_in_minutes() {
    let mut interval = CurrentAccountInterval::new();
    assert_eq!(interval.seconds, 60);
    configure_current_account_interval(&mut interval, 5);
    assert_eq!(interval.seconds, 300);
    configure_current_account_interval(&mut interval, 0);
    assert_eq!(interval.seconds, -1);
    configure_current_account_interval(&mut interval, -3);
    assert_eq!(interval.seconds, -1);
    configure_current_account_interval(&mut interval, i32::MAX);
    assert_eq!(interval.seconds, 128849018820);
}

#[test]
fn shorter_of_both_intervals_counts_for_the_account_in_use() {
    let current = CurrentAccountInterval { seconds: 120 };
    let off = CurrentAccountInterval { seconds: -1 };
    let minutes = CodexGroupQuotaRefreshPolicy::Minutes;
    assert_eq!(effective_interval_seconds(minutes(10), true, &current, 0), Some(120));
    assert_eq!(effective_interval_seconds(minutes(1), true, &current, 0), Some(60));
    assert_eq!(effective_interval_seconds(minutes(10), false, &current, 0), Some(600));
    assert_eq!(effective_interval_seconds(minutes(10), true, &off, 0), Some(600));
    let inherit = CodexGroupQuotaRefreshPolicy::Inherit;
    assert_eq!(effective_interval_seconds(inherit, false, &current, 3), Some(180));
    assert_eq!(effective_interval_seconds(inherit, true, &current, 0), None);
    assert_eq!(effective_interval_seconds(inherit, true, &current, -1), None);
    let disabled = CodexGroupQuotaRefreshPolicy::Disabled;
    assert_eq!(effective_interval_seconds(disabled, true, &current, 3), None);
}

fn scheduled(id: &str, supports: bool, updated: Option<i64>) -> ScheduledAccount {
    ScheduledAccount {
        id: id.to_string(),
        supports_refresh: supports,
        policy: CodexGroupQuotaRefreshPolicy::Minutes(10),
        usage_updated_at: updated,
    }
}

#[test]
fn due_accounts_are_listed_in_order() {
    let mut disabled = scheduled("disabled", true, None);
    disabled.policy = CodexGroupQuotaRefreshPolicy::Disabled;
    let accounts = vec![
        scheduled("in-use", true, Some(900)),
        scheduled("unsupported", false, None),
        scheduled("fresh", true, Some(990)),
        disabled,
        scheduled("never", true, None),
    ];
    let settings = ScheduleSettings {
        current_id: Some("in-use".to_string()),
        current_interval: CurrentAccountInterval { seconds: 60 },
        configured_minutes: 0,
        now: 1000,
    };
    assert_eq!(due_account_ids(&accounts, &settings), vec!["in-use", "never"]);
    let other = ScheduleSettings { current_id: None, ..settings };
    assert_eq!(due_account_ids(&accounts, &other), vec!["never"]);
}

#[test]
fn only_newer_figures_count_as_news() {
    let mut previous: TextTable<Option<i64>> = TextTable::new();
    previous.insert("a".to_string(), Some(10));
    previous.insert("b".to_string(), None);
    let item = |id: &str, succeeded: bool, at: Option<i64>| RefreshedAccount {
        account_id: id.to_string(),
        succeeded,
        usage_updated_at: at,
    };
    assert!(!cache_was_updated(None, &previous));
    assert!(!cache_was_updated(Some(&vec![]), &previous));
    assert!(!cache_was_updated(Some(&vec![item("a", true, Some(10))]), &previous));
    assert!(!cache_was_updated(Some(&vec![item("a", false, Some(11))]), &previous));
    assert!(!cache_was_updated(Some(&vec![item("b", true, None)]), &previous));
    assert!(cache_was_updated(Some(&vec![item("a", true, Some(11))]), &previous));
    assert!(cache_was_updated(
        Some(&vec![item("a", true, None), item("b", true, Some(1))]),
        &previous
    ));
    assert!(cache_was_updated(Some(&vec![item("c", true, Some(-5))]), &previous));
}

#[test]
fn api_requests_refresh_known_accounts_that_support_it() {
    let account = CodexAccount::new(
        "known".to_string(),
        "known@example.com".to_string(),
        CodexTokens {
            id_token: String::new(),
            access_token: String::new(),
            refresh_token: None,
        },
    );
    assert_eq!(trigger_api_request_refresh(Some(&account), true).as_deref(), Some("known"));
    assert_eq!(trigger_api_request_refresh(Some(&account), false), None);
    assert_eq!(trigger_api_request_refresh(None, true), None);
}

#[test]
fn scheduler_is_started_once() {
    let mut started = false;
    assert!(ensure_started(&mut started));
    assert!(started);
    assert!(!ensure_started(&mut started));
    assert!(started);
}

#[test]
fn failures_in_a_row_lengthen_the_wait() {
    let mut states: TextTable<AccountRefreshState> = TextTable::new();
    assert!(!should_skip(&states, "a", 0));
    let mut now: i64 = 1000;
    for wait in [60, 120, 300, 600, 900, 900, 900] {
        record_result(&mut states, "a", false, now);
        assert!(should_skip(&states, "a", now));
        assert!(should_skip(&states, "a", now + wait - 1));
        assert!(!should_skip(&states, "a", now + wait));
        assert!(!should_skip(&states, "b", now));
        now += wait;
    }
    assert_eq!(states.get("a").unwrap().consecutive_failures, 7);
    assert_eq!(states.get("a").unwrap().last_success_at, None);
    record_result(&mut states, "a", true, now);
    let state = states.get("a").unwrap();
    assert_eq!(state.consecutive_failures, 0);
    assert_eq!(state.retry_at, None);
    assert_eq!(state.last_success_at, Some(now));
    assert_eq!(state.last_attempt_at, Some(now));
    assert!(should_skip(&states, "a", now + MIN_REMOTE_INTERVAL_SECONDS - 1));
    assert!(!should_skip(&states, "a", now + MIN_REMOTE_INTERVAL_SECONDS));
    record_result(&mut states, "a", false, now + 40);
    assert_eq!(states.get("a").unwrap().retry_at, Some(now + 100));
    assert_eq!(states.get("a").unwrap().last_success_at, Some(now));
}

#[test]
fn retry_time_saturates() {
    let mut states: TextTable<AccountRefreshState> = TextTable::new();
    record_result(&mut states, "a", false, i64::MAX - 10);
    assert_eq!(states.get("a").unwrap().retry_at, Some(i64::MAX));
}

fn next(turn: RefreshTurn<u32>) -> RefreshFlow {
    match turn {
        RefreshTurn::Next(flow) => flow,
        RefreshTurn::Done { .. } => panic!("ended early"),
    }
}

fn done(turn: RefreshTurn<u32>) -> (Result<u32, String>, bool) {
    match turn {
        RefreshTurn::Next(flow) => panic!("still at {:?}", flow.stage),
        RefreshTurn::Done { result, announce } => (result, announce),
    }
}

fn stored(api_key_auth: bool, quota: Option<u32>, error: Option<&str>) -> RefreshEvent<u32> {
    RefreshEvent::Loaded(Some(StoredQuota {
        api_key_auth,
        quota,
        quota_error: error.map(str::to_string),
    }))
}

fn flow_at(stage: RefreshStage) -> RefreshFlow {
    RefreshFlow {
        account_id: "acc".to_string(),
        reason: RefreshReason::Manual,
        stage,
    }
}

fn refused() -> RefreshEvent<u32> {
    RefreshEvent::Permit(Err("closed".to_string()))
}

#[test]
fn permits_are_few() {
    assert_eq!(GLOBAL_REFRESH_PERMITS, 4);
    assert_eq!(OPENAI_REFRESH_PERMITS, 2);
    assert_eq!(SCHEDULED_REFRESH_PERMITS, 1);
}

#[test]
fn blank_account_ids_are_refused() {
    let (result, announce) = done(refresh_account("  \u{3000}", RefreshReason::Manual));
    assert_eq!(result, Err("Codex 账号 ID 不能为空".to_string()));
    assert!(!announce);
}

#[test]
fn scheduled_refresh_waits_for_its_permit_before_the_account() {
    let mut states = TextTable::new();
    let flow = next(refresh_account(" acc ", RefreshReason::Scheduled));
    assert_eq!(flow.account_id, "acc");
    assert_eq!(flow.stage, RefreshStage::ScheduledPermit);
    let flow = next(advance(flow, RefreshEvent::Permit(Ok(())), &mut states));
    assert_eq!(flow.stage, RefreshStage::AccountLock);
    assert_eq!(flow.reason, RefreshReason::Scheduled);

    let flow = next(refresh_account("acc", RefreshReason::ApiReserve));
    assert_eq!(flow.stage, RefreshStage::AccountLock);
}

#[test]
fn refresh_goes_through_every_stage() {
    let mut states = TextTable::new();
    let flow = next(refresh_account("acc", RefreshReason::Manual));
    let flow = next(advance(flow, RefreshEvent::Locked { joined_existing: false }, &mut states));
    assert_eq!(flow.stage, RefreshStage::Clock);
    let flow = next(advance(flow, RefreshEvent::Clock(500), &mut states));
    assert_eq!(flow.stage, RefreshStage::GlobalPermit);
    let flow = next(advance(flow, RefreshEvent::Permit(Ok(())), &mut states));
    assert_eq!(flow.stage, RefreshStage::Account);
    let flow = next(advance(flow, stored(false, None, None), &mut states));
    assert_eq!(flow.stage, RefreshStage::OpenAiPermit);
    let flow = next(advance(flow, RefreshEvent::Permit(Ok(())), &mut states));
    assert_eq!(flow.stage, RefreshStage::Quota);
    assert!(states.get("acc").is_none());
    let (result, announce) =
        done(advance(flow, RefreshEvent::Fetched { result: Ok(7), now: 501 }, &mut states));
    assert_eq!(result, Ok(7));
    assert!(announce);
    assert_eq!(states.get("acc").unwrap().last_success_at, Some(501));

    let flow = next(advance(flow_at(RefreshStage::Clock), RefreshEvent::Clock(530), &mut states));
    assert_eq!(flow.stage, RefreshStage::HeldBackAccount);
    let (result, announce) = done(advance(flow, stored(false, Some(7), Some("old")), &mut states));
    assert_eq!(result, Ok(7));
    assert!(!announce);
}

#[test]
fn api_key_accounts_need_no_openai_permit() {
    let mut states = TextTable::new();
    let flow = next(advance(
        flow_at(RefreshStage::Account),
        stored(true, None, None),
        &mut states,
    ));
    assert_eq!(flow.stage, RefreshStage::Quota);
}

#[test]
fn failed_answers_are_remembered_and_handed_on() {
    let mut states = TextTable::new();
    let answer = RefreshEvent::Fetched { result: Err("offline".to_string()), now: 100 };
    let (result, announce) = done(advance(flow_at(RefreshStage::Quota), answer, &mut states));
    assert_eq!(result, Err("offline".to_string()));
    assert!(!announce);
    assert_eq!(states.get("acc").unwrap().retry_at, Some(160));
    let flow = next(advance(flow_at(RefreshStage::Clock), RefreshEvent::Clock(159), &mut states));
    assert_eq!(flow.stage, RefreshStage::HeldBackAccount);
    let (result, _) = done(advance(flow, stored(false, None, None), &mut states));
    assert_eq!(result, Err("Codex 额度刷新处于退避期，且暂无可用缓存".to_string()));
    let flow = next(advance(flow_at(RefreshStage::Clock), RefreshEvent::Clock(160), &mut states));
    assert_eq!(flow.stage, RefreshStage::GlobalPermit);
}

#[test]
fn joined_refreshes_take_over_the_result() {
    let mut states = TextTable::new();
    let joined = RefreshEvent::Locked { joined_existing: true };
    let flow = next(advance(flow_at(RefreshStage::AccountLock), joined, &mut states));
    assert_eq!(flow.stage, RefreshStage::JoinedAccount);
    let (result, announce) = done(advance(flow, stored(false, Some(3), None), &mut states));
    assert_eq!(result, Ok(3));
    assert!(!announce);
    let at = || flow_at(RefreshStage::JoinedAccount);
    let (result, _) = done(advance(at(), stored(false, Some(3), Some("expired")), &mut states));
    assert_eq!(result, Err("expired".to_string()));
    let (result, _) = done(advance(at(), stored(false, None, None), &mut states));
    assert_eq!(result, Err("Codex 额度刷新完成但没有可用数据".to_string()));
    let (result, _) = done(advance(at(), RefreshEvent::Loaded(None), &mut states));
    assert_eq!(result, Err("未找到 Codex 账号: acc".to_string()));
}

#[test]
fn missing_accounts_are_named() {
    let mut states = TextTable::new();
    for stage in [RefreshStage::HeldBackAccount, RefreshStage::Account] {
        let (result, _) = done(advance(flow_at(stage), RefreshEvent::Loaded(None), &mut states));
        assert_eq!(result, Err("未找到 Codex 账号: acc".to_string()));
    }
}

#[test]
fn refused_permits_end_the_refresh() {
    let mut states = TextTable::new();
    let (result, _) = done(advance(flow_at(RefreshStage::ScheduledPermit), refused(), &mut states));
    assert_eq!(result, Err("获取 Codex 后台刷新许可失败: closed".to_string()));
    let (result, _) = done(advance(flow_at(RefreshStage::GlobalPermit), refused(), &mut states));
    assert_eq!(result, Err("获取 Codex 全局刷新许可失败: closed".to_string()));
    let (result, _) = done(advance(flow_at(RefreshStage::OpenAiPermit), refused(), &mut states));
    assert_eq!(result, Err("获取 OpenAI 额度刷新许可失败: closed".to_string()));
    assert!(states.get("acc").is_none());
}

#[test]
fn clock_that_is_set_back_holds_back() {
    let mut states: TextTable<AccountRefreshState> = TextTable::new();
    record_result(&mut states, "a", true, 1000);
    assert!(should_skip(&states, "a", 0));
    assert!(should_skip(&states, "a", i64::MIN));
    assert!(!should_skip(&states, "a", 1030));
}

#[test]
fn events_that_are_not_waited_for_change_nothing() {
    let mut states = TextTable::new();
    let early = RefreshEvent::Fetched { result: Ok(1), now: 5 };
    let flow = next(advance(flow_at(RefreshStage::Clock), early, &mut states));
    assert_eq!(flow.stage, RefreshStage::Clock);
    assert_eq!(flow.account_id, "acc");
    let flow = next(advance(flow, refused(), &mut states));
    assert_eq!(flow.stage, RefreshStage::Clock);
    assert!(states.get("acc").is_none());
}

/// Takes refreshes on, one event at a time, with as many permits as there are.
fn step_all(flows: &mut Vec<(RefreshFlow, bool)>, states: &mut TextTable<AccountRefreshState>) {
    let at = |flows: &Vec<(RefreshFlow, bool)>, stages: &[RefreshStage]| {
        flows.iter().filter(|item| stages.contains(&item.0.stage)).count()
    };
    for i in 0..flows.len() {
        let (flow, keyed) = flows.remove(i);
        let past_batch = |item: &(RefreshFlow, bool)| {
            item.0.reason == RefreshReason::Scheduled && item.0.stage != RefreshStage::ScheduledPermit
        };
        let batch = flows.iter().filter(|item| past_batch(item)).count();
        let remote = at(
            flows,
            &[RefreshStage::Account, RefreshStage::OpenAiPermit, RefreshStage::Quota],
        );
        let openai = flows
            .iter()
            .filter(|item| item.0.stage == RefreshStage::Quota && !item.1)
            .count();
        let event = match flow.stage {
            RefreshStage::ScheduledPermit if batch < SCHEDULED_REFRESH_PERMITS => {
                RefreshEvent::Permit(Ok(()))
            }
            RefreshStage::GlobalPermit if remote < GLOBAL_REFRESH_PERMITS => {
                RefreshEvent::Permit(Ok(()))
            }
            RefreshStage::OpenAiPermit if openai < OPENAI_REFRESH_PERMITS => {
                RefreshEvent::Permit(Ok(()))
            }
            RefreshStage::AccountLock => RefreshEvent::Locked { joined_existing: false },
            RefreshStage::Clock => RefreshEvent::Clock(0),
            RefreshStage::Account => stored(keyed, None, None),
            _ => {
                flows.insert(i, (flow, keyed));
                continue;
            }
        };
        flows.insert(i, (next(advance(flow, event, states)), keyed));
    }
}

#[test]
fn many_refreshes_share_the_permits() {
    let mut states = TextTable::new();
    let mut flows = Vec::new();
    for i in 0..8 {
        let reason = if i < 4 { RefreshReason::Scheduled } else { RefreshReason::Manual };
        let flow = next(refresh_account(&format!("account-{}", i), reason));
        flows.push((flow, i == 7));
    }
    for _ in 0..20 {
        step_all(&mut flows, &mut states);
        let count = |property: &dyn Fn(&(RefreshFlow, bool)) -> bool| {
            flows.iter().filter(|item| property(item)).count()
        };
        let past_batch = count(&|item| {
            item.0.reason == RefreshReason::Scheduled && item.0.stage != RefreshStage::ScheduledPermit
        });
        assert!(past_batch <= 1);
        assert!(count(&|item| item.0.stage == RefreshStage::Quota) <= 4);
        assert!(count(&|item| item.0.stage == RefreshStage::Quota && !item.1) <= 2);
    }
    let stages: Vec<RefreshStage> = flows.iter().map(|item| item.0.stage).collect();
    assert_eq!(stages[0], RefreshStage::GlobalPermit);
    assert_eq!(stages[1], RefreshStage::ScheduledPermit);
    assert_eq!(stages[4], RefreshStage::Quota);
    assert_eq!(stages[5], RefreshStage::Quota);
    assert_eq!(stages[6], RefreshStage::OpenAiPermit);
    assert_eq!(stages[7], RefreshStage::Quota);
}
