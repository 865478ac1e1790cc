//! The gateway of a profile, its quota endpoint, and what it answers.
use cockpit_codex::gateway::{gateway_from_entry, read_profile_gateway_config, ProviderEntry};
use cockpit_codex::quota::{
    independent_quota_response, load_independent_quota, quota_from_answer, QuotaResponse,
};
use cockpit_codex::account::{CodexAccount, CodexQuota, CodexTokens};
use cockpit_codex::quota_url::{
    is_local_host, local_quota_url, quota_endpoint_path, quota_url_in_room,
};

const CONFIG: &str = r#"
model_provider = " cockpit "

[model_providers.cockpit]
name = " Cockpit Pool "
base_url = " http://localhost:8080/v1 "
experimental_bearer_token = " token-1 "
api_key = "token-2"
"#;

#[test]
fn gateway_is_read_from_the_configuration() {
    let gateway = read_profile_gateway_config(CONFIG, None).expect("gateway");
    assert_eq!(gateway.base_url, "http://localhost:8080/v1");
    assert_eq!(gateway.api_key, "token-1");
    assert_eq!(gateway.provider_name, "Cockpit Pool");
}

#[test]
fn credentials_count_where_the_entry_has_no_key() {
    let config = "model_provider = \"p\"\n[model_providers.p]\nbase_url = \"u\"\n";
    assert!(read_profile_gateway_config(config, None).is_none());
    let auth = r#"{"OPENAI_API_KEY": " sk-1 "}"#;
    let gateway = read_profile_gateway_config(config, Some(auth)).expect("gateway");
    assert_eq!(gateway.api_key, "sk-1");
    assert_eq!(gateway.provider_name, "p");
    assert!(read_profile_gateway_config(config, Some("no json")).is_none());
    assert!(read_profile_gateway_config(config, Some(r#"{"OPENAI_API_KEY": 1}"#)).is_none());
    assert!(read_profile_gateway_config(config, Some(r#"{"OPENAI_API_KEY": " "}"#)).is_none());
    let first = read_profile_gateway_config(CONFIG, Some(auth)).expect("first");
    assert_eq!(first.api_key, "token-1");
}

#[test]
fn blank_bearer_tokens_hide_the_api_key() {
    let config = "model_provider = \"p\"\n[model_providers.p]\nbase_url = \"u\"\n\
        experimental_bearer_token = \" \"\napi_key = \"k\"\n";
    assert!(read_profile_gateway_config(config, None).is_none());
    let auth = r#"{"OPENAI_API_KEY": "sk-1"}"#;
    assert_eq!(read_profile_gateway_config(config, Some(auth)).unwrap().api_key, "sk-1");
}

#[test]
fn api_key_counts_without_a_bearer_token() {
    let config =
        "model_provider = \"p\"\n[model_providers.p]\nbase_url = \"u\"\napi_key = \"k\"\n";
    assert_eq!(read_profile_gateway_config(config, None).unwrap().api_key, "k");
}

#[test]
fn configurations_without_a_gateway() {
    assert!(read_profile_gateway_config("", None).is_none());
    assert!(read_profile_gateway_config("not toml [", None).is_none());
    assert!(read_profile_gateway_config("model_provider = 1", None).is_none());
    assert!(read_profile_gateway_config("model_provider = \"p\"", None).is_none());
    let inline = "model_provider = \"p\"\n\
        model_providers = { p = { base_url = \"u\", api_key = \"k\" } }\n";
    assert!(read_profile_gateway_config(inline, None).is_none());
    let no_url = "model_provider = \"p\"\n[model_providers.p]\napi_key = \"k\"\n";
    assert!(read_profile_gateway_config(no_url, None).is_none());
}

#[test]
fn entry_describes_a_gateway() {
    let entry = |key: Option<&str>, name: Option<&str>| ProviderEntry {
        base_url: Some(" u ".to_string()),
        bearer_token: None,
        api_key: key.map(str::to_string),
        name: name.map(str::to_string),
    };
    let named = gateway_from_entry("id", entry(Some("k"), Some(" n ")), None).expect("named");
    assert_eq!(named.base_url, "u");
    assert_eq!(named.provider_name, "n");
    let plain = gateway_from_entry("id", entry(None, None), Some(" c ".to_string())).expect("plain");
    assert_eq!(plain.api_key, "c");
    assert_eq!(plain.provider_name, "id");
    assert!(gateway_from_entry("id", entry(None, None), None).is_none());
}

#[test]
fn quota_endpoint_is_under_v1() {
    assert_eq!(quota_endpoint_path("/v1"), "/v1/cockpit/quota");
    assert_eq!(quota_endpoint_path("/v1//"), "/v1/cockpit/quota");
    assert_eq!(quota_endpoint_path("/"), "/v1/cockpit/quota");
    assert_eq!(quota_endpoint_path("/api"), "/api/v1/cockpit/quota");
}

#[test]
fn local_hosts() {
    assert!(is_local_host("localhost"));
    assert!(is_local_host("LOCALHOST"));
    assert!(is_local_host("127.0.0.1"));
    assert!(is_local_host("::1"));
    assert!(!is_local_host("[::1]"));
    assert!(!is_local_host("example.com"));
}

#[test]
fn quota_is_asked_for_on_this_machine_only() {
    let url = |text: &str| local_quota_url(text);
    let found = |text: &str| Some(text.to_string());
    assert_eq!(url("http://localhost:8080/v1"), found("http://localhost:8080/v1/cockpit/quota"));
    assert_eq!(url(" http://127.0.0.1:1/ "), found("http://127.0.0.1:1/v1/cockpit/quota"));
    assert_eq!(url("http://127.0.0.1:1"), found("http://127.0.0.1:1/v1/cockpit/quota"));
    assert_eq!(
        url("http://u:p@LocalHost/a b/?q=1#f"),
        found("http://u:p@localhost/a%20b/v1/cockpit/quota")
    );
    assert_eq!(
        url("http://localhost/a/./b/%2E%2e/c.d//"),
        found("http://localhost/a/c.d/v1/cockpit/quota")
    );
    assert_eq!(url("foo://localhost/a\\b"), found("foo://localhost/a\\b/v1/cockpit/quota"));
    assert_eq!(url("https://example.com/v1"), None);
    assert_eq!(url("http://localhost.example.com/v1"), None);
    assert_eq!(url("http://[::1]/v1"), None);
    assert_eq!(url("localhost"), None);
    assert_eq!(url(""), None);
    assert_eq!(url("data:text/plain,x"), None);
    assert_eq!(quota_url_in_room("http://localhost/x/v1?y"), found("http://localhost/x/v1/cockpit/quota"));
}

#[test]
fn pool_answers_lose_their_label_and_are_normalized() {
    let answer = || QuotaResponse {
        weekly_remaining_percent: Some(5),
        account_count: Some(2),
        account_label: Some("label".to_string()),
        ..QuotaResponse::default()
    };
    let quota = quota_from_answer(true, Some(answer())).expect("quota");
    assert_eq!(quota.weekly_remaining_percent, Some(5));
    assert_eq!(quota.account_label, None);
    assert!(quota_from_answer(false, Some(answer())).is_none());
    assert!(quota_from_answer(true, None).is_none());
    let empty = QuotaResponse { account_count: Some(0), ..answer() };
    let quota = quota_from_answer(true, Some(empty)).expect("empty");
    assert_eq!(quota.weekly_remaining_percent, Some(0));
    assert_eq!(quota.available_account_count, Some(0));
}

fn account(quota: Option<CodexQuota>, error: Option<&str>) -> CodexAccount {
    let mut account = CodexAccount::new(
        "acc".to_string(),
        "acc@example.com".to_string(),
        CodexTokens {
            id_token: String::new(),
            access_token: "at-1".to_string(),
            refresh_token: None,
        },
    );
    account.quota = quota;
    account.quota_error = error.map(str::to_string);
    account
}

#[test]
fn account_figures_are_clamped_and_counted() {
    let quota = CodexQuota {
        hourly_percentage: 140,
        hourly_window_present: None,
        weekly_percentage: -3,
        weekly_window_present: Some(true),
    };
    let figures = independent_quota_response(&account(Some(quota), None));
    assert_eq!(figures.five_hour_remaining_percent, Some(100));
    assert_eq!(figures.weekly_remaining_percent, Some(0));
    assert_eq!(figures.available_account_count, Some(1));
    assert_eq!(figures.abnormal_account_count, Some(0));
    assert_eq!(figures.cooldown_account_count, Some(0));
    assert_eq!(figures.plans.len(), 1);
    assert_eq!(figures.plans[0].plan, "Codex");
    assert_eq!(figures.plans[0].count, 1);
    assert_eq!(figures.plans[0].five_hour_remaining_percent, Some(100));

    let absent = CodexQuota { hourly_window_present: Some(false), ..quota };
    let mut failed = account(Some(absent), Some("expired"));
    failed.plan_type = Some(" pro ".to_string());
    let figures = independent_quota_response(&failed);
    assert_eq!(figures.five_hour_remaining_percent, None);
    assert_eq!(figures.available_account_count, Some(0));
    assert_eq!(figures.abnormal_account_count, Some(1));
    assert_eq!(figures.plans[0].plan, "pro");

    let figures = independent_quota_response(&account(None, None));
    assert_eq!(figures.weekly_remaining_percent, None);
    assert_eq!(figures.available_account_count, Some(0));
}

#[test]
fn only_independent_accounts_are_shown() {
    assert!(load_independent_quota(Some(&account(None, None))).is_some());
    assert!(load_independent_quota(None).is_none());
    let key = CodexAccount::new_api_key("k".to_string(), String::new(), "sk".to_string());
    assert!(load_independent_quota(Some(&key)).is_none());
    assert!(key.is_api_key_auth());
    assert!(!account(None, None).is_api_key_auth());
}
