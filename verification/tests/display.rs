//! The quota display: launch arguments, bindings, figures, scripts and replies.
use cockpit_codex::account::{
    is_supported_independent_account, supports_bind_account, CodexAccount, CodexQuota, CodexTokens,
};
use cockpit_codex::cdp::refresh_request_token_from_cdp_response;
use cockpit_codex::launch::{build_launch_args, remote_debugging_port_from_command_line};
use cockpit_codex::quota::{independent_quota_response, QuotaPlanSummary, QuotaResponse};
use cockpit_codex::script::{injection_script, ScriptLabel, ScriptLabels};

fn template(locale: &str, key: &str) -> &'static str {
    let chinese = locale == "zh-cn";
    match key {
        "settings.general.codexAppUiInjectionPoolLabel" => {
            if chinese {
                "账号"
            } else {
                "Accounts"
            }
        }
        "settings.general.codexAppUiInjectionWeeklyLabel" => {
            if chinese {
                "周"
            } else {
                "Weekly"
            }
        }
        "settings.general.codexAppUiInjectionFiveHourLabel" => "5h",
        "codex.localAccess.accountPoolHealth.title" => "Account Pool",
        "codex.localAccess.quotaPool.empty" => "No quota stats yet",
        "codex.localAccess.accountPoolHealth.availableRatio" => {
            if chinese {
                "可用 {{available}}/{{total}}"
            } else {
                "Available {{available}}/{{total}}"
            }
        }
        "codex.localAccess.accountPoolHealth.issueSummary" => {
            if chinese {
                "异常 {{abnormal}} · 冷却 {{cooldown}}"
            } else {
                "Abnormal {{abnormal}} · cooling down {{cooldown}}"
            }
        }
        "common.shared.refreshQuota" => "Refresh",
        "common.close" => "Close",
        _ => panic!("no such text: {}", key),
    }
}

fn translate(locale: &str, label: ScriptLabel, quota: &QuotaResponse) -> String {
    let mut text = template(locale, label.translation_key()).to_string();
    for (name, value) in label.translation_values(quota) {
        text = text.replace(&format!("{{{{{}}}}}", name), &value);
    }
    text
}

fn labels(locale: &str, quota: &QuotaResponse) -> ScriptLabels {
    ScriptLabels::from_texts(&ScriptLabel::all().map(|label| translate(locale, label, quota)))
}

#[test]
fn disabled_keeps_launch_args() {
    let args = vec!["--foo".to_string(), "bar".to_string()];
    let plan = build_launch_args(&args, false, Ok(40123)).expect("plan");
    assert_eq!(plan.args, args);
    assert_eq!(plan.port, None);
}

#[test]
fn enabled_replaces_debug_flags_with_loopback_port() {
    let args = vec![
        "--remote-debugging-port=9333".to_string(),
        "--remote-debugging-address".to_string(),
        "0.0.0.0".to_string(),
        "--foo".to_string(),
    ];
    let plan = build_launch_args(&args, true, Ok(40123)).expect("plan");
    assert!(plan.port.is_some());
    assert!(!plan.args.iter().any(|value| value.contains("9333")));
    assert!(plan
        .args
        .iter()
        .any(|value| value == "--remote-debugging-address=127.0.0.1"));
}

#[test]
fn api_service_and_supported_independent_accounts_support_injection() {
    assert!(supports_bind_account(Some("__api_service__"), None));
    assert!(!supports_bind_account(Some("api-key-account"), None));
    assert!(!supports_bind_account(
        Some("__provider_gateway__:custom-provider"),
        None
    ));
    assert!(!supports_bind_account(None, None));

    let oauth = CodexAccount::new(
        "oauth-account".to_string(),
        "oauth@example.com".to_string(),
        CodexTokens {
            id_token: "id-token".to_string(),
            access_token: "access-token".to_string(),
            refresh_token: Some("refresh-token".to_string()),
        },
    );
    assert!(is_supported_independent_account(&oauth));

    let pat = CodexAccount::new(
        "pat-account".to_string(),
        "pat@example.com".to_string(),
        CodexTokens {
            id_token: String::new(),
            access_token: "at-personal-token".to_string(),
            refresh_token: None,
        },
    );
    assert!(is_supported_independent_account(&pat));

    let mut web_session = pat.clone();
    web_session.token_source_mode = "chatgpt_web_session".to_string();
    assert!(!is_supported_independent_account(&web_session));

    let access_token_only = CodexAccount::new(
        "access-token-only".to_string(),
        "access@example.com".to_string(),
        CodexTokens {
            id_token: String::new(),
            access_token: "opaque-access-token".to_string(),
            refresh_token: None,
        },
    );
    assert!(!is_supported_independent_account(&access_token_only));

    let api_key = CodexAccount::new_api_key(
        "api-key".to_string(),
        "api@example.com".to_string(),
        "sk-test".to_string(),
    );
    assert!(!is_supported_independent_account(&api_key));
}

#[test]
fn parses_remote_debugging_port_from_running_process_command_line() {
    assert_eq!(
        remote_debugging_port_from_command_line(
            "/Applications/ChatGPT.app/Contents/MacOS/ChatGPT --remote-debugging-address=127.0.0.1 --remote-debugging-port=64404"
        ),
        Some(64404)
    );
    assert_eq!(
        remote_debugging_port_from_command_line(
            r#"C:\Program Files\ChatGPT\ChatGPT.exe --remote-debugging-port "9333""#
        ),
        Some(9333)
    );
}

#[test]
fn rejects_missing_or_invalid_remote_debugging_port() {
    assert_eq!(
        remote_debugging_port_from_command_line("ChatGPT --remote-debugging-address=127.0.0.1"),
        None
    );
    assert_eq!(
        remote_debugging_port_from_command_line("ChatGPT --remote-debugging-port=0"),
        None
    );
    assert_eq!(
        remote_debugging_port_from_command_line("ChatGPT --remote-debugging-port=70000"),
        None
    );
}

#[test]
fn custom_script_renders_weekly_and_optional_five_hour_fields() {
    let quota = QuotaResponse {
        weekly_remaining_percent: Some(1387),
        five_hour_remaining_percent: Some(100),
        account_count: Some(14),
        account_label: None,
        available_account_count: Some(12),
        abnormal_account_count: Some(2),
        cooldown_account_count: Some(0),
        plans: vec![QuotaPlanSummary {
            plan: "PLUS".to_string(),
            count: 14,
            weekly_remaining_percent: Some(1387),
            five_hour_remaining_percent: Some(100),
        }],
    };
    let script = injection_script("Provider", &quota, &labels("zh-cn", &quota), false, None);
    assert!(script.contains("const accountPoolLabel = \"账号\""));
    assert!(script.contains("const accountCount = 14"));
    assert!(script.contains("const accountLabel = null"));
    assert!(script.contains("const weeklyLabel = \"周\""));
    assert!(script.contains("const fiveHourLabel = \"5h\""));
    assert!(script.contains("data-cockpit-quota-footer"));
    assert!(script.contains("document.body.appendChild(host)"));
    assert!(script.contains("position:fixed"));
    assert!(script.contains("findComposerFooter"));
    assert!(script.contains("anchor.closest('[class*=\"_footer_\"]')"));
    assert!(script.contains("rect.width >= minWidth"));
    assert!(script.contains("transform:translateY(-50%)"));
    assert!(script.contains("host.style.width = Math.round(footerRect.width)"));
    assert!(script.contains("const badgeStyle = 'display:inline-flex"));
    assert!(script.contains("backdrop-filter:blur(8px);font-weight:400"));
    assert!(script.contains("footerRect.left + footerRect.width / 2"));
    assert!(script.contains("permissionsRect.top + permissionsRect.height / 2"));
    assert!(script.contains("justify-content:center"));
    assert!(script.contains("host.innerHTML !== nextHtml"));
    assert!(script.contains("mutations.every"));
    assert!(script.contains("new ResizeObserver"));
    assert!(script.contains("window.addEventListener('resize'"));
    assert!(script.contains("requestAnimationFrame"));
    assert!(script.contains("root.render()"));
    assert!(script.contains("data-cockpit-quota-refresh"));
    assert!(script.contains("data-cockpit-quota-open"));
    assert!(script.contains("data-cockpit-quota-details"));
    assert!(script.contains("data-cockpit-quota-close"));
    assert!(script.contains("const plans = [{\"plan\":\"PLUS\",\"count\":14"));
    assert!(script.contains("const availableText = \"可用 12/14\""));
    assert!(script.contains("const issueText = \"异常 2 · 冷却 0\""));
    assert!(script.contains("var(--color-token-main-surface-primary"));
    assert!(script.contains("var(--color-token-text-secondary"));
    assert!(script.contains("const planColor"));
    assert!(script.contains("background:#10b981"));
    assert!(script.contains("background:#3b82f6"));
    assert!(script.contains("root.quotaDetailsOpen"));
    assert!(script.contains("details.innerHTML !== detailsHtml"));
    assert!(script.contains("details.contains(mutation.target)"));
    assert!(!script.contains("modal-overlay"));
    assert!(!script.contains("common.shared.refreshQuota"));
    assert!(script.contains("root.refreshRequestToken"));
    assert!(script.contains("cockpit-quota-spin"));
    assert!(script.contains("pointer-events:auto"));
    assert!(script.contains("root.hostHeartbeatAt = Date.now()"));
    assert!(script.contains("root.watchdogTimer"));
    assert!(script.contains("hostHeartbeatTimeoutMs = 8000"));
    assert!(script.contains("root.refreshRequestToken = null"));
    assert!(!script.contains("footer.appendChild(host)"));
    assert!(!script.contains("justify-content:flex-end"));
    assert!(!script.contains("grid-row:3"));
    assert!(!script.contains("min-height:18px"));
    assert!(!script.contains("._footer_1qb5a_2"));
    assert!(!script.contains("font-weight:500"));
    assert!(!script.contains("data-cockpit-fast-mode"));
    assert!(!script.contains("Debugger"));
}

#[test]
fn five_hour_only_quota_is_not_relabelled_as_weekly() {
    let quota = QuotaResponse {
        weekly_remaining_percent: None,
        five_hour_remaining_percent: Some(63),
        account_count: Some(2),
        ..QuotaResponse::default()
    };
    let script = injection_script("Provider", &quota, &labels("zh-cn", &quota), false, None);
    assert!(script.contains("const weeklyPercent = null"));
    assert!(script.contains("const fiveHourPercent = 63"));
}

#[test]
fn independent_account_quota_uses_custom_label_and_cached_windows() {
    let mut account = CodexAccount::new(
        "oauth-account".to_string(),
        "oauth@example.com".to_string(),
        CodexTokens {
            id_token: "id-token".to_string(),
            access_token: "access-token".to_string(),
            refresh_token: Some("refresh-token".to_string()),
        },
    );
    account.capsule_label = Some("QmZrTa".to_string());
    account.plan_type = Some("PLUS".to_string());
    account.quota = Some(CodexQuota {
        hourly_percentage: 82,
        hourly_window_present: Some(true),
        weekly_percentage: 64,
        weekly_window_present: Some(true),
    });

    let quota = independent_quota_response(&account);
    assert_eq!(quota.account_count, Some(1));
    assert_eq!(quota.account_label.as_deref(), Some("QmZrTa"));
    assert_eq!(quota.five_hour_remaining_percent, Some(82));
    assert_eq!(quota.weekly_remaining_percent, Some(64));

    let script = injection_script("Codex", &quota, &labels("en", &quota), false, None);
    assert!(script.contains("const accountLabel = \"QmZrTa\""));
    assert!(script.contains("escapeHtml(accountLabel)"));
}

#[test]
fn empty_pool_quota_renders_zero_account_and_windows() {
    let quota = QuotaResponse::empty_pool();
    assert_eq!(quota.account_count, Some(0));
    assert_eq!(quota.five_hour_remaining_percent, Some(0));
    assert_eq!(quota.weekly_remaining_percent, Some(0));

    let script = injection_script("Provider", &quota, &labels("zh-cn", &quota), false, None);
    assert!(script.contains("const accountCount = 0"));
    assert!(script.contains("const fiveHourPercent = 0"));
    assert!(script.contains("const weeklyPercent = 0"));
    assert!(script.contains("accountCount >= 0"));
}

#[test]
fn empty_pool_response_normalizes_missing_window_values_to_zero() {
    let quota = QuotaResponse {
        weekly_remaining_percent: None,
        five_hour_remaining_percent: None,
        account_count: Some(0),
        ..QuotaResponse::default()
    }
    .normalize_empty_pool();

    assert_eq!(quota.account_count, Some(0));
    assert_eq!(quota.five_hour_remaining_percent, Some(0));
    assert_eq!(quota.weekly_remaining_percent, Some(0));
}

#[test]
fn cdp_response_extracts_refresh_request_token() {
    let response: serde_json::Value = serde_json::from_str(
        r#"{
            "id": 1,
            "result": {
                "result": {
                    "type": "object",
                    "value": {"refreshRequestToken": "request-123"}
                }
            }
        }"#,
    )
    .expect("response");
    assert_eq!(
        refresh_request_token_from_cdp_response(&response).as_deref(),
        Some("request-123")
    );
    let bare: serde_json::Value = serde_json::from_str(r#"{"id": 1}"#).expect("bare");
    assert!(refresh_request_token_from_cdp_response(&bare).is_none());
}

#[test]
fn each_text_stands_in_its_own_constant() {
    let texts: [String; 9] = std::array::from_fn(|i| format!("text-{}", i));
    let quota = QuotaResponse::default();
    let script = injection_script("P", &quota, &ScriptLabels::from_texts(&texts), false, None);
    let names = [
        "accountPoolLabel",
        "weeklyLabel",
        "fiveHourLabel",
        "accountPoolTitle",
        "quotaEmptyLabel",
        "availableText",
        "issueText",
        "refreshLabel",
        "closeLabel",
    ];
    for (i, name) in names.iter().enumerate() {
        assert!(script.contains(&format!("const {} = \"text-{}\";", name, i)));
    }
    let keys: Vec<&str> = ScriptLabel::all().iter().map(|label| label.translation_key()).collect();
    assert_eq!(keys[0], "settings.general.codexAppUiInjectionPoolLabel");
    assert_eq!(keys[5], "codex.localAccess.accountPoolHealth.availableRatio");
    assert_eq!(keys[8], "common.close");
}
