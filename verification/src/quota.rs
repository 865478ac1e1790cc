//! The quota figures that are shown: those of an account pool, and those of a single account.
use crate::account::{is_supported_independent_account, CodexAccount, CodexQuota};
use crate::text::non_blank;
use vstd::prelude::*;

verus! {

/// The figures of the accounts of one plan.
#[derive(Debug)]
pub struct QuotaPlanSummary {
    pub plan: String,
    pub count: i64,
    pub weekly_remaining_percent: Option<i64>,
    pub five_hour_remaining_percent: Option<i64>,
}

/// The figures that are shown.
#[derive(Debug)]
pub struct QuotaResponse {
    pub weekly_remaining_percent: Option<i64>,
    pub five_hour_remaining_percent: Option<i64>,
    pub account_count: Option<i64>,
    pub account_label: Option<String>,
    pub available_account_count: Option<i64>,
    pub abnormal_account_count: Option<i64>,
    pub cooldown_account_count: Option<i64>,
    pub plans: Vec<QuotaPlanSummary>,
}

/// A plan's figures, with the plan's name as a sequence of characters.
pub struct PlanFigures {
    pub plan: Seq<char>,
    pub count: i64,
    pub weekly_remaining_percent: Option<i64>,
    pub five_hour_remaining_percent: Option<i64>,
}

/// The figures that are shown, with texts and lists as sequences.
#[verifier::ext_equal]
pub struct QuotaFigures {
    pub weekly_remaining_percent: Option<i64>,
    pub five_hour_remaining_percent: Option<i64>,
    pub account_count: Option<i64>,
    pub account_label: Option<Seq<char>>,
    pub available_account_count: Option<i64>,
    pub abnormal_account_count: Option<i64>,
    pub cooldown_account_count: Option<i64>,
    pub plans: Seq<PlanFigures>,
}

impl View for QuotaPlanSummary {
    type V = PlanFigures;

    open spec fn view(&self) -> PlanFigures {
        PlanFigures {
            plan: self.plan@,
            count: self.count,
            weekly_remaining_percent: self.weekly_remaining_percent,
            five_hour_remaining_percent: self.five_hour_remaining_percent,
        }
    }
}

impl View for QuotaResponse {
    type V = QuotaFigures;

    open spec fn view(&self) -> QuotaFigures {
        QuotaFigures {
            weekly_remaining_percent: self.weekly_remaining_percent,
            five_hour_remaining_percent: self.five_hour_remaining_percent,
            account_count: self.account_count,
            account_label: self.account_label.deep_view(),
            available_account_count: self.available_account_count,
            abnormal_account_count: self.abnormal_account_count,
            cooldown_account_count: self.cooldown_account_count,
            plans: self.plans@.map_values(|plan: QuotaPlanSummary| plan@),
        }
    }
}

impl QuotaFigures {
    /// Nothing is known.
    pub open spec fn unknown() -> Self {
        QuotaFigures {
            weekly_remaining_percent: None,
            five_hour_remaining_percent: None,
            account_count: None,
            account_label: None,
            available_account_count: None,
            abnormal_account_count: None,
            cooldown_account_count: None,
            plans: seq![],
        }
    }

    /// A pool without accounts: every figure is zero.
    pub open spec fn empty_pool() -> Self {
        QuotaFigures {
            weekly_remaining_percent: Some(0),
            five_hour_remaining_percent: Some(0),
            account_count: Some(0),
            account_label: None,
            available_account_count: Some(0),
            abnormal_account_count: Some(0),
            cooldown_account_count: Some(0),
            plans: seq![],
        }
    }

    /// The same figures, with those of a pool that counts no account set to zero.
    pub open spec fn normalized(self) -> Self {
        if self.account_count == Some(0i64) {
            QuotaFigures::empty_pool()
        } else {
            self
        }
    }
}

impl Default for QuotaResponse {
    fn default() -> (quota: Self)
        ensures
            quota@ == QuotaFigures::unknown(),
    {
        let quota = QuotaResponse {
            weekly_remaining_percent: None,
            five_hour_remaining_percent: None,
            account_count: None,
            account_label: None,
            available_account_count: None,
            abnormal_account_count: None,
            cooldown_account_count: None,
            plans: Vec::new(),
        };
        assert(quota@ =~= QuotaFigures::unknown());
        quota
    }
}

impl QuotaResponse {
    pub fn empty_pool() -> (quota: Self)
        ensures
            quota@ == QuotaFigures::empty_pool(),
    {
        let quota = QuotaResponse {
            weekly_remaining_percent: Some(0),
            five_hour_remaining_percent: Some(0),
            account_count: Some(0),
            account_label: None,
            available_account_count: Some(0),
            abnormal_account_count: Some(0),
            cooldown_account_count: Some(0),
            plans: Vec::new(),
        };
        assert(quota@ =~= QuotaFigures::empty_pool());
        quota
    }

    pub fn normalize_empty_pool(self) -> (quota: Self)
        ensures
            quota@ == self@.normalized(),
            self.account_count != Some(0i64) ==> quota == self,
    {
        match self.account_count {
            Some(0) => QuotaResponse::empty_pool(),
            _ => self,
        }
    }
}

/// `percent` moved into `0..=100`.
pub open spec fn clamped_percent(percent: int) -> int {
    if percent < 0 {
        0
    } else if percent > 100 {
        100
    } else {
        percent
    }
}

/// What is left in a window, where the window is not known to be absent.
pub open spec fn window_percent(present: Option<bool>, percent: i32) -> Option<i64> {
    if present == Some(false) {
        None
    } else {
        Some(clamped_percent(percent as int) as i64)
    }
}

pub open spec fn weekly_remaining(quota: Option<CodexQuota>) -> Option<i64> {
    match quota {
        Some(q) => window_percent(q.weekly_window_present, q.weekly_percentage),
        None => None,
    }
}

pub open spec fn five_hour_remaining(quota: Option<CodexQuota>) -> Option<i64> {
    match quota {
        Some(q) => window_percent(q.hourly_window_present, q.hourly_percentage),
        None => None,
    }
}

/// The name that is shown for an account's plan.
pub open spec fn plan_name(plan_type: Option<Seq<char>>) -> Seq<char> {
    match crate::text::non_blank_text(plan_type) {
        Some(name) => name,
        None => "Codex"@,
    }
}

/// The figures of a single account: a pool of one, under the account's own label.
pub open spec fn independent_figures(account: CodexAccount) -> QuotaFigures {
    let weekly = weekly_remaining(account.quota);
    let five_hour = five_hour_remaining(account.quota);
    let failed = account.quota_error is Some;
    QuotaFigures {
        weekly_remaining_percent: weekly,
        five_hour_remaining_percent: five_hour,
        account_count: Some(1),
        account_label: account.capsule_label.deep_view(),
        available_account_count: Some(
            if account.quota is Some && !failed {
                1
            } else {
                0
            },
        ),
        abnormal_account_count: Some(
            if failed {
                1
            } else {
                0
            },
        ),
        cooldown_account_count: Some(0),
        plans: seq![
            PlanFigures {
                plan: plan_name(account.plan_type.deep_view()),
                count: 1,
                weekly_remaining_percent: weekly,
                five_hour_remaining_percent: five_hour,
            },
        ],
    }
}

fn window_value(present: Option<bool>, percent: i32) -> (value: Option<i64>)
    ensures
        value == window_percent(present, percent),
{
    match present {
        Some(false) => None,
        _ => {
            let value: i64 = if percent < 0 {
                0
            } else if percent > 100 {
                100
            } else {
                percent as i64
            };
            Some(value)
        },
    }
}

pub fn independent_quota_response(account: &CodexAccount) -> (quota: QuotaResponse)
    ensures
        quota@ == independent_figures(*account),
{
    let weekly_remaining_percent = match &account.quota {
        Some(q) => window_value(q.weekly_window_present, q.weekly_percentage),
        None => None,
    };
    let five_hour_remaining_percent = match &account.quota {
        Some(q) => window_value(q.hourly_window_present, q.hourly_percentage),
        None => None,
    };
    let plan_type = match &account.plan_type {
        Some(name) => non_blank(Some(name.as_str())),
        None => None,
    };
    let plan = match plan_type {
        Some(name) => name,
        None => "Codex".to_owned(),
    };
    let account_label = match &account.capsule_label {
        Some(label) => Some(label.clone()),
        None => None,
    };
    let failed = account.quota_error.is_some();
    let available: i64 = if account.quota.is_some() && !failed {
        1
    } else {
        0
    };
    let abnormal: i64 = if failed {
        1
    } else {
        0
    };
    let mut plans: Vec<QuotaPlanSummary> = Vec::new();
    plans.push(
        QuotaPlanSummary {
            plan,
            count: 1,
            weekly_remaining_percent,
            five_hour_remaining_percent,
        },
    );
    let quota = QuotaResponse {
        weekly_remaining_percent,
        five_hour_remaining_percent,
        account_count: Some(1),
        account_label,
        available_account_count: Some(available),
        abnormal_account_count: Some(abnormal),
        cooldown_account_count: Some(0),
        plans,
    };
    assert(quota@ =~= independent_figures(*account));
    quota
}

/// The figures of the account that a profile is bound to, where they can be shown. `account` is
/// the account with its label, if the account store could give it.
pub fn load_independent_quota(account: Option<&CodexAccount>) -> (quota: Option<QuotaResponse>)
    ensures
        quota is Some <==> (account matches Some(a) && crate::account::independent_account(*a)),
        quota matches Some(q) ==> q@ == independent_figures(*account->0),
{
    match account {
        Some(a) => if is_supported_independent_account(a) {
            Some(independent_quota_response(a))
        } else {
            None
        },
        None => None,
    }
}

/// What the pool's answer shows: nothing of an answer that reports failure or cannot be read, and
/// never a label, which belongs to single accounts.
pub open spec fn pool_figures(success: bool, body: Option<QuotaFigures>) -> Option<QuotaFigures> {
    match body {
        Some(figures) => if success {
            Some(QuotaFigures { account_label: None, ..figures }.normalized())
        } else {
            None
        },
        None => None,
    }
}

/// The figures in the answer of the local quota service. `success` says whether the answer's
/// status is one of success; `body` is what its body could be read as.
pub fn quota_from_answer(success: bool, body: Option<QuotaResponse>) -> (quota: Option<
    QuotaResponse,
>)
    ensures
        (match quota {
            Some(q) => Some(q@),
            None => None,
        }) == pool_figures(
            success,
            match body {
                Some(b) => Some(b@),
                None => None,
            },
        ),
{
    if !success {
        return None;
    }
    match body {
        Some(answer) => {
            let unlabelled = QuotaResponse { account_label: None, ..answer };
            assert(unlabelled@ =~= QuotaFigures { account_label: None, ..answer@ });
            Some(unlabelled.normalize_empty_pool())
        },
        None => None,
    }
}

/// Normalizing twice is normalizing once.
pub proof fn law_normalizing_is_idempotent(figures: QuotaFigures)
    ensures
        figures.normalized().normalized() == figures.normalized(),
{
}

/// The percentages of a single account lie in `0..=100`, and a window that is absent has none.
pub proof fn law_account_percentages_are_percentages(account: CodexAccount)
    ensures
        independent_figures(account).weekly_remaining_percent matches Some(p) ==> 0 <= p <= 100,
        independent_figures(account).five_hour_remaining_percent matches Some(p) ==> 0 <= p <= 100,
        account.quota matches Some(q) ==> {
            &&& q.weekly_window_present == Some(false) <==> independent_figures(
                account,
            ).weekly_remaining_percent is None
            &&& q.hourly_window_present == Some(false) <==> independent_figures(
                account,
            ).five_hour_remaining_percent is None
        },
{
}

/// A single account is either available or abnormal or without a quota, and is never normalized
/// away.
pub proof fn law_account_is_counted_once(account: CodexAccount)
    ensures
        independent_figures(account).normalized() == independent_figures(account),
        independent_figures(account).available_account_count->0 == 1 <==> (account.quota is Some
            && account.quota_error is None),
        independent_figures(account).abnormal_account_count->0 == 1 <==> account.quota_error is Some,
{
}

/// A pool never shows a label: labels belong to single accounts.
pub proof fn law_pools_have_no_label(success: bool, body: Option<QuotaFigures>)
    ensures
        pool_figures(success, body) matches Some(figures) ==> figures.account_label is None,
{
}

/// The figures of an answer are shown as they were answered, but for the label: both percentages,
/// all counts and all plans. An answer that counts no account shows zero everywhere and no plan.
/// Of a failed answer, and of one that cannot be read, nothing is shown.
pub proof fn law_pool_answers_are_handed_on(figures: QuotaFigures, body: Option<QuotaFigures>)
    ensures
        pool_figures(false, body) is None,
        pool_figures(true, None) is None,
        pool_figures(true, Some(figures)) matches Some(shown) && {
            &&& shown.account_label is None
            &&& shown.account_count == figures.account_count
            &&& figures.account_count != Some(0i64) ==> {
                &&& shown.weekly_remaining_percent == figures.weekly_remaining_percent
                &&& shown.five_hour_remaining_percent == figures.five_hour_remaining_percent
                &&& shown.available_account_count == figures.available_account_count
                &&& shown.abnormal_account_count == figures.abnormal_account_count
                &&& shown.cooldown_account_count == figures.cooldown_account_count
                &&& shown.plans == figures.plans
            }
            &&& figures.account_count == Some(0i64) ==> {
                &&& shown.weekly_remaining_percent == Some(0i64)
                &&& shown.five_hour_remaining_percent == Some(0i64)
                &&& shown.available_account_count == Some(0i64)
                &&& shown.abnormal_account_count == Some(0i64)
                &&& shown.cooldown_account_count == Some(0i64)
                &&& shown.plans.len() == 0
            }
        },
{
}

/// Figures change by normalizing only where they count no account, and then every count and
/// percentage becomes zero and every label and plan goes.
pub proof fn law_only_empty_pools_are_normalized(figures: QuotaFigures)
    ensures
        figures.account_count != Some(0i64) ==> figures.normalized() == figures,
        figures.account_count == Some(0i64) ==> {
            let zero = figures.normalized();
            &&& zero == QuotaFigures::empty_pool()
            &&& zero.weekly_remaining_percent == Some(0i64)
            &&& zero.five_hour_remaining_percent == Some(0i64)
            &&& zero.account_count == Some(0i64)
            &&& zero.account_label is None
            &&& zero.available_account_count == Some(0i64)
            &&& zero.abnormal_account_count == Some(0i64)
            &&& zero.cooldown_account_count == Some(0i64)
            &&& zero.plans.len() == 0
        },
{
}

/// Where nothing is known every figure is absent.
pub proof fn law_unknown_figures_are_absent()
    ensures
        ({
            let unknown = QuotaFigures::unknown();
            &&& unknown.weekly_remaining_percent is None
            &&& unknown.five_hour_remaining_percent is None
            &&& unknown.account_count is None
            &&& unknown.account_label is None
            &&& unknown.available_account_count is None
            &&& unknown.abnormal_account_count is None
            &&& unknown.cooldown_account_count is None
            &&& unknown.plans.len() == 0
        }),
{
}

/// The figures of a response are its own, field by field, and so are those of its plans.
pub proof fn law_responses_show_their_fields(quota: QuotaResponse, i: int)
    ensures
        quota@.weekly_remaining_percent == quota.weekly_remaining_percent,
        quota@.five_hour_remaining_percent == quota.five_hour_remaining_percent,
        quota@.account_count == quota.account_count,
        quota.account_label is Some <==> quota@.account_label is Some,
        quota.account_label matches Some(label) ==> quota@.account_label == Some(label@),
        quota@.available_account_count == quota.available_account_count,
        quota@.abnormal_account_count == quota.abnormal_account_count,
        quota@.cooldown_account_count == quota.cooldown_account_count,
        quota@.plans.len() == quota.plans@.len(),
        0 <= i < quota.plans@.len() ==> {
            let plan = quota@.plans[i];
            &&& plan.plan == quota.plans@[i].plan@
            &&& plan.count == quota.plans@[i].count
            &&& plan.weekly_remaining_percent == quota.plans@[i].weekly_remaining_percent
            &&& plan.five_hour_remaining_percent == quota.plans@[i].five_hour_remaining_percent
        },
{
}

/// `percent` is what is shown of a window: nothing of one that is known to be absent, else what
/// was read, moved to zero from below and to a hundred from above.
pub open spec fn shows_window(percent: Option<i64>, present: Option<bool>, read: i32) -> bool {
    if present == Some(false) {
        percent is None
    } else {
        percent matches Some(p) && {
            &&& 0 <= read <= 100 ==> p == read
            &&& read < 0 ==> p == 0
            &&& read > 100 ==> p == 100
        }
    }
}

/// The weekly figure of an account comes from its weekly window and the five-hour figure from its
/// hourly one; both are absent without a quota. The account is one pool with one plan, which shows
/// the same figures.
pub proof fn law_account_windows_are_shown(account: CodexAccount)
    ensures
        ({
            let figures = independent_figures(account);
            &&& account.quota is None ==> figures.weekly_remaining_percent is None
                && figures.five_hour_remaining_percent is None
            &&& account.quota matches Some(quota) ==> {
                &&& shows_window(
                    figures.weekly_remaining_percent,
                    quota.weekly_window_present,
                    quota.weekly_percentage,
                )
                &&& shows_window(
                    figures.five_hour_remaining_percent,
                    quota.hourly_window_present,
                    quota.hourly_percentage,
                )
            }
            &&& figures.account_count == Some(1i64)
            &&& figures.plans.len() == 1
            &&& figures.plans[0].count == 1
            &&& figures.plans[0].weekly_remaining_percent == figures.weekly_remaining_percent
            &&& figures.plans[0].five_hour_remaining_percent == figures.five_hour_remaining_percent
        }),
{
}

/// An account is shown under its own label, as available where it has a quota and no error, as
/// abnormal where it has an error, and never as cooling down; its plan goes by its own name where
/// that is not blank.
pub proof fn law_account_state_is_shown(account: CodexAccount)
    ensures
        ({
            let figures = independent_figures(account);
            let fine = account.quota is Some && account.quota_error is None;
            let plan = figures.plans[0].plan;
            &&& account.capsule_label is None <==> figures.account_label is None
            &&& account.capsule_label matches Some(label) ==> figures.account_label == Some(label@)
            &&& fine ==> figures.available_account_count == Some(1i64)
            &&& !fine ==> figures.available_account_count == Some(0i64)
            &&& account.quota_error is Some ==> figures.abnormal_account_count == Some(1i64)
            &&& account.quota_error is None ==> figures.abnormal_account_count == Some(0i64)
            &&& figures.cooldown_account_count == Some(0i64)
            &&& account.plan_type is None ==> plan == "Codex"@
            &&& account.plan_type matches Some(name) ==> {
                let shown = crate::text::trimmed(name@, crate::text::CharClass::Space);
                plan == if shown.len() > 0 {
                    shown
                } else {
                    "Codex"@
                }
            }
        }),
{
}

} // verus!
