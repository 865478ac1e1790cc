//! The script that draws the quota fields.
use crate::json::{number_literal, optional_literal, string_literal};
use crate::quota::{PlanFigures, QuotaFigures, QuotaPlanSummary, QuotaResponse};
use crate::script_body::SCRIPT_BODY;
use crate::text::{decimal_text, non_blank};
use vstd::prelude::*;

verus! {

/// A text of the script that is shown in the user's language.
#[derive(Debug, Clone, Copy)]
pub enum ScriptLabel {
    AccountPool,
    Weekly,
    FiveHour,
    PoolTitle,
    QuotaEmpty,
    Available,
    Issues,
    Refresh,
    Close,
}

impl ScriptLabel {
    /// The place of the text in lists of all texts.
    pub open spec fn place(self) -> int {
        match self {
            ScriptLabel::AccountPool => 0,
            ScriptLabel::Weekly => 1,
            ScriptLabel::FiveHour => 2,
            ScriptLabel::PoolTitle => 3,
            ScriptLabel::QuotaEmpty => 4,
            ScriptLabel::Available => 5,
            ScriptLabel::Issues => 6,
            ScriptLabel::Refresh => 7,
            ScriptLabel::Close => 8,
        }
    }

    /// All texts, each in its place.
    pub fn all() -> (labels: [ScriptLabel; 9])
        ensures
            forall|label: ScriptLabel| #[trigger] labels@[label.place()] == label,
    {
        [
            ScriptLabel::AccountPool,
            ScriptLabel::Weekly,
            ScriptLabel::FiveHour,
            ScriptLabel::PoolTitle,
            ScriptLabel::QuotaEmpty,
            ScriptLabel::Available,
            ScriptLabel::Issues,
            ScriptLabel::Refresh,
            ScriptLabel::Close,
        ]
    }

    /// The key of the text among the translations.
    pub open spec fn key(self) -> Seq<char> {
        match self {
            ScriptLabel::AccountPool => "settings.general.codexAppUiInjectionPoolLabel"@,
            ScriptLabel::Weekly => "settings.general.codexAppUiInjectionWeeklyLabel"@,
            ScriptLabel::FiveHour => "settings.general.codexAppUiInjectionFiveHourLabel"@,
            ScriptLabel::PoolTitle => "codex.localAccess.accountPoolHealth.title"@,
            ScriptLabel::QuotaEmpty => "codex.localAccess.quotaPool.empty"@,
            ScriptLabel::Available => "codex.localAccess.accountPoolHealth.availableRatio"@,
            ScriptLabel::Issues => "codex.localAccess.accountPoolHealth.issueSummary"@,
            ScriptLabel::Refresh => "common.shared.refreshQuota"@,
            ScriptLabel::Close => "common.close"@,
        }
    }

    pub fn translation_key(self) -> (key: &'static str)
        ensures
            key@ == self.key(),
    {
        match self {
            ScriptLabel::AccountPool => "settings.general.codexAppUiInjectionPoolLabel",
            ScriptLabel::Weekly => "settings.general.codexAppUiInjectionWeeklyLabel",
            ScriptLabel::FiveHour => "settings.general.codexAppUiInjectionFiveHourLabel",
            ScriptLabel::PoolTitle => "codex.localAccess.accountPoolHealth.title",
            ScriptLabel::QuotaEmpty => "codex.localAccess.quotaPool.empty",
            ScriptLabel::Available => "codex.localAccess.accountPoolHealth.availableRatio",
            ScriptLabel::Issues => "codex.localAccess.accountPoolHealth.issueSummary",
            ScriptLabel::Refresh => "common.shared.refreshQuota",
            ScriptLabel::Close => "common.close",
        }
    }

    /// The names and values that the translation is filled in with.
    pub open spec fn values(self, figures: QuotaFigures) -> Seq<(Seq<char>, Seq<char>)> {
        match self {
            ScriptLabel::Available => seq![
                ("available"@, count_text(available_count(figures))),
                ("total"@, count_text(figures.account_count)),
            ],
            ScriptLabel::Issues => seq![
                ("abnormal"@, count_text(figures.abnormal_account_count)),
                ("cooldown"@, count_text(figures.cooldown_account_count)),
            ],
            _ => seq![],
        }
    }

    pub fn translation_values(self, quota: &QuotaResponse) -> (values: Vec<(String, String)>)
        ensures
            values.deep_view() == self.values(quota@),
    {
        let mut values: Vec<(String, String)> = Vec::new();
        match self {
            ScriptLabel::Available => {
                let available = match quota.available_account_count {
                    Some(n) => Some(n),
                    None => quota.account_count,
                };
                values.push(("available".to_owned(), decimal_text(available.unwrap_or(0))));
                values.push(("total".to_owned(), decimal_text(quota.account_count.unwrap_or(0))));
            },
            ScriptLabel::Issues => {
                values.push(
                    ("abnormal".to_owned(), decimal_text(quota.abnormal_account_count.unwrap_or(0))),
                );
                values.push(
                    ("cooldown".to_owned(), decimal_text(quota.cooldown_account_count.unwrap_or(0))),
                );
            },
            _ => {},
        }
        assert(values.deep_view() =~= self.values(quota@));
        values
    }
}

/// The texts of the script, in the user's language.
#[derive(Debug)]
pub struct ScriptLabels {
    pub account_pool: String,
    pub weekly: String,
    pub five_hour: String,
    pub pool_title: String,
    pub quota_empty: String,
    pub available: String,
    pub issues: String,
    pub refresh: String,
    pub close: String,
}

impl ScriptLabels {
    pub open spec fn text(self, label: ScriptLabel) -> Seq<char> {
        match label {
            ScriptLabel::AccountPool => self.account_pool@,
            ScriptLabel::Weekly => self.weekly@,
            ScriptLabel::FiveHour => self.five_hour@,
            ScriptLabel::PoolTitle => self.pool_title@,
            ScriptLabel::QuotaEmpty => self.quota_empty@,
            ScriptLabel::Available => self.available@,
            ScriptLabel::Issues => self.issues@,
            ScriptLabel::Refresh => self.refresh@,
            ScriptLabel::Close => self.close@,
        }
    }
}

impl ScriptLabels {
    /// The texts, given each in its place.
    pub fn from_texts(texts: &[String; 9]) -> (labels: ScriptLabels)
        ensures
            forall|label: ScriptLabel| #[trigger]
                labels.text(label) == texts@[label.place()]@,
    {
        ScriptLabels {
            account_pool: texts[0].clone(),
            weekly: texts[1].clone(),
            five_hour: texts[2].clone(),
            pool_title: texts[3].clone(),
            quota_empty: texts[4].clone(),
            available: texts[5].clone(),
            issues: texts[6].clone(),
            refresh: texts[7].clone(),
            close: texts[8].clone(),
        }
    }
}

/// A count as it is shown; an unknown one counts as zero.
pub open spec fn count_text(count: Option<i64>) -> Seq<char> {
    crate::text::decimal_int(count.unwrap_or(0) as int)
}

/// The number of accounts that can be used; all of them, where it is not known.
pub open spec fn available_count(figures: QuotaFigures) -> Option<i64> {
    match figures.available_account_count {
        Some(n) => Some(n),
        None => figures.account_count,
    }
}

/// A plan's figures as a JSON object.
pub open spec fn plan_json(plan: PlanFigures) -> Seq<char> {
    "{\"plan\":"@ + crate::json::quoted(plan.plan) + ",\"count\":"@ + crate::text::decimal_int(
        plan.count as int,
    ) + ",\"weeklyRemainingPercent\":"@ + crate::json::number_or_null(
        plan.weekly_remaining_percent,
    ) + ",\"fiveHourRemainingPercent\":"@ + crate::json::number_or_null(
        plan.five_hour_remaining_percent,
    ) + "}"@
}

/// The figures of the plans one after another, with a comma between neighbours.
pub open spec fn plan_items(plans: Seq<PlanFigures>) -> Seq<char>
    decreases plans.len(),
{
    if plans.len() == 0 {
        seq![]
    } else if plans.len() == 1 {
        plan_json(plans[0])
    } else {
        plan_items(plans.drop_last()) + ","@ + plan_json(plans.last())
    }
}

/// The figures of the plans as a JSON array.
pub open spec fn plans_json(plans: Seq<PlanFigures>) -> Seq<char> {
    "["@ + plan_items(plans) + "]"@
}

fn plan_literal(plan: &QuotaPlanSummary) -> (literal: String)
    ensures
        literal@ == plan_json(plan@),
{
    let mut literal = "{\"plan\":".to_owned();
    literal.append(string_literal(plan.plan.as_str(), "null").as_str());
    literal.append(",\"count\":");
    literal.append(decimal_text(plan.count).as_str());
    literal.append(",\"weeklyRemainingPercent\":");
    literal.append(number_literal(plan.weekly_remaining_percent).as_str());
    literal.append(",\"fiveHourRemainingPercent\":");
    literal.append(number_literal(plan.five_hour_remaining_percent).as_str());
    literal.append("}");
    literal
}

/// The figures of the plans as a JSON array.
pub fn plans_literal(plans: &Vec<QuotaPlanSummary>) -> (literal: String)
    ensures
        literal@ == plans_json(plans@.map_values(|plan: QuotaPlanSummary| plan@)),
{
    let ghost all = plans@.map_values(|plan: QuotaPlanSummary| plan@);
    let mut literal = "[".to_owned();
    let mut i: usize = 0;
    assert(plan_items(all.take(0)) =~= seq![]);
    assert(literal@ =~= "["@ + plan_items(all.take(0)));
    while i < plans.len()
        invariant
            i <= plans.len(),
            all == plans@.map_values(|plan: QuotaPlanSummary| plan@),
            literal@ == "["@ + plan_items(all.take(i as int)),
        decreases plans.len() - i,
    {
        assert(all.take(i + 1).drop_last() =~= all.take(i as int));
        if i > 0 {
            literal.append(",");
        }
        literal.append(plan_literal(&plans[i]).as_str());
        assert(literal@ =~= "["@ + plan_items(all.take(i + 1)));
        i = i + 1;
    }
    assert(all.take(i as int) =~= all);
    literal.append("]");
    literal
}

/// The constants that the script begins with, by name and value.
pub open spec fn script_bindings(
    provider_name: Seq<char>,
    figures: QuotaFigures,
    labels: ScriptLabels,
    refresh_in_progress: bool,
    handled_refresh_token: Option<Seq<char>>,
) -> Seq<(Seq<char>, Seq<char>)> {
    seq![
        ("providerName"@, crate::json::quoted(provider_name)),
        ("weeklyPercent"@, crate::json::number_or_null(figures.weekly_remaining_percent)),
        ("fiveHourPercent"@, crate::json::number_or_null(figures.five_hour_remaining_percent)),
        ("accountCount"@, crate::json::number_or_null(figures.account_count)),
        (
            "accountLabel"@,
            crate::json::quoted_or_null(crate::text::non_blank_text(figures.account_label)),
        ),
        ("availableAccountCount"@, crate::json::number_or_null(available_count(figures))),
        ("abnormalAccountCount"@, count_text(figures.abnormal_account_count)),
        ("cooldownAccountCount"@, count_text(figures.cooldown_account_count)),
        ("plans"@, plans_json(figures.plans)),
        ("accountPoolLabel"@, crate::json::quoted(labels.text(ScriptLabel::AccountPool))),
        ("weeklyLabel"@, crate::json::quoted(labels.text(ScriptLabel::Weekly))),
        ("fiveHourLabel"@, crate::json::quoted(labels.text(ScriptLabel::FiveHour))),
        ("accountPoolTitle"@, crate::json::quoted(labels.text(ScriptLabel::PoolTitle))),
        ("quotaEmptyLabel"@, crate::json::quoted(labels.text(ScriptLabel::QuotaEmpty))),
        ("availableText"@, crate::json::quoted(labels.text(ScriptLabel::Available))),
        ("issueText"@, crate::json::quoted(labels.text(ScriptLabel::Issues))),
        ("refreshLabel"@, crate::json::quoted(labels.text(ScriptLabel::Refresh))),
        ("closeLabel"@, crate::json::quoted(labels.text(ScriptLabel::Close))),
        (
            "refreshInProgress"@,
            if refresh_in_progress {
                "true"@
            } else {
                "false"@
            },
        ),
        ("handledRefreshToken"@, crate::json::quoted_or_null(handled_refresh_token)),
    ]
}

/// A constant's line in the script.
pub open spec fn binding_line(binding: (Seq<char>, Seq<char>)) -> Seq<char> {
    "      const "@ + binding.0 + " = "@ + binding.1 + ";\n"@
}

/// The lines of the constants, in order.
pub open spec fn binding_lines(bindings: Seq<(Seq<char>, Seq<char>)>) -> Seq<char>
    decreases bindings.len(),
{
    if bindings.len() == 0 {
        seq![]
    } else {
        binding_lines(bindings.drop_last()) + binding_line(bindings.last())
    }
}

/// A script with the given constants.
pub open spec fn script_text(bindings: Seq<(Seq<char>, Seq<char>)>) -> Seq<char> {
    "(() => {\n"@ + binding_lines(bindings) + SCRIPT_BODY@
}

fn render_script(bindings: &Vec<(&'static str, String)>) -> (script: String)
    ensures
        script@ == script_text(bindings.deep_view()),
{
    let ghost all = bindings.deep_view();
    let mut script = "(() => {\n".to_owned();
    let mut i: usize = 0;
    assert(binding_lines(all.take(0)) =~= seq![]);
    assert(script@ =~= "(() => {\n"@ + binding_lines(all.take(0)));
    while i < bindings.len()
        invariant
            i <= bindings.len(),
            all == bindings.deep_view(),
            script@ == "(() => {\n"@ + binding_lines(all.take(i as int)),
        decreases bindings.len() - i,
    {
        assert(all.take(i + 1).drop_last() =~= all.take(i as int));
        script.append("      const ");
        script.append(bindings[i].0);
        script.append(" = ");
        script.append(bindings[i].1.as_str());
        script.append(";\n");
        assert(script@ =~= "(() => {\n"@ + binding_lines(all.take(i + 1)));
        i = i + 1;
    }
    assert(all.take(i as int) =~= all);
    script.append(SCRIPT_BODY);
    script
}

/// The script that draws the quota fields with the given figures and texts.
pub fn injection_script(
    provider_name: &str,
    quota: &QuotaResponse,
    labels: &ScriptLabels,
    refresh_in_progress: bool,
    handled_refresh_token: Option<&str>,
) -> (script: String)
    ensures
        script@ == script_text(
            script_bindings(
                provider_name@,
                quota@,
                *labels,
                refresh_in_progress,
                handled_refresh_token.deep_view(),
            ),
        ),
{
    let account_label = match &quota.account_label {
        Some(label) => non_blank(Some(label.as_str())),
        None => None,
    };
    let account_label_value = match &account_label {
        Some(label) => optional_literal(Some(label.as_str())),
        None => optional_literal(None),
    };
    let available = match quota.available_account_count {
        Some(n) => Some(n),
        None => quota.account_count,
    };
    let progress = if refresh_in_progress {
        "true".to_owned()
    } else {
        "false".to_owned()
    };
    let mut bindings: Vec<(&'static str, String)> = Vec::new();
    bindings.push(("providerName", string_literal(provider_name, "\"Codex\"")));
    bindings.push(("weeklyPercent", number_literal(quota.weekly_remaining_percent)));
    bindings.push(("fiveHourPercent", number_literal(quota.five_hour_remaining_percent)));
    bindings.push(("accountCount", number_literal(quota.account_count)));
    bindings.push(("accountLabel", account_label_value));
    bindings.push(("availableAccountCount", number_literal(available)));
    bindings.push(
        ("abnormalAccountCount", decimal_text(quota.abnormal_account_count.unwrap_or(0))),
    );
    bindings.push(
        ("cooldownAccountCount", decimal_text(quota.cooldown_account_count.unwrap_or(0))),
    );
    bindings.push(("plans", plans_literal(&quota.plans)));
    bindings.push(
        ("accountPoolLabel", string_literal(labels.account_pool.as_str(), "\"Accounts\"")),
    );
    bindings.push(("weeklyLabel", string_literal(labels.weekly.as_str(), "\"Weekly\"")));
    bindings.push(("fiveHourLabel", string_literal(labels.five_hour.as_str(), "\"5h\"")));
    bindings.push(
        ("accountPoolTitle", string_literal(labels.pool_title.as_str(), "\"Account Pool\"")),
    );
    bindings.push(
        (
            "quotaEmptyLabel",
            string_literal(labels.quota_empty.as_str(), "\"No quota stats yet\""),
        ),
    );
    bindings.push(("availableText", string_literal(labels.available.as_str(), "\"Available\"")));
    bindings.push(("issueText", string_literal(labels.issues.as_str(), "\"Issues\"")));
    bindings.push(("refreshLabel", string_literal(labels.refresh.as_str(), "\"Refresh quota\"")));
    bindings.push(("closeLabel", string_literal(labels.close.as_str(), "\"Close\"")));
    bindings.push(("refreshInProgress", progress));
    bindings.push(("handledRefreshToken", optional_literal(handled_refresh_token)));
    assert(bindings.deep_view() =~= script_bindings(
        provider_name@,
        quota@,
        *labels,
        refresh_in_progress,
        handled_refresh_token.deep_view(),
    ));
    render_script(&bindings)
}

/// No control character, and so no line break, stands in a text.
pub open spec fn on_one_line(text: Seq<char>) -> bool {
    forall|i: int| 0 <= i < text.len() ==> !crate::json::is_control(#[trigger] text[i])
}

proof fn lemma_decimal_on_one_line(n: int)
    ensures
        on_one_line(crate::text::decimal_int(n)),
{
    let size = if n < 0 {
        (-n) as nat
    } else {
        n as nat
    };
    crate::text::lemma_decimal_read_back(size);
    let digits = crate::text::decimal(size);
    assert forall|i: int| 0 <= i < digits.len() implies !crate::json::is_control(
        #[trigger] digits[i],
    ) by {
        assert(crate::text::is_digit(digits[i]));
    }
}

proof fn lemma_number_on_one_line(number: Option<i64>)
    ensures
        on_one_line(crate::json::number_or_null(number)),
{
    reveal_strlit("null");
    match number {
        Some(n) => lemma_decimal_on_one_line(n as int),
        None => {},
    }
}

proof fn lemma_quoted_on_one_line(text: Option<Seq<char>>)
    ensures
        on_one_line(crate::json::quoted_or_null(text)),
        text matches Some(t) ==> on_one_line(crate::json::quoted(t)),
{
    reveal_strlit("null");
    match text {
        Some(t) => crate::json::law_literals_stay_on_their_line(t),
        None => {},
    }
}

proof fn lemma_plan_on_one_line(plan: PlanFigures)
    ensures
        on_one_line(plan_json(plan)),
{
    reveal_strlit("{\"plan\":");
    reveal_strlit(",\"count\":");
    reveal_strlit(",\"weeklyRemainingPercent\":");
    reveal_strlit(",\"fiveHourRemainingPercent\":");
    reveal_strlit("}");
    lemma_quoted_on_one_line(Some(plan.plan));
    lemma_decimal_on_one_line(plan.count as int);
    lemma_number_on_one_line(plan.weekly_remaining_percent);
    lemma_number_on_one_line(plan.five_hour_remaining_percent);
}

proof fn lemma_plans_on_one_line(plans: Seq<PlanFigures>)
    ensures
        on_one_line(plan_items(plans)),
    decreases plans.len(),
{
    reveal_strlit(",");
    if plans.len() == 1 {
        lemma_plan_on_one_line(plans[0]);
    } else if plans.len() > 1 {
        lemma_plans_on_one_line(plans.drop_last());
        lemma_plan_on_one_line(plans.last());
    }
}

/// Whatever the provider, the figures, the translations and the tokens hold, each constant of the
/// script keeps to its own line.
pub proof fn law_bindings_keep_to_their_lines(
    provider_name: Seq<char>,
    figures: QuotaFigures,
    labels: ScriptLabels,
    refresh_in_progress: bool,
    handled_refresh_token: Option<Seq<char>>,
)
    ensures
        forall|i: int|
            0 <= i < script_bindings(
                provider_name,
                figures,
                labels,
                refresh_in_progress,
                handled_refresh_token,
            ).len() ==> on_one_line(
                (#[trigger] script_bindings(
                    provider_name,
                    figures,
                    labels,
                    refresh_in_progress,
                    handled_refresh_token,
                )[i]).1,
            ),
{
    reveal_strlit("true");
    reveal_strlit("false");
    reveal_strlit("[");
    reveal_strlit("]");
    lemma_quoted_on_one_line(Some(provider_name));
    lemma_number_on_one_line(figures.weekly_remaining_percent);
    lemma_number_on_one_line(figures.five_hour_remaining_percent);
    lemma_number_on_one_line(figures.account_count);
    lemma_quoted_on_one_line(crate::text::non_blank_text(figures.account_label));
    lemma_number_on_one_line(available_count(figures));
    lemma_decimal_on_one_line(figures.abnormal_account_count.unwrap_or(0) as int);
    lemma_decimal_on_one_line(figures.cooldown_account_count.unwrap_or(0) as int);
    lemma_plans_on_one_line(figures.plans);
    assert(on_one_line(plans_json(figures.plans)));
    lemma_quoted_on_one_line(Some(labels.text(ScriptLabel::AccountPool)));
    lemma_quoted_on_one_line(Some(labels.text(ScriptLabel::Weekly)));
    lemma_quoted_on_one_line(Some(labels.text(ScriptLabel::FiveHour)));
    lemma_quoted_on_one_line(Some(labels.text(ScriptLabel::PoolTitle)));
    lemma_quoted_on_one_line(Some(labels.text(ScriptLabel::QuotaEmpty)));
    lemma_quoted_on_one_line(Some(labels.text(ScriptLabel::Available)));
    lemma_quoted_on_one_line(Some(labels.text(ScriptLabel::Issues)));
    lemma_quoted_on_one_line(Some(labels.text(ScriptLabel::Refresh)));
    lemma_quoted_on_one_line(Some(labels.text(ScriptLabel::Close)));
    lemma_quoted_on_one_line(handled_refresh_token);
}

/// The two windows keep their own names: an unknown weekly figure stays unknown, whatever is
/// known of the other window, and the other way round.
pub proof fn law_windows_are_not_mixed_up(
    provider_name: Seq<char>,
    figures: QuotaFigures,
    labels: ScriptLabels,
    refresh_in_progress: bool,
    handled_refresh_token: Option<Seq<char>>,
)
    ensures
        ({
            let bindings = script_bindings(
                provider_name,
                figures,
                labels,
                refresh_in_progress,
                handled_refresh_token,
            );
            &&& exists|i: int|
                0 <= i < bindings.len() && (#[trigger] bindings[i]).0 == "weeklyPercent"@
            &&& exists|i: int|
                0 <= i < bindings.len() && (#[trigger] bindings[i]).0 == "fiveHourPercent"@
            &&& forall|i: int|
                0 <= i < bindings.len() && (#[trigger] bindings[i]).0 == "weeklyPercent"@
                    ==> bindings[i].1 == crate::json::number_or_null(
                    figures.weekly_remaining_percent,
                )
            &&& forall|i: int|
                0 <= i < bindings.len() && (#[trigger] bindings[i]).0 == "fiveHourPercent"@
                    ==> bindings[i].1 == crate::json::number_or_null(
                    figures.five_hour_remaining_percent,
                )
        }),
{
    let bindings = script_bindings(
        provider_name,
        figures,
        labels,
        refresh_in_progress,
        handled_refresh_token,
    );
    reveal_strlit("providerName");
    reveal_strlit("weeklyPercent");
    reveal_strlit("fiveHourPercent");
    reveal_strlit("accountCount");
    reveal_strlit("accountLabel");
    reveal_strlit("availableAccountCount");
    reveal_strlit("abnormalAccountCount");
    reveal_strlit("cooldownAccountCount");
    reveal_strlit("plans");
    reveal_strlit("accountPoolLabel");
    reveal_strlit("weeklyLabel");
    reveal_strlit("fiveHourLabel");
    reveal_strlit("accountPoolTitle");
    reveal_strlit("quotaEmptyLabel");
    reveal_strlit("availableText");
    reveal_strlit("issueText");
    reveal_strlit("refreshLabel");
    reveal_strlit("closeLabel");
    reveal_strlit("refreshInProgress");
    reveal_strlit("handledRefreshToken");
    assert(bindings[1].0 == "weeklyPercent"@);
    assert(bindings[2].0 == "fiveHourPercent"@);
    assert forall|i: int|
        0 <= i < bindings.len() && (#[trigger] bindings[i]).0 == "weeklyPercent"@ implies i
        == 1 by {
        assert(bindings[i].0[0] == 'w' && bindings[i].0[6] == 'P');
    }
    assert forall|i: int|
        0 <= i < bindings.len() && (#[trigger] bindings[i]).0 == "fiveHourPercent"@ implies i
        == 2 by {
        assert(bindings[i].0[0] == 'f' && bindings[i].0[8] == 'P');
    }
}

/// A script sets a constant to a value, on a line of its own.
pub open spec fn says(script: Seq<char>, name: Seq<char>, value: Seq<char>) -> bool {
    crate::text::holds_text(script, "\n      const "@ + name + " = "@ + value + ";\n"@)
}

proof fn lemma_lines_hold_each(bindings: Seq<(Seq<char>, Seq<char>)>, i: int, front: Seq<char>)
    requires
        0 <= i < bindings.len(),
        front.len() > 0,
        front.last() == '\n',
    ensures
        says(front + binding_lines(bindings), bindings[i].0, bindings[i].1),
    decreases bindings.len(),
{
    reveal_strlit("\n      const ");
    reveal_strlit("      const ");
    reveal_strlit(";\n");
    let before = bindings.drop_last();
    let last = bindings.last();
    let whole = front + binding_lines(bindings);
    let line = binding_line(last);
    assert(whole =~= front + binding_lines(before) + line);
    lemma_lines_end_in_break(before);
    let head = front + binding_lines(before);
    assert(head.last() == '\n') by {
        if binding_lines(before).len() > 0 {
            assert(head.last() == binding_lines(before).last());
        } else {
            assert(head =~= front);
        }
    }
    if i == before.len() {
        let part = "\n      const "@ + last.0 + " = "@ + last.1 + ";\n"@;
        assert(part =~= seq!['\n'] + line) by {
            assert("\n      const "@ =~= seq!['\n'] + "      const "@);
        }
        let at = head.len() - 1;
        assert(whole.subrange(at, at + part.len()) =~= part);
    } else {
        assert(before[i] == bindings[i]);
        lemma_lines_hold_each(before, i, front);
        let part = "\n      const "@ + bindings[i].0 + " = "@ + bindings[i].1 + ";\n"@;
        assert(whole.take(head.len() as int) =~= head);
        crate::text::lemma_holds_prefix(whole, head);
        crate::text::lemma_holds_text_of_part(whole, head, part);
    }
}

proof fn lemma_lines_end_in_break(bindings: Seq<(Seq<char>, Seq<char>)>)
    ensures
        binding_lines(bindings).len() > 0 ==> binding_lines(bindings).last() == '\n',
{
    reveal_strlit(";\n");
    if bindings.len() > 0 {
        let line = binding_line(bindings.last());
        assert(line.last() == '\n');
        assert(binding_lines(bindings).last() == line.last());
    }
}

/// Each constant of a script stands in it, the script begins as a function without a name, and
/// what never changes follows the constants.
pub proof fn law_script_says_its_bindings(bindings: Seq<(Seq<char>, Seq<char>)>, i: int)
    requires
        0 <= i < bindings.len(),
    ensures
        says(script_text(bindings), bindings[i].0, bindings[i].1),
        crate::text::has_prefix(script_text(bindings), "(() => {\n"@),
        crate::text::has_suffix(script_text(bindings), SCRIPT_BODY@),
{
    reveal_strlit("(() => {\n");
    let front = "(() => {\n"@;
    let lines = front + binding_lines(bindings);
    let script = script_text(bindings);
    lemma_lines_hold_each(bindings, i, front);
    assert(script =~= lines + SCRIPT_BODY@);
    assert(script.take(lines.len() as int) =~= lines);
    crate::text::lemma_holds_prefix(script, lines);
    crate::text::lemma_holds_text_of_part(
        script,
        lines,
        "\n      const "@ + bindings[i].0 + " = "@ + bindings[i].1 + ";\n"@,
    );
    assert(script.take(front.len() as int) =~= front);
    assert(script.skip(script.len() - SCRIPT_BODY@.len()) =~= SCRIPT_BODY@);
}

/// The value that the constants give a name.
pub open spec fn gives(
    bindings: Seq<(Seq<char>, Seq<char>)>,
    name: Seq<char>,
    value: Seq<char>,
) -> bool {
    &&& exists|i: int| 0 <= i < bindings.len() && (#[trigger] bindings[i]).0 == name
    &&& forall|i: int|
        0 <= i < bindings.len() && (#[trigger] bindings[i]).0 == name ==> bindings[i].1 == value
}

/// No two constants have the same name.
#[verifier::rlimit(60)]
#[verifier::spinoff_prover]
pub proof fn law_constants_have_names_of_their_own(
    provider_name: Seq<char>,
    figures: QuotaFigures,
    labels: ScriptLabels,
    refresh_in_progress: bool,
    handled_refresh_token: Option<Seq<char>>,
)
    ensures
        ({
            let bindings = script_bindings(
                provider_name,
                figures,
                labels,
                refresh_in_progress,
                handled_refresh_token,
            );
            forall|i: int, j: int|
                0 <= i < bindings.len() && 0 <= j < bindings.len() && (#[trigger] bindings[i]).0
                    == (#[trigger] bindings[j]).0 ==> i == j
        }),
{
    reveal_strlit("providerName");
    reveal_strlit("weeklyPercent");
    reveal_strlit("fiveHourPercent");
    reveal_strlit("accountCount");
    reveal_strlit("accountLabel");
    reveal_strlit("availableAccountCount");
    reveal_strlit("abnormalAccountCount");
    reveal_strlit("cooldownAccountCount");
    reveal_strlit("plans");
    reveal_strlit("accountPoolLabel");
    reveal_strlit("weeklyLabel");
    reveal_strlit("fiveHourLabel");
    reveal_strlit("accountPoolTitle");
    reveal_strlit("quotaEmptyLabel");
    reveal_strlit("availableText");
    reveal_strlit("issueText");
    reveal_strlit("refreshLabel");
    reveal_strlit("closeLabel");
    reveal_strlit("refreshInProgress");
    reveal_strlit("handledRefreshToken");
    let bindings = script_bindings(
        provider_name,
        figures,
        labels,
        refresh_in_progress,
        handled_refresh_token,
    );
    assert forall|i: int, j: int|
        0 <= i < bindings.len() && 0 <= j < bindings.len() && (#[trigger] bindings[i]).0
            == (#[trigger] bindings[j]).0 implies i == j by {
        let a = bindings[i].0;
        let b = bindings[j].0;
        assert(a.len() == b.len());
        assert(a[0] == b[0] && a[1] == b[1] && a[2] == b[2]);
        assert(a[a.len() - 1] == b[b.len() - 1]);
        assert(a[a.len() - 3] == b[b.len() - 3]);
    }
}

/// The constants of the script: the provider, the two percentages each under its own name, the
/// counts of accounts (an unknown number of usable ones is that of all, and unknown numbers of
/// others are zero), the label unless it is blank, the plans, the nine texts, whether a refresh is
/// under way, and the request that was taken up last. There is one constant of each name.
#[verifier::rlimit(60)]
#[verifier::spinoff_prover]
pub proof fn law_constants_hold_what_is_shown(
    provider_name: Seq<char>,
    figures: QuotaFigures,
    labels: ScriptLabels,
    refresh_in_progress: bool,
    handled_refresh_token: Option<Seq<char>>,
)
    ensures
        ({
            let bindings = script_bindings(
                provider_name,
                figures,
                labels,
                refresh_in_progress,
                handled_refresh_token,
            );
            &&& bindings.len() == 20
            &&& gives(
                bindings,
                "providerName"@,
                crate::json::quoted(provider_name),
            )
            &&& gives(
                bindings,
                "weeklyPercent"@,
                crate::json::number_or_null(figures.weekly_remaining_percent),
            )
            &&& gives(
                bindings,
                "fiveHourPercent"@,
                crate::json::number_or_null(figures.five_hour_remaining_percent),
            )
            &&& gives(
                bindings,
                "accountCount"@,
                crate::json::number_or_null(figures.account_count),
            )
            &&& gives(
                bindings,
                "accountLabel"@,
                crate::json::quoted_or_null(crate::text::non_blank_text(figures.account_label)),
            )
            &&& gives(
                bindings,
                "availableAccountCount"@,
                crate::json::number_or_null(
                    if figures.available_account_count is Some {
                        figures.available_account_count
                    } else {
                        figures.account_count
                    },
                ),
            )
            &&& gives(
                bindings,
                "abnormalAccountCount"@,
                crate::text::decimal_int(
                    match figures.abnormal_account_count {
                        Some(n) => n as int,
                        None => 0,
                    },
                ),
            )
            &&& gives(
                bindings,
                "cooldownAccountCount"@,
                crate::text::decimal_int(
                    match figures.cooldown_account_count {
                        Some(n) => n as int,
                        None => 0,
                    },
                ),
            )
            &&& gives(
                bindings,
                "plans"@,
                plans_json(figures.plans),
            )
            &&& gives(
                bindings,
                "accountPoolLabel"@,
                crate::json::quoted(labels.account_pool@),
            )
            &&& gives(
                bindings,
                "weeklyLabel"@,
                crate::json::quoted(labels.weekly@),
            )
            &&& gives(
                bindings,
                "fiveHourLabel"@,
                crate::json::quoted(labels.five_hour@),
            )
            &&& gives(
                bindings,
                "accountPoolTitle"@,
                crate::json::quoted(labels.pool_title@),
            )
            &&& gives(
                bindings,
                "quotaEmptyLabel"@,
                crate::json::quoted(labels.quota_empty@),
            )
            &&& gives(
                bindings,
                "availableText"@,
                crate::json::quoted(labels.available@),
            )
            &&& gives(
                bindings,
                "issueText"@,
                crate::json::quoted(labels.issues@),
            )
            &&& gives(
                bindings,
                "refreshLabel"@,
                crate::json::quoted(labels.refresh@),
            )
            &&& gives(
                bindings,
                "closeLabel"@,
                crate::json::quoted(labels.close@),
            )
            &&& gives(
                bindings,
                "refreshInProgress"@,
                if !refresh_in_progress {
                    "false"@
                } else {
                    "true"@
                },
            )
            &&& gives(
                bindings,
                "handledRefreshToken"@,
                crate::json::quoted_or_null(handled_refresh_token),
            )
        }),
{
    law_constants_have_names_of_their_own(
        provider_name,
        figures,
        labels,
        refresh_in_progress,
        handled_refresh_token,
    );
    let bindings = script_bindings(
        provider_name,
        figures,
        labels,
        refresh_in_progress,
        handled_refresh_token,
    );
    assert(bindings[0].0 == "providerName"@);
    assert(bindings[1].0 == "weeklyPercent"@);
    assert(bindings[2].0 == "fiveHourPercent"@);
    assert(bindings[3].0 == "accountCount"@);
    assert(bindings[4].0 == "accountLabel"@);
    assert(bindings[5].0 == "availableAccountCount"@);
    assert(bindings[6].0 == "abnormalAccountCount"@);
    assert(bindings[7].0 == "cooldownAccountCount"@);
    assert(bindings[8].0 == "plans"@);
    assert(bindings[9].0 == "accountPoolLabel"@);
    assert(bindings[10].0 == "weeklyLabel"@);
    assert(bindings[11].0 == "fiveHourLabel"@);
    assert(bindings[12].0 == "accountPoolTitle"@);
    assert(bindings[13].0 == "quotaEmptyLabel"@);
    assert(bindings[14].0 == "availableText"@);
    assert(bindings[15].0 == "issueText"@);
    assert(bindings[16].0 == "refreshLabel"@);
    assert(bindings[17].0 == "closeLabel"@);
    assert(bindings[18].0 == "refreshInProgress"@);
    assert(bindings[19].0 == "handledRefreshToken"@);
}

/// The script sets each of its constants, on a line of its own, to what is shown.
#[verifier::rlimit(60)]
#[verifier::spinoff_prover]
pub proof fn law_script_says_its_constants(
    provider_name: Seq<char>,
    figures: QuotaFigures,
    labels: ScriptLabels,
    refresh_in_progress: bool,
    handled_refresh_token: Option<Seq<char>>,
)
    ensures
        ({
            let script = script_text(
                script_bindings(
                    provider_name,
                    figures,
                    labels,
                    refresh_in_progress,
                    handled_refresh_token,
                ),
            );
            &&& says(
                script,
                "providerName"@,
                crate::json::quoted(provider_name),
            )
            &&& says(
                script,
                "weeklyPercent"@,
                crate::json::number_or_null(figures.weekly_remaining_percent),
            )
            &&& says(
                script,
                "fiveHourPercent"@,
                crate::json::number_or_null(figures.five_hour_remaining_percent),
            )
            &&& says(
                script,
                "accountCount"@,
                crate::json::number_or_null(figures.account_count),
            )
            &&& says(
                script,
                "accountLabel"@,
                crate::json::quoted_or_null(crate::text::non_blank_text(figures.account_label)),
            )
            &&& says(
                script,
                "availableAccountCount"@,
                crate::json::number_or_null(
                    if figures.available_account_count is Some {
                        figures.available_account_count
                    } else {
                        figures.account_count
                    },
                ),
            )
            &&& says(
                script,
                "abnormalAccountCount"@,
                crate::text::decimal_int(
                    match figures.abnormal_account_count {
                        Some(n) => n as int,
                        None => 0,
                    },
                ),
            )
            &&& says(
                script,
                "cooldownAccountCount"@,
                crate::text::decimal_int(
                    match figures.cooldown_account_count {
                        Some(n) => n as int,
                        None => 0,
                    },
                ),
            )
            &&& says(
                script,
                "plans"@,
                plans_json(figures.plans),
            )
            &&& says(
                script,
                "accountPoolLabel"@,
                crate::json::quoted(labels.account_pool@),
            )
            &&& says(
                script,
                "weeklyLabel"@,
                crate::json::quoted(labels.weekly@),
            )
            &&& says(
                script,
                "fiveHourLabel"@,
                crate::json::quoted(labels.five_hour@),
            )
            &&& says(
                script,
                "accountPoolTitle"@,
                crate::json::quoted(labels.pool_title@),
            )
            &&& says(
                script,
                "quotaEmptyLabel"@,
                crate::json::quoted(labels.quota_empty@),
            )
            &&& says(
                script,
                "availableText"@,
                crate::json::quoted(labels.available@),
            )
            &&& says(
                script,
                "issueText"@,
                crate::json::quoted(labels.issues@),
            )
            &&& says(
                script,
                "refreshLabel"@,
                crate::json::quoted(labels.refresh@),
            )
            &&& says(
                script,
                "closeLabel"@,
                crate::json::quoted(labels.close@),
            )
            &&& says(
                script,
                "refreshInProgress"@,
                if !refresh_in_progress {
                    "false"@
                } else {
                    "true"@
                },
            )
            &&& says(
                script,
                "handledRefreshToken"@,
                crate::json::quoted_or_null(handled_refresh_token),
            )
        }),
{
    let bindings = script_bindings(
        provider_name,
        figures,
        labels,
        refresh_in_progress,
        handled_refresh_token,
    );
    assert(bindings[0].0 == "providerName"@);
    law_script_says_its_bindings(bindings, 0);
    assert(bindings[1].0 == "weeklyPercent"@);
    law_script_says_its_bindings(bindings, 1);
    assert(bindings[2].0 == "fiveHourPercent"@);
    law_script_says_its_bindings(bindings, 2);
    assert(bindings[3].0 == "accountCount"@);
    law_script_says_its_bindings(bindings, 3);
    assert(bindings[4].0 == "accountLabel"@);
    law_script_says_its_bindings(bindings, 4);
    assert(bindings[5].0 == "availableAccountCount"@);
    law_script_says_its_bindings(bindings, 5);
    assert(bindings[6].0 == "abnormalAccountCount"@);
    law_script_says_its_bindings(bindings, 6);
    assert(bindings[7].0 == "cooldownAccountCount"@);
    law_script_says_its_bindings(bindings, 7);
    assert(bindings[8].0 == "plans"@);
    law_script_says_its_bindings(bindings, 8);
    assert(bindings[9].0 == "accountPoolLabel"@);
    law_script_says_its_bindings(bindings, 9);
    assert(bindings[10].0 == "weeklyLabel"@);
    law_script_says_its_bindings(bindings, 10);
    assert(bindings[11].0 == "fiveHourLabel"@);
    law_script_says_its_bindings(bindings, 11);
    assert(bindings[12].0 == "accountPoolTitle"@);
    law_script_says_its_bindings(bindings, 12);
    assert(bindings[13].0 == "quotaEmptyLabel"@);
    law_script_says_its_bindings(bindings, 13);
    assert(bindings[14].0 == "availableText"@);
    law_script_says_its_bindings(bindings, 14);
    assert(bindings[15].0 == "issueText"@);
    law_script_says_its_bindings(bindings, 15);
    assert(bindings[16].0 == "refreshLabel"@);
    law_script_says_its_bindings(bindings, 16);
    assert(bindings[17].0 == "closeLabel"@);
    law_script_says_its_bindings(bindings, 17);
    assert(bindings[18].0 == "refreshInProgress"@);
    law_script_says_its_bindings(bindings, 18);
    assert(bindings[19].0 == "handledRefreshToken"@);
    law_script_says_its_bindings(bindings, 19);
}

/// Plans are listed in their order between brackets, with a comma between neighbours, and each
/// with its name, its number of accounts and its two percentages under their own names.
pub proof fn law_plans_are_listed(plans: Seq<PlanFigures>, plan: PlanFigures)
    ensures
        plans_json(seq![]) == seq!['[', ']'],
        plans_json(seq![plan]) == seq!['['] + plan_json(plan) + seq![']'],
        plans.len() > 0 ==> plans_json(plans.push(plan)) == plans_json(plans).drop_last() + seq![
            ',',
        ] + plan_json(plan) + seq![']'],
        plan_json(plan) == "{\"plan\":"@ + crate::json::quoted(plan.plan) + ",\"count\":"@
            + crate::json::number_or_null(Some(plan.count)) + ",\"weeklyRemainingPercent\":"@
            + crate::json::number_or_null(plan.weekly_remaining_percent)
            + ",\"fiveHourRemainingPercent\":"@ + crate::json::number_or_null(
            plan.five_hour_remaining_percent,
        ) + "}"@,
{
    reveal_strlit("[");
    reveal_strlit("]");
    reveal_strlit(",");
    assert(plan_items(Seq::<PlanFigures>::empty()) =~= seq![]);
    assert(plans_json(seq![]) =~= seq!['[', ']']);
    assert(plans_json(seq![plan]) =~= seq!['['] + plan_json(plan) + seq![']']);
    if plans.len() > 0 {
        assert(plans.push(plan).drop_last() =~= plans);
        assert(plans_json(plans).drop_last() =~= "["@ + plan_items(plans));
        assert(plans_json(plans.push(plan)) =~= plans_json(plans).drop_last() + seq![',']
            + plan_json(plan) + seq![']']);
    }
}

/// The texts of a script are its own fields, each under its label, and each label is translated
/// under its own key; only the numbers of usable and of ailing accounts are filled in.
pub proof fn law_labels_have_texts_and_values(labels: ScriptLabels, figures: QuotaFigures)
    ensures
        labels.text(ScriptLabel::AccountPool) == labels.account_pool@,
        labels.text(ScriptLabel::Weekly) == labels.weekly@,
        labels.text(ScriptLabel::FiveHour) == labels.five_hour@,
        labels.text(ScriptLabel::PoolTitle) == labels.pool_title@,
        labels.text(ScriptLabel::QuotaEmpty) == labels.quota_empty@,
        labels.text(ScriptLabel::Available) == labels.available@,
        labels.text(ScriptLabel::Issues) == labels.issues@,
        labels.text(ScriptLabel::Refresh) == labels.refresh@,
        labels.text(ScriptLabel::Close) == labels.close@,
        ScriptLabel::AccountPool.key() == "settings.general.codexAppUiInjectionPoolLabel"@,
        ScriptLabel::Weekly.key() == "settings.general.codexAppUiInjectionWeeklyLabel"@,
        ScriptLabel::FiveHour.key() == "settings.general.codexAppUiInjectionFiveHourLabel"@,
        ScriptLabel::PoolTitle.key() == "codex.localAccess.accountPoolHealth.title"@,
        ScriptLabel::QuotaEmpty.key() == "codex.localAccess.quotaPool.empty"@,
        ScriptLabel::Available.key() == "codex.localAccess.accountPoolHealth.availableRatio"@,
        ScriptLabel::Issues.key() == "codex.localAccess.accountPoolHealth.issueSummary"@,
        ScriptLabel::Refresh.key() == "common.shared.refreshQuota"@,
        ScriptLabel::Close.key() == "common.close"@,
        forall|label: ScriptLabel|
            !(label is Available) && !(label is Issues) ==> (#[trigger] label.values(figures)).len()
                == 0,
        ScriptLabel::Available.values(figures) == seq![
            (
                "available"@,
                crate::text::decimal_int(
                    match (figures.available_account_count, figures.account_count) {
                        (Some(n), _) => n as int,
                        (None, Some(n)) => n as int,
                        (None, None) => 0,
                    },
                ),
            ),
            (
                "total"@,
                crate::text::decimal_int(
                    match figures.account_count {
                        Some(n) => n as int,
                        None => 0,
                    },
                ),
            ),
        ],
        ScriptLabel::Issues.values(figures) == seq![
            (
                "abnormal"@,
                crate::text::decimal_int(
                    match figures.abnormal_account_count {
                        Some(n) => n as int,
                        None => 0,
                    },
                ),
            ),
            (
                "cooldown"@,
                crate::text::decimal_int(
                    match figures.cooldown_account_count {
                        Some(n) => n as int,
                        None => 0,
                    },
                ),
            ),
        ],
{
}

/// The places of the texts run from the first to the last without a gap.
pub proof fn law_labels_have_places(a: ScriptLabel, b: ScriptLabel)
    ensures
        0 <= a.place() < 9,
        a.place() == b.place() ==> a == b,
        ScriptLabel::AccountPool.place() == 0,
        ScriptLabel::Weekly.place() == 1,
        ScriptLabel::FiveHour.place() == 2,
        ScriptLabel::PoolTitle.place() == 3,
        ScriptLabel::QuotaEmpty.place() == 4,
        ScriptLabel::Available.place() == 5,
        ScriptLabel::Issues.place() == 6,
        ScriptLabel::Refresh.place() == 7,
        ScriptLabel::Close.place() == 8,
{
}

} // verus!
