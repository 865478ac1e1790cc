//! Accounts, and what a profile can be bound to.
use crate::text::{non_blank, same_text, strip_prefix, trim, CharClass};
use vstd::prelude::*;

verus! {

/// The id that binds a profile to the API service.
pub const API_SERVICE_BIND_ID: &'static str = "__api_service__";

/// What an id begins with that binds a profile to a provider gateway.
pub const PROVIDER_GATEWAY_BIND_PREFIX: &'static str = "__provider_gateway__:";

/// The token source of an account that was taken over from a browser session.
pub const WEB_SESSION_SOURCE_MODE: &'static str = "chatgpt_web_session";

/// What a personal access token begins with.
pub const PERSONAL_TOKEN_PREFIX: &'static str = "at-";

/// The quota windows that were read last.
#[derive(Debug, Clone, Copy, PartialEq, Eq)]
pub struct CodexQuota {
    pub hourly_percentage: i32,
    pub hourly_window_present: Option<bool>,
    pub weekly_percentage: i32,
    pub weekly_window_present: Option<bool>,
}

#[derive(Debug, Clone)]
pub struct CodexTokens {
    pub id_token: String,
    pub access_token: String,
    pub refresh_token: Option<String>,
}

/// How an account authenticates.
#[derive(Debug, Clone)]
pub enum CodexAuth {
    Tokens(CodexTokens),
    ApiKey(String),
}

#[derive(Debug, Clone)]
pub struct CodexAccount {
    pub id: String,
    pub email: String,
    pub auth: CodexAuth,
    pub token_source_mode: String,
    pub plan_type: Option<String>,
    pub capsule_label: Option<String>,
    pub quota: Option<CodexQuota>,
    /// The message of the last failed quota refresh.
    pub quota_error: Option<String>,
    pub usage_updated_at: Option<i64>,
}

impl CodexAccount {
    /// An account without a plan, a label or a quota.
    pub open spec fn is_fresh(self) -> bool {
        &&& self.token_source_mode@.len() == 0
        &&& self.plan_type is None
        &&& self.capsule_label is None
        &&& self.quota is None
        &&& self.quota_error is None
        &&& self.usage_updated_at is None
    }

    pub fn new(id: String, email: String, tokens: CodexTokens) -> (account: Self)
        ensures
            account.id == id,
            account.email == email,
            account.auth == CodexAuth::Tokens(tokens),
            account.is_fresh(),
    {
        CodexAccount {
            id,
            email,
            auth: CodexAuth::Tokens(tokens),
            token_source_mode: String::new(),
            plan_type: None,
            capsule_label: None,
            quota: None,
            quota_error: None,
            usage_updated_at: None,
        }
    }

    pub fn new_api_key(id: String, email: String, api_key: String) -> (account: Self)
        ensures
            account.id == id,
            account.email == email,
            account.auth == CodexAuth::ApiKey(api_key),
            account.is_fresh(),
    {
        CodexAccount {
            id,
            email,
            auth: CodexAuth::ApiKey(api_key),
            token_source_mode: String::new(),
            plan_type: None,
            capsule_label: None,
            quota: None,
            quota_error: None,
            usage_updated_at: None,
        }
    }

    pub fn is_api_key_auth(&self) -> (found: bool)
        ensures
            found == (self.auth is ApiKey),
    {
        match &self.auth {
            CodexAuth::ApiKey(_) => true,
            CodexAuth::Tokens(_) => false,
        }
    }
}

/// Tokens that can be used without a browser: they can be refreshed, or the access token is a
/// personal one.
pub open spec fn standalone_tokens(tokens: CodexTokens) -> bool {
    ||| crate::text::non_blank_text(tokens.refresh_token.deep_view()) is Some
    ||| crate::text::has_prefix(
        crate::text::trimmed(tokens.access_token@, CharClass::Space),
        PERSONAL_TOKEN_PREFIX@,
    )
}

/// An account whose quota can be shown by itself: one with standalone tokens of its own, neither
/// an API key nor a browser session.
pub open spec fn independent_account(account: CodexAccount) -> bool {
    &&& account.token_source_mode@ != WEB_SESSION_SOURCE_MODE@
    &&& account.auth matches CodexAuth::Tokens(tokens)
    &&& standalone_tokens(tokens)
}

pub fn is_supported_independent_account(account: &CodexAccount) -> (supported: bool)
    ensures
        supported == independent_account(*account),
{
    if same_text(account.token_source_mode.as_str(), WEB_SESSION_SOURCE_MODE) {
        return false;
    }
    match &account.auth {
        CodexAuth::ApiKey(_) => false,
        CodexAuth::Tokens(tokens) => {
            let refresh = match &tokens.refresh_token {
                Some(token) => non_blank(Some(token.as_str())),
                None => None,
            };
            if refresh.is_some() {
                return true;
            }
            let access = trim(tokens.access_token.as_str(), CharClass::Space);
            strip_prefix(access, PERSONAL_TOKEN_PREFIX).is_some()
        },
    }
}

/// What a profile is bound to.
#[derive(Debug)]
pub enum BindTarget {
    /// Nothing that a quota can be shown for.
    Unsupported,
    ApiService,
    /// The account with this id.
    Account(String),
}

/// A bind target with the account's id as a sequence of characters.
pub enum BindRoute {
    Unsupported,
    ApiService,
    Account(Seq<char>),
}

impl View for BindTarget {
    type V = BindRoute;

    open spec fn view(&self) -> BindRoute {
        match *self {
            BindTarget::Unsupported => BindRoute::Unsupported,
            BindTarget::ApiService => BindRoute::ApiService,
            BindTarget::Account(id) => BindRoute::Account(id@),
        }
    }
}

/// What the id of a binding stands for: blank ids and provider gateways for nothing, the service
/// id for the API service, and any other for the account that bears it.
pub open spec fn bind_route(bind_account_id: Option<Seq<char>>) -> BindRoute {
    match crate::text::non_blank_text(bind_account_id) {
        None => BindRoute::Unsupported,
        Some(id) => if id == API_SERVICE_BIND_ID@ {
            BindRoute::ApiService
        } else if crate::text::has_prefix(id, PROVIDER_GATEWAY_BIND_PREFIX@) {
            BindRoute::Unsupported
        } else {
            BindRoute::Account(id)
        },
    }
}

pub fn is_api_service_bind_account_id(bind_account_id: &str) -> (found: bool)
    ensures
        found == (bind_account_id@ == API_SERVICE_BIND_ID@),
{
    same_text(bind_account_id, API_SERVICE_BIND_ID)
}

pub fn bind_target(bind_account_id: Option<&str>) -> (target: BindTarget)
    ensures
        target@ == bind_route(bind_account_id.deep_view()),
{
    match non_blank(bind_account_id) {
        None => BindTarget::Unsupported,
        Some(id) => if is_api_service_bind_account_id(id.as_str()) {
            BindTarget::ApiService
        } else if strip_prefix(id.as_str(), PROVIDER_GATEWAY_BIND_PREFIX).is_some() {
            BindTarget::Unsupported
        } else {
            BindTarget::Account(id)
        },
    }
}

/// Whether a quota can be shown for a binding, given the account that it names if there is one.
pub open spec fn bind_supported(
    bind_account_id: Option<Seq<char>>,
    account: Option<CodexAccount>,
) -> bool {
    match bind_route(bind_account_id) {
        BindRoute::Unsupported => false,
        BindRoute::ApiService => true,
        BindRoute::Account(_) => account matches Some(a) && independent_account(a),
    }
}

/// Whether a quota can be shown for a binding. `account` is what the account store holds under
/// the id that `bind_target` gives.
pub fn supports_bind_account(
    bind_account_id: Option<&str>,
    account: Option<&CodexAccount>,
) -> (supported: bool)
    ensures
        supported == bind_supported(
            bind_account_id.deep_view(),
            match account {
                Some(a) => Some(*a),
                None => None,
            },
        ),
{
    match bind_target(bind_account_id) {
        BindTarget::Unsupported => false,
        BindTarget::ApiService => true,
        BindTarget::Account(_) => match account {
            Some(a) => is_supported_independent_account(a),
            None => false,
        },
    }
}

/// The API service id is a binding that quotas are shown for, whatever the account store holds;
/// white space around it does not matter.
pub proof fn law_api_service_binding(id: Seq<char>, account: Option<CodexAccount>)
    requires
        crate::text::trimmed(id, CharClass::Space) == API_SERVICE_BIND_ID@,
    ensures
        bind_supported(Some(id), account),
{
    reveal_strlit("__api_service__");
}

/// An unbound profile, a blank binding and a provider gateway have no quota to show.
pub proof fn law_unsupported_bindings(id: Seq<char>, account: Option<CodexAccount>)
    requires
        crate::text::trimmed(id, CharClass::Space).len() == 0 || crate::text::has_prefix(
            crate::text::trimmed(id, CharClass::Space),
            PROVIDER_GATEWAY_BIND_PREFIX@,
        ),
    ensures
        !bind_supported(Some(id), account),
        !bind_supported(None, account),
{
    reveal_strlit("__api_service__");
    reveal_strlit("__provider_gateway__:");
}

/// An account with tokens that can be refreshed shows its quota by itself, and so does one whose
/// access token is a personal one, unless it was taken over from a browser; no other does.
pub proof fn law_independent_accounts(account: CodexAccount, tokens: CodexTokens)
    ensures
        ({
            let access = crate::text::trimmed(tokens.access_token@, CharClass::Space);
            let personal = crate::text::has_prefix(access, "at-"@);
            let refreshable = tokens.refresh_token matches Some(token) && crate::text::trimmed(
                token@,
                CharClass::Space,
            ).len() > 0;
            let taken_over = account.token_source_mode@ == "chatgpt_web_session"@;
            &&& account.auth is ApiKey ==> !independent_account(account)
            &&& taken_over ==> !independent_account(account)
            &&& account.auth == CodexAuth::Tokens(tokens) && !taken_over ==> (independent_account(
                account,
            ) <==> personal || refreshable)
        }),
{
}

/// What an id stands for, without the white space around it: the API service by its own id, a
/// provider gateway by its prefix, an account by any other, and nothing where it is blank.
pub proof fn law_bindings_by_id(id: Seq<char>)
    ensures
        ({
            let name = crate::text::trimmed(id, CharClass::Space);
            &&& bind_route(None) is Unsupported
            &&& name.len() == 0 ==> bind_route(Some(id)) is Unsupported
            &&& name == "__api_service__"@ ==> bind_route(Some(id)) is ApiService
            &&& crate::text::has_prefix(name, "__provider_gateway__:"@) ==> bind_route(Some(id))
                is Unsupported
            &&& name.len() > 0 && name != "__api_service__"@ && !crate::text::has_prefix(
                name,
                "__provider_gateway__:"@,
            ) ==> bind_route(Some(id)) == BindRoute::Account(name)
        }),
{
    reveal_strlit("__api_service__");
    reveal_strlit("__provider_gateway__:");
    let name = crate::text::trimmed(id, CharClass::Space);
    if name == "__api_service__"@ && crate::text::has_prefix(name, "__provider_gateway__:"@) {
        assert(name.len() < "__provider_gateway__:"@.len());
    }
}

/// A binding to an account is supported exactly where the account store has an account for it that
/// shows its quota by itself.
pub proof fn law_account_bindings(id: Seq<char>, account: CodexAccount)
    requires
        bind_route(Some(id)) is Account,
    ensures
        !bind_supported(Some(id), None),
        bind_supported(Some(id), Some(account)) <==> independent_account(account),
{
}

/// A bind target means what it holds.
pub proof fn law_targets_mean_what_they_hold(id: String)
    ensures
        BindTarget::Unsupported@ is Unsupported,
        BindTarget::ApiService@ is ApiService,
        BindTarget::Account(id)@ == BindRoute::Account(id@),
{
}

/// A new account has no source of its tokens, no plan, no label, no quota and no error.
pub proof fn law_fresh_accounts(account: CodexAccount)
    ensures
        account.is_fresh() <==> {
            &&& account.token_source_mode@.len() == 0
            &&& account.plan_type is None
            &&& account.capsule_label is None
            &&& account.quota is None
            &&& account.quota_error is None
            &&& account.usage_updated_at is None
        },
{
}

} // verus!
