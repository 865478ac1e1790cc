//! The one way to refresh an account's quota: what is waited for, in which order, and what comes
//! of it.
use crate::backoff::{record_result, should_skip, RefreshStates};
use crate::text::{trim, CharClass};
use vstd::prelude::*;

verus! {

/// How many remote refreshes may run at once.
pub const GLOBAL_REFRESH_PERMITS: usize = 4;

/// How many of them may ask OpenAI.
pub const OPENAI_REFRESH_PERMITS: usize = 2;

/// How many refreshes of the background batch may be under way.
pub const SCHEDULED_REFRESH_PERMITS: usize = 1;

/// Why a quota is refreshed.
#[derive(Debug, Clone, Copy, PartialEq, Eq, Structural)]
pub enum RefreshReason {
    Scheduled,
    Manual,
    LoginOrImport,
    ApiRequest,
    ApiReserve,
}

impl RefreshReason {
    /// The name of the reason in the log.
    pub open spec fn name(self) -> Seq<char> {
        match self {
            RefreshReason::Scheduled => "scheduled"@,
            RefreshReason::Manual => "manual"@,
            RefreshReason::LoginOrImport => "login_or_import"@,
            RefreshReason::ApiRequest => "api_request"@,
            RefreshReason::ApiReserve => "api_reserve"@,
        }
    }

    pub fn label(self) -> (label: &'static str)
        ensures
            label@ == self.name(),
    {
        match self {
            RefreshReason::Scheduled => "scheduled",
            RefreshReason::Manual => "manual",
            RefreshReason::LoginOrImport => "login_or_import",
            RefreshReason::ApiRequest => "api_request",
            RefreshReason::ApiReserve => "api_reserve",
        }
    }

    /// Whether the refresh belongs to the background batch, which leaves the way free for others.
    pub fn is_background_batch(self) -> (background: bool)
        ensures
            background == (self is Scheduled),
    {
        match self {
            RefreshReason::Scheduled => true,
            _ => false,
        }
    }
}

/// What a refresh waits for.
#[derive(Debug, Clone, Copy, PartialEq, Eq, Structural)]
pub enum RefreshStage {
    /// A permit of the background batch.
    ScheduledPermit,
    /// The account's lock.
    AccountLock,
    /// The account, once another refresh of it has ended.
    JoinedAccount,
    /// The time.
    Clock,
    /// The account, because the remote service is left alone for now.
    HeldBackAccount,
    /// A permit for a remote refresh.
    GlobalPermit,
    /// The account that is to be refreshed.
    Account,
    /// A permit to ask OpenAI.
    OpenAiPermit,
    /// The remote service's answer.
    Quota,
}

/// A refresh under way.
#[derive(Debug)]
pub struct RefreshFlow {
    pub account_id: String,
    pub reason: RefreshReason,
    pub stage: RefreshStage,
}

/// What the account store holds of an account. `Q` is the quota, which is only handed on.
#[derive(Debug)]
pub struct StoredQuota<Q> {
    pub api_key_auth: bool,
    pub quota: Option<Q>,
    /// The message of the last failed refresh.
    pub quota_error: Option<String>,
}

/// What a refresh was waiting for.
#[derive(Debug)]
pub enum RefreshEvent<Q> {
    /// A permit was given, or the message says why not.
    Permit(Result<(), String>),
    /// The account's lock is held; `joined_existing` says that another refresh held it before.
    Locked { joined_existing: bool },
    /// The time, in seconds.
    Clock(i64),
    /// The account, where the store has it.
    Loaded(Option<StoredQuota<Q>>),
    /// The remote service's answer, and the time when it came.
    Fetched { result: Result<Q, String>, now: i64 },
}

/// How a refresh goes on.
#[derive(Debug)]
pub enum RefreshTurn<Q> {
    /// It waits for what the stage says.
    Next(RefreshFlow),
    /// It has ended. `announce` says that there is a new quota to tell of.
    Done { result: Result<Q, String>, announce: bool },
}

/// A turn, with its texts as sequences of characters.
pub enum RefreshOutlook<Q> {
    Next { account_id: Seq<char>, reason: RefreshReason, stage: RefreshStage },
    Done { result: Result<Q, Seq<char>>, announce: bool },
}

/// A result, with its message as a sequence of characters.
pub open spec fn result_text<T>(result: Result<T, String>) -> Result<T, Seq<char>> {
    match result {
        Ok(value) => Ok(value),
        Err(message) => Err(message@),
    }
}

impl<Q> View for RefreshTurn<Q> {
    type V = RefreshOutlook<Q>;

    open spec fn view(&self) -> RefreshOutlook<Q> {
        match *self {
            RefreshTurn::Next(flow) => RefreshOutlook::Next {
                account_id: flow.account_id@,
                reason: flow.reason,
                stage: flow.stage,
            },
            RefreshTurn::Done { result, announce } => RefreshOutlook::Done {
                result: result_text(result),
                announce,
            },
        }
    }
}

/// The refresh ends without a new quota.
pub open spec fn ended<Q>(result: Result<Q, Seq<char>>) -> RefreshOutlook<Q> {
    RefreshOutlook::Done { result, announce: false }
}

/// How a refresh begins: an account must be named, and the background batch gets its permit
/// before it may queue for an account.
pub open spec fn begun<Q>(account_id: Seq<char>, reason: RefreshReason) -> RefreshOutlook<Q> {
    let id = crate::text::trimmed(account_id, CharClass::Space);
    if id.len() == 0 {
        ended(Err("Codex 账号 ID 不能为空"@))
    } else {
        RefreshOutlook::Next {
            account_id: id,
            reason,
            stage: if reason is Scheduled {
                RefreshStage::ScheduledPermit
            } else {
                RefreshStage::AccountLock
            },
        }
    }
}

/// An event is what a refresh waits for at a stage.
pub open spec fn answers<Q>(stage: RefreshStage, event: RefreshEvent<Q>) -> bool {
    match stage {
        RefreshStage::ScheduledPermit => event is Permit,
        RefreshStage::AccountLock => event is Locked,
        RefreshStage::JoinedAccount => event is Loaded,
        RefreshStage::Clock => event is Clock,
        RefreshStage::HeldBackAccount => event is Loaded,
        RefreshStage::GlobalPermit => event is Permit,
        RefreshStage::Account => event is Loaded,
        RefreshStage::OpenAiPermit => event is Permit,
        RefreshStage::Quota => event is Fetched,
    }
}

/// The message for an account that the store does not have.
pub open spec fn not_found(account_id: Seq<char>) -> Seq<char> {
    "未找到 Codex 账号: "@ + account_id
}

/// What another refresh of the account has left in the store: its error, else its quota.
pub open spec fn joined_result<Q>(
    account_id: Seq<char>,
    stored: Option<StoredQuota<Q>>,
) -> Result<Q, Seq<char>> {
    match stored {
        None => Err(not_found(account_id)),
        Some(account) => match (account.quota_error, account.quota) {
            (Some(message), _) => Err(message@),
            (None, Some(quota)) => Ok(quota),
            (None, None) => Err("Codex 额度刷新完成但没有可用数据"@),
        },
    }
}

/// What the store holds while the remote service is left alone.
pub open spec fn held_back_result<Q>(
    account_id: Seq<char>,
    stored: Option<StoredQuota<Q>>,
) -> Result<Q, Seq<char>> {
    match stored {
        None => Err(not_found(account_id)),
        Some(account) => match account.quota {
            Some(quota) => Ok(quota),
            None => Err("Codex 额度刷新处于退避期，且暂无可用缓存"@),
        },
    }
}

/// How a refresh goes on after an event: the permits and the lock one after another, and the
/// remote service only once the account is neither just refreshed by another nor held back. It
/// stays where it is on an event that it does not wait for.
pub open spec fn continued<Q>(
    account_id: Seq<char>,
    reason: RefreshReason,
    stage: RefreshStage,
    event: RefreshEvent<Q>,
    states: Map<Seq<char>, crate::backoff::AccountRefreshState>,
) -> RefreshOutlook<Q> {
    let wait = |stage: RefreshStage| RefreshOutlook::<Q>::Next { account_id, reason, stage };
    match (stage, event) {
        (RefreshStage::ScheduledPermit, RefreshEvent::Permit(Ok(_))) => wait(
            RefreshStage::AccountLock,
        ),
        (RefreshStage::ScheduledPermit, RefreshEvent::Permit(Err(error))) => ended(
            Err("获取 Codex 后台刷新许可失败: "@ + error@),
        ),
        (RefreshStage::AccountLock, RefreshEvent::Locked { joined_existing }) => wait(
            if joined_existing {
                RefreshStage::JoinedAccount
            } else {
                RefreshStage::Clock
            },
        ),
        (RefreshStage::JoinedAccount, RefreshEvent::Loaded(stored)) => ended(
            joined_result(account_id, stored),
        ),
        (RefreshStage::Clock, RefreshEvent::Clock(now)) => wait(
            if crate::backoff::is_held_back(crate::backoff::state_of(states, account_id), now) {
                RefreshStage::HeldBackAccount
            } else {
                RefreshStage::GlobalPermit
            },
        ),
        (RefreshStage::HeldBackAccount, RefreshEvent::Loaded(stored)) => ended(
            held_back_result(account_id, stored),
        ),
        (RefreshStage::GlobalPermit, RefreshEvent::Permit(Ok(_))) => wait(RefreshStage::Account),
        (RefreshStage::GlobalPermit, RefreshEvent::Permit(Err(error))) => ended(
            Err("获取 Codex 全局刷新许可失败: "@ + error@),
        ),
        (RefreshStage::Account, RefreshEvent::Loaded(None)) => ended(Err(not_found(account_id))),
        (RefreshStage::Account, RefreshEvent::Loaded(Some(account))) => wait(
            if account.api_key_auth {
                RefreshStage::Quota
            } else {
                RefreshStage::OpenAiPermit
            },
        ),
        (RefreshStage::OpenAiPermit, RefreshEvent::Permit(Ok(_))) => wait(RefreshStage::Quota),
        (RefreshStage::OpenAiPermit, RefreshEvent::Permit(Err(error))) => ended(
            Err("获取 OpenAI 额度刷新许可失败: "@ + error@),
        ),
        (RefreshStage::Quota, RefreshEvent::Fetched { result, now: _ }) => RefreshOutlook::Done {
            result: result_text(result),
            announce: result is Ok,
        },
        _ => wait(stage),
    }
}

/// What is remembered of the attempts after an event: the remote service's answer is, where it is
/// waited for, and nothing else.
pub open spec fn remembered<Q>(
    account_id: Seq<char>,
    stage: RefreshStage,
    event: RefreshEvent<Q>,
    states: Map<Seq<char>, crate::backoff::AccountRefreshState>,
) -> Map<Seq<char>, crate::backoff::AccountRefreshState> {
    match (stage, event) {
        (RefreshStage::Quota, RefreshEvent::Fetched { result, now }) => states.insert(
            account_id,
            crate::backoff::after_attempt(
                crate::backoff::state_of(states, account_id),
                result is Ok,
                now,
            ),
        ),
        _ => states,
    }
}

/// `prefix` followed by `rest`.
fn message(prefix: &str, rest: &str) -> (text: String)
    ensures
        text@ == prefix@ + rest@,
{
    let mut text = prefix.to_owned();
    text.append(rest);
    text
}

/// Begins a refresh of an account's quota.
pub fn refresh_account<Q>(account_id: &str, reason: RefreshReason) -> (turn: RefreshTurn<Q>)
    ensures
        turn@ == begun::<Q>(account_id@, reason),
{
    let id = trim(account_id, CharClass::Space);
    if id.is_empty() {
        return RefreshTurn::Done {
            result: Err("Codex 账号 ID 不能为空".to_owned()),
            announce: false,
        };
    }
    let stage = if reason.is_background_batch() {
        RefreshStage::ScheduledPermit
    } else {
        RefreshStage::AccountLock
    };
    RefreshTurn::Next(RefreshFlow { account_id: id.to_owned(), reason, stage })
}

fn end<Q>(result: Result<Q, String>) -> (turn: RefreshTurn<Q>)
    ensures
        turn@ == ended(result_text(result)),
{
    RefreshTurn::Done { result, announce: false }
}

fn joined_turn<Q>(account_id: &str, stored: Option<StoredQuota<Q>>) -> (turn: RefreshTurn<Q>)
    ensures
        turn@ == ended(joined_result(account_id@, stored)),
{
    match stored {
        None => end(Err(message("未找到 Codex 账号: ", account_id))),
        Some(account) => match account.quota_error {
            Some(error) => end(Err(error)),
            None => match account.quota {
                Some(quota) => end(Ok(quota)),
                None => end(Err("Codex 额度刷新完成但没有可用数据".to_owned())),
            },
        },
    }
}

fn held_back_turn<Q>(account_id: &str, stored: Option<StoredQuota<Q>>) -> (turn: RefreshTurn<Q>)
    ensures
        turn@ == ended(held_back_result(account_id@, stored)),
{
    match stored {
        None => end(Err(message("未找到 Codex 账号: ", account_id))),
        Some(account) => match account.quota {
            Some(quota) => end(Ok(quota)),
            None => end(Err("Codex 额度刷新处于退避期，且暂无可用缓存".to_owned())),
        },
    }
}

/// Takes a refresh on to what it waits for next. `states` are the attempts so far, of this
/// refresh and of all others.
pub fn advance<Q>(
    flow: RefreshFlow,
    event: RefreshEvent<Q>,
    states: &mut RefreshStates,
) -> (turn: RefreshTurn<Q>)
    ensures
        final(states)@ == remembered(flow.account_id@, flow.stage, event, old(states)@),
        turn@ == continued(flow.account_id@, flow.reason, flow.stage, event, old(states)@),
{
    let RefreshFlow { account_id, reason, stage } = flow;
    let next: RefreshStage = match (stage, event) {
        (RefreshStage::ScheduledPermit, RefreshEvent::Permit(permit)) => match permit {
            Ok(_) => RefreshStage::AccountLock,
            Err(error) => return end(
                Err(message("获取 Codex 后台刷新许可失败: ", error.as_str())),
            ),
        },
        (RefreshStage::AccountLock, RefreshEvent::Locked { joined_existing }) => if joined_existing {
            RefreshStage::JoinedAccount
        } else {
            RefreshStage::Clock
        },
        (RefreshStage::JoinedAccount, RefreshEvent::Loaded(stored)) => return joined_turn(
            account_id.as_str(),
            stored,
        ),
        (RefreshStage::Clock, RefreshEvent::Clock(now)) => if should_skip(
            states,
            account_id.as_str(),
            now,
        ) {
            RefreshStage::HeldBackAccount
        } else {
            RefreshStage::GlobalPermit
        },
        (RefreshStage::HeldBackAccount, RefreshEvent::Loaded(stored)) => return held_back_turn(
            account_id.as_str(),
            stored,
        ),
        (RefreshStage::GlobalPermit, RefreshEvent::Permit(permit)) => match permit {
            Ok(_) => RefreshStage::Account,
            Err(error) => return end(
                Err(message("获取 Codex 全局刷新许可失败: ", error.as_str())),
            ),
        },
        (RefreshStage::Account, RefreshEvent::Loaded(stored)) => match stored {
            None => return end(Err(message("未找到 Codex 账号: ", account_id.as_str()))),
            Some(account) => if account.api_key_auth {
                RefreshStage::Quota
            } else {
                RefreshStage::OpenAiPermit
            },
        },
        (RefreshStage::OpenAiPermit, RefreshEvent::Permit(permit)) => match permit {
            Ok(_) => RefreshStage::Quota,
            Err(error) => return end(
                Err(message("获取 OpenAI 额度刷新许可失败: ", error.as_str())),
            ),
        },
        (RefreshStage::Quota, RefreshEvent::Fetched { result, now }) => {
            let success = result.is_ok();
            record_result(states, account_id.as_str(), success, now);
            return RefreshTurn::Done { result, announce: success };
        },
        _ => stage,
    };
    RefreshTurn::Next(RefreshFlow { account_id, reason, stage: next })
}

/// The attempts that are remembered of all accounts.
pub type States = Map<Seq<char>, crate::backoff::AccountRefreshState>;

/// How a refresh stands after some events, each with the attempts that were remembered when it
/// came.
pub open spec fn run<Q>(
    start: RefreshOutlook<Q>,
    events: Seq<(RefreshEvent<Q>, States)>,
) -> RefreshOutlook<Q>
    decreases events.len(),
{
    if events.len() == 0 {
        start
    } else {
        match run(start, events.drop_last()) {
            RefreshOutlook::Next { account_id, reason, stage } => continued(
                account_id,
                reason,
                stage,
                events.last().0,
                events.last().1,
            ),
            done => done,
        }
    }
}

/// Each event is what the refresh waits for when it comes.
pub open spec fn in_order<Q>(
    start: RefreshOutlook<Q>,
    events: Seq<(RefreshEvent<Q>, States)>,
) -> bool
    decreases events.len(),
{
    events.len() > 0 ==> {
        &&& in_order(start, events.drop_last())
        &&& run(start, events.drop_last()) matches RefreshOutlook::Next { stage, .. }
        &&& answers(stage, events.last().0)
    }
}

/// The number of permits that a refresh needs before it may queue for the account.
pub open spec fn early_permits(reason: RefreshReason) -> int {
    if reason is Scheduled {
        1
    } else {
        0
    }
}

/// An event gives a permit.
pub open spec fn is_permit<Q>(event: RefreshEvent<Q>) -> bool {
    event matches RefreshEvent::Permit(Ok(_))
}

/// The permit of the background batch, where it is needed, came first.
pub open spec fn admitted<Q>(reason: RefreshReason, events: Seq<(RefreshEvent<Q>, States)>) -> bool {
    reason is Scheduled ==> is_permit(events[0].0)
}

/// The account's lock was free, and the account was not held back then.
pub open spec fn locked_and_free<Q>(
    account_id: Seq<char>,
    reason: RefreshReason,
    events: Seq<(RefreshEvent<Q>, States)>,
) -> bool {
    let first = early_permits(reason);
    &&& admitted(reason, events)
    &&& events[first].0 == (RefreshEvent::<Q>::Locked { joined_existing: false })
    &&& events[first + 1].0 matches RefreshEvent::Clock(now)
    &&& !crate::backoff::is_held_back(
        crate::backoff::state_of(events[first + 1].1, account_id),
        now,
    )
}

/// A permit for a remote refresh was given, and the account was found.
pub open spec fn permitted_and_found<Q>(
    account_id: Seq<char>,
    reason: RefreshReason,
    events: Seq<(RefreshEvent<Q>, States)>,
    api_key_auth: bool,
) -> bool {
    let first = early_permits(reason);
    &&& locked_and_free(account_id, reason, events)
    &&& is_permit(events[first + 2].0)
    &&& events[first + 3].0 matches RefreshEvent::Loaded(Some(account))
    &&& account.api_key_auth == api_key_auth
}

/// What has come by the time a stage is reached.
pub open spec fn way_to<Q>(
    stage: RefreshStage,
    account_id: Seq<char>,
    reason: RefreshReason,
    events: Seq<(RefreshEvent<Q>, States)>,
) -> bool {
    let first = early_permits(reason);
    match stage {
        RefreshStage::ScheduledPermit => reason is Scheduled && events.len() == 0,
        RefreshStage::AccountLock => events.len() == first && admitted(reason, events),
        RefreshStage::JoinedAccount => {
            &&& events.len() == first + 1
            &&& admitted(reason, events)
            &&& events[first].0 == (RefreshEvent::<Q>::Locked { joined_existing: true })
        },
        RefreshStage::Clock => {
            &&& events.len() == first + 1
            &&& admitted(reason, events)
            &&& events[first].0 == (RefreshEvent::<Q>::Locked { joined_existing: false })
        },
        RefreshStage::HeldBackAccount => {
            &&& events.len() == first + 2
            &&& admitted(reason, events)
            &&& events[first].0 == (RefreshEvent::<Q>::Locked { joined_existing: false })
            &&& events[first + 1].0 matches RefreshEvent::Clock(now)
            &&& crate::backoff::is_held_back(
                crate::backoff::state_of(events[first + 1].1, account_id),
                now,
            )
        },
        RefreshStage::GlobalPermit => events.len() == first + 2 && locked_and_free(
            account_id,
            reason,
            events,
        ),
        RefreshStage::Account => {
            &&& events.len() == first + 3
            &&& locked_and_free(account_id, reason, events)
            &&& is_permit(events[first + 2].0)
        },
        RefreshStage::OpenAiPermit => events.len() == first + 4 && permitted_and_found(
            account_id,
            reason,
            events,
            false,
        ),
        RefreshStage::Quota => {
            ||| events.len() == first + 4 && permitted_and_found(account_id, reason, events, true)
            ||| {
                &&& events.len() == first + 5
                &&& permitted_and_found(account_id, reason, events, false)
                &&& is_permit(events[first + 4].0)
            }
        },
    }
}

/// Each stage is reached in one way only. In particular the remote service is asked only for an
/// account whose lock is held, that no other refresh was just at work on, that is not held back
/// and that the store has, with a permit for a remote refresh, and with one for OpenAI unless the
/// account has an API key; and the background batch gets its permit before it queues for the
/// account.
pub proof fn law_way_to_each_stage<Q>(
    account_id: Seq<char>,
    reason: RefreshReason,
    events: Seq<(RefreshEvent<Q>, States)>,
)
    requires
        in_order(begun::<Q>(account_id, reason), events),
    ensures
        run(begun::<Q>(account_id, reason), events) matches RefreshOutlook::Next {
            account_id: id,
            reason: why,
            stage,
        } ==> {
            &&& id == crate::text::trimmed(account_id, CharClass::Space)
            &&& why == reason
            &&& way_to(stage, id, reason, events)
        },
    decreases events.len(),
{
    if events.len() > 0 {
        let before = events.drop_last();
        law_way_to_each_stage(account_id, reason, before);
        assert(forall|i: int| 0 <= i < before.len() ==> before[i] == events[i]);
    }
}

/// How many events a stage is away from the end at most.
pub open spec fn events_left(stage: RefreshStage) -> nat {
    match stage {
        RefreshStage::ScheduledPermit => 7,
        RefreshStage::AccountLock => 6,
        RefreshStage::Clock => 5,
        RefreshStage::GlobalPermit => 4,
        RefreshStage::Account => 3,
        RefreshStage::OpenAiPermit => 2,
        RefreshStage::Quota => 1,
        RefreshStage::JoinedAccount => 1,
        RefreshStage::HeldBackAccount => 1,
    }
}

/// A refresh ends: each event that it waits for takes it nearer to the end.
pub proof fn law_refresh_ends<Q>(
    account_id: Seq<char>,
    reason: RefreshReason,
    stage: RefreshStage,
    event: RefreshEvent<Q>,
    states: States,
)
    requires
        answers(stage, event),
    ensures
        continued(account_id, reason, stage, event, states) matches RefreshOutlook::Next {
            stage: next,
            ..
        } ==> events_left(next) < events_left(stage),
{
}

/// A new quota is announced exactly where the remote service gave one.
pub proof fn law_only_new_quotas_are_announced<Q>(
    account_id: Seq<char>,
    reason: RefreshReason,
    stage: RefreshStage,
    event: RefreshEvent<Q>,
    states: States,
)
    requires
        answers(stage, event),
    ensures
        continued(account_id, reason, stage, event, states) matches RefreshOutlook::Done {
            announce: true,
            ..
        } <==> (event matches RefreshEvent::Fetched { result: Ok(_), .. }),
{
}

/// After a failed answer a refresh of the same account leaves the remote service alone for a
/// minute at least. Times at the very end of the range of `i64` are left out.
pub proof fn law_failure_spares_the_service<Q>(
    account_id: Seq<char>,
    reason: RefreshReason,
    error: String,
    now: i64,
    later: i64,
    states: States,
)
    requires
        later < now + 60,
        now + 900 <= i64::MAX,
    ensures
        ({
            let failed = RefreshEvent::<Q>::Fetched { result: Err(error), now };
            continued(
                account_id,
                reason,
                RefreshStage::Clock,
                RefreshEvent::<Q>::Clock(later),
                remembered(account_id, RefreshStage::Quota, failed, states),
            ) == (RefreshOutlook::<Q>::Next {
                account_id,
                reason,
                stage: RefreshStage::HeldBackAccount,
            })
        }),
{
}

/// After a quota was given a refresh of the same account uses what the store holds for half a
/// minute.
pub proof fn law_new_quota_is_used_again<Q>(
    account_id: Seq<char>,
    reason: RefreshReason,
    quota: Q,
    stored: StoredQuota<Q>,
    now: i64,
    later: i64,
    states: States,
)
    requires
        stored.quota == Some(quota),
        later < now + 30,
    ensures
        ({
            let fetched = RefreshEvent::<Q>::Fetched { result: Ok(quota), now };
            let outlook = continued(
                account_id,
                reason,
                RefreshStage::Clock,
                RefreshEvent::<Q>::Clock(later),
                remembered(account_id, RefreshStage::Quota, fetched, states),
            );
            &&& outlook == (RefreshOutlook::<Q>::Next {
                account_id,
                reason,
                stage: RefreshStage::HeldBackAccount,
            })
            &&& held_back_result(account_id, Some(stored)) == Ok::<Q, Seq<char>>(quota)
        }),
{
}

/// An event that a refresh does not wait for changes nothing.
pub proof fn law_other_events_change_nothing<Q>(
    account_id: Seq<char>,
    reason: RefreshReason,
    stage: RefreshStage,
    event: RefreshEvent<Q>,
    states: States,
)
    requires
        !answers(stage, event),
    ensures
        continued(account_id, reason, stage, event, states) == (RefreshOutlook::<Q>::Next {
            account_id,
            reason,
            stage,
        }),
        remembered(account_id, stage, event, states) == states,
{
}

/// A refresh begins with the trimmed id of an account, which must not be blank: one of the
/// background batch waits for its permit first, and any other for the account's lock.
pub proof fn law_refreshes_begin<Q>(account_id: Seq<char>, reason: RefreshReason)
    ensures
        ({
            let id = crate::text::trimmed(account_id, CharClass::Space);
            let begun = begun::<Q>(account_id, reason);
            &&& id.len() == 0 ==> begun == (RefreshOutlook::<Q>::Done {
                result: Err("Codex 账号 ID 不能为空"@),
                announce: false,
            })
            &&& id.len() > 0 && reason == RefreshReason::Scheduled ==> begun
                == (RefreshOutlook::<Q>::Next {
                account_id: id,
                reason,
                stage: RefreshStage::ScheduledPermit,
            })
            &&& id.len() > 0 && reason != RefreshReason::Scheduled ==> begun
                == (RefreshOutlook::<Q>::Next {
                account_id: id,
                reason,
                stage: RefreshStage::AccountLock,
            })
        }),
{
}

/// A permit takes a refresh on: to the account's lock, to the account, or to the remote service. A
/// permit that is refused ends it, with a message that says which permit it was and why.
pub proof fn law_permits_take_a_refresh_on<Q>(
    id: Seq<char>,
    reason: RefreshReason,
    error: String,
    states: States,
)
    ensures
        ({
            let given = RefreshEvent::<Q>::Permit(Ok(()));
            let refused = RefreshEvent::<Q>::Permit(Err(error));
            let at = |stage: RefreshStage| RefreshOutlook::<Q>::Next {
                account_id: id,
                reason,
                stage,
            };
            let failed = |message: Seq<char>| RefreshOutlook::<Q>::Done {
                result: Err(message),
                announce: false,
            };
            &&& continued(id, reason, RefreshStage::ScheduledPermit, given, states) == at(
                RefreshStage::AccountLock,
            )
            &&& continued(id, reason, RefreshStage::GlobalPermit, given, states) == at(
                RefreshStage::Account,
            )
            &&& continued(id, reason, RefreshStage::OpenAiPermit, given, states) == at(
                RefreshStage::Quota,
            )
            &&& continued(id, reason, RefreshStage::ScheduledPermit, refused, states) == failed(
                "获取 Codex 后台刷新许可失败: "@ + error@,
            )
            &&& continued(id, reason, RefreshStage::GlobalPermit, refused, states) == failed(
                "获取 Codex 全局刷新许可失败: "@ + error@,
            )
            &&& continued(id, reason, RefreshStage::OpenAiPermit, refused, states) == failed(
                "获取 OpenAI 额度刷新许可失败: "@ + error@,
            )
        }),
{
}

/// Behind the account's lock a refresh takes over what another one has just done, or looks at the
/// time: it is held back after a failure that is to be waited out, and within half a minute of
/// the last attempt; otherwise it asks for a remote permit.
pub proof fn law_locked_accounts_are_looked_at<Q>(
    id: Seq<char>,
    reason: RefreshReason,
    now: i64,
    states: States,
)
    ensures
        ({
            let at = |stage: RefreshStage| RefreshOutlook::<Q>::Next {
                account_id: id,
                reason,
                stage,
            };
            let state = states[id];
            let waits = states.contains_key(id) && state.retry_at is Some && state.retry_at->0
                > now;
            let recent = states.contains_key(id) && state.last_attempt_at is Some && now
                - state.last_attempt_at->0 < 30;
            &&& continued(
                id,
                reason,
                RefreshStage::AccountLock,
                RefreshEvent::<Q>::Locked { joined_existing: true },
                states,
            ) == at(RefreshStage::JoinedAccount)
            &&& continued(
                id,
                reason,
                RefreshStage::AccountLock,
                RefreshEvent::<Q>::Locked { joined_existing: false },
                states,
            ) == at(RefreshStage::Clock)
            &&& continued(
                id,
                reason,
                RefreshStage::Clock,
                RefreshEvent::<Q>::Clock(now),
                states,
            ) == at(
                if waits || recent {
                    RefreshStage::HeldBackAccount
                } else {
                    RefreshStage::GlobalPermit
                },
            )
        }),
{
}

/// An account that the store does not have ends a refresh wherever it is looked for, with a
/// message that names it.
pub proof fn law_missing_accounts_end_a_refresh<Q>(
    id: Seq<char>,
    reason: RefreshReason,
    states: States,
)
    ensures
        ({
            let missing = RefreshEvent::<Q>::Loaded(None);
            let failed = RefreshOutlook::<Q>::Done {
                result: Err("未找到 Codex 账号: "@ + id),
                announce: false,
            };
            &&& continued(id, reason, RefreshStage::JoinedAccount, missing, states) == failed
            &&& continued(id, reason, RefreshStage::HeldBackAccount, missing, states) == failed
            &&& continued(id, reason, RefreshStage::Account, missing, states) == failed
        }),
{
}

/// What the store has of an account: a refresh that another one has just done gives its error, or
/// else its quota; one that is held back gives the quota whatever the error; and one that is to be
/// done goes on to the remote service, by way of a permit unless the account has an API key.
pub proof fn law_stored_accounts_are_used<Q>(
    id: Seq<char>,
    reason: RefreshReason,
    stored: StoredQuota<Q>,
    states: States,
)
    ensures
        ({
            let loaded = RefreshEvent::Loaded(Some(stored));
            let done = |result: Result<Q, Seq<char>>| RefreshOutlook::<Q>::Done {
                result,
                announce: false,
            };
            let joined = continued(id, reason, RefreshStage::JoinedAccount, loaded, states);
            let held = continued(id, reason, RefreshStage::HeldBackAccount, loaded, states);
            &&& stored.quota_error matches Some(error) ==> joined == done(Err(error@))
            &&& stored.quota_error is None ==> {
                &&& stored.quota matches Some(quota) ==> joined == done(Ok(quota))
                &&& stored.quota is None ==> joined == done(
                    Err("Codex 额度刷新完成但没有可用数据"@),
                )
            }
            &&& stored.quota matches Some(quota) ==> held == done(Ok(quota))
            &&& stored.quota is None ==> held == done(
                Err("Codex 额度刷新处于退避期，且暂无可用缓存"@),
            )
            &&& continued(id, reason, RefreshStage::Account, loaded, states)
                == (RefreshOutlook::<Q>::Next {
                account_id: id,
                reason,
                stage: if stored.api_key_auth {
                    RefreshStage::Quota
                } else {
                    RefreshStage::OpenAiPermit
                },
            })
        }),
{
}

/// The remote service's answer is what a refresh gives, and it is remembered of the account, and of
/// no other, as a success or as a failure.
pub proof fn law_answers_are_given_and_remembered<Q>(
    id: Seq<char>,
    other: Seq<char>,
    reason: RefreshReason,
    quota: Q,
    error: String,
    now: i64,
    states: States,
)
    requires
        other != id,
    ensures
        ({
            let good = RefreshEvent::Fetched { result: Ok(quota), now };
            let bad = RefreshEvent::<Q>::Fetched { result: Err(error), now };
            let after_good = remembered(id, RefreshStage::Quota, good, states);
            let after_bad = remembered(id, RefreshStage::Quota, bad, states);
            &&& continued(id, reason, RefreshStage::Quota, good, states)
                == (RefreshOutlook::Done { result: Ok(quota), announce: true })
            &&& continued(id, reason, RefreshStage::Quota, bad, states)
                == (RefreshOutlook::<Q>::Done { result: Err(error@), announce: false })
            &&& after_good.contains_key(id) && after_bad.contains_key(id)
            &&& after_good[id].last_success_at == Some(now)
            &&& after_good[id].consecutive_failures == 0
            &&& after_good[id].retry_at is None
            &&& after_bad[id].last_attempt_at == Some(now)
            &&& after_bad[id].retry_at is Some
            &&& after_bad[id].consecutive_failures > 0
            &&& after_good.get(other) == states.get(other)
            &&& after_bad.get(other) == states.get(other)
        }),
{
}

/// Which events answer which stage.
pub proof fn law_each_stage_has_its_event<Q>(
    permit: Result<(), String>,
    joined_existing: bool,
    now: i64,
    stored: Option<StoredQuota<Q>>,
    result: Result<Q, String>,
    stage: RefreshStage,
)
    ensures
        answers(stage, RefreshEvent::<Q>::Permit(permit)) <==> stage is ScheduledPermit || stage
            is GlobalPermit || stage is OpenAiPermit,
        answers(stage, RefreshEvent::<Q>::Locked { joined_existing }) <==> stage is AccountLock,
        answers(stage, RefreshEvent::<Q>::Clock(now)) <==> stage is Clock,
        answers(stage, RefreshEvent::Loaded(stored)) <==> stage is JoinedAccount || stage
            is HeldBackAccount || stage is Account,
        answers(stage, RefreshEvent::Fetched { result, now }) <==> stage is Quota,
{
}

/// A turn means what it holds.
pub proof fn law_turns_mean_what_they_hold<Q>(
    flow: RefreshFlow,
    quota: Q,
    error: String,
    announce: bool,
)
    ensures
        RefreshTurn::<Q>::Next(flow)@ == (RefreshOutlook::<Q>::Next {
            account_id: flow.account_id@,
            reason: flow.reason,
            stage: flow.stage,
        }),
        (RefreshTurn::Done { result: Ok(quota), announce })@ == (RefreshOutlook::Done {
            result: Ok(quota),
            announce,
        }),
        (RefreshTurn::<Q>::Done { result: Err(error), announce })@ == (RefreshOutlook::<Q>::Done {
            result: Err(error@),
            announce,
        }),
        result_text(Ok::<Q, String>(quota)) == Ok::<Q, Seq<char>>(quota),
        result_text(Err::<Q, String>(error)) == Err::<Q, Seq<char>>(error@),
{
}

/// The reasons go by different names.
pub proof fn law_reasons_have_names()
    ensures
        RefreshReason::Scheduled.name() == "scheduled"@,
        RefreshReason::Manual.name() == "manual"@,
        RefreshReason::LoginOrImport.name() == "login_or_import"@,
        RefreshReason::ApiRequest.name() == "api_request"@,
        RefreshReason::ApiReserve.name() == "api_reserve"@,
{
}

/// How many refreshes may be under way: four at remote services, two of them at OpenAI, and one of
/// the background batch.
pub proof fn law_numbers_of_permits()
    ensures
        GLOBAL_REFRESH_PERMITS == 4,
        OPENAI_REFRESH_PERMITS == 2,
        SCHEDULED_REFRESH_PERMITS == 1,
{
}

} // verus!
