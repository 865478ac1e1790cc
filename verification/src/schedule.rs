//! When the quota of an account is read again.
use crate::account::CodexAccount;
use crate::table::TextTable;
use crate::text::same_text;
use vstd::prelude::*;

verus! {

/// The time between two looks at which accounts are due.
pub const SCHEDULER_TICK_SECONDS: u64 = 5;

/// The time between a request to the API and the refresh that it sets off.
pub const API_REQUEST_DELAY_SECONDS: u64 = 5;

/// How often the accounts of a group are refreshed.
#[derive(Debug, Clone, Copy, PartialEq, Eq)]
pub enum CodexGroupQuotaRefreshPolicy {
    Disabled,
    Minutes(i32),
    Inherit,
}

/// How often the account in use is refreshed; no positive number means that it has no interval of
/// its own.
#[derive(Debug, Clone, Copy)]
pub struct CurrentAccountInterval {
    pub seconds: i64,
}

impl CurrentAccountInterval {
    pub fn new() -> (interval: Self)
        ensures
            interval.seconds == 60,
    {
        CurrentAccountInterval { seconds: 60 }
    }
}

/// Sets the interval of the account in use; no positive number of minutes switches it off.
pub fn configure_current_account_interval(interval: &mut CurrentAccountInterval, minutes: i32)
    ensures
        final(interval).seconds == if minutes > 0 {
            minutes * 60
        } else {
            -1
        },
{
    if minutes > 0 {
        interval.seconds = minutes as i64 * 60;
    } else {
        interval.seconds = -1;
    }
}

/// How often a policy has an account refreshed, `configured_minutes` being the user's setting;
/// `None` where it does not.
pub open spec fn background_interval(
    policy: CodexGroupQuotaRefreshPolicy,
    configured_minutes: i32,
) -> Option<int> {
    match policy {
        CodexGroupQuotaRefreshPolicy::Disabled => None,
        CodexGroupQuotaRefreshPolicy::Minutes(minutes) => Some(minutes * 60),
        CodexGroupQuotaRefreshPolicy::Inherit => if configured_minutes > 0 {
            Some(configured_minutes * 60)
        } else {
            None
        },
    }
}

/// How often an account is refreshed: as often as its policy says and, for the account in use, no
/// less often than its own interval says; `None` where the policy does not have it refreshed.
pub open spec fn effective_interval(
    policy: CodexGroupQuotaRefreshPolicy,
    is_current: bool,
    current_seconds: i64,
    configured_minutes: i32,
) -> Option<int> {
    match background_interval(policy, configured_minutes) {
        Some(background) => if is_current && 0 < current_seconds < background {
            Some(current_seconds as int)
        } else {
            Some(background)
        },
        None => None,
    }
}

pub fn effective_interval_seconds(
    policy: CodexGroupQuotaRefreshPolicy,
    is_current: bool,
    current: &CurrentAccountInterval,
    configured_minutes: i32,
) -> (seconds: Option<i64>)
    ensures
        (match seconds {
            Some(s) => Some(s as int),
            None => None,
        }) == effective_interval(policy, is_current, current.seconds, configured_minutes),
{
    let background: i64 = match policy {
        CodexGroupQuotaRefreshPolicy::Disabled => {
            return None;
        },
        CodexGroupQuotaRefreshPolicy::Minutes(minutes) => minutes as i64 * 60,
        CodexGroupQuotaRefreshPolicy::Inherit => {
            if configured_minutes <= 0 {
                return None;
            }
            configured_minutes as i64 * 60
        },
    };
    if is_current && current.seconds > 0 && current.seconds < background {
        Some(current.seconds)
    } else {
        Some(background)
    }
}

/// `n` moved into the range of `i64`.
pub open spec fn saturated(n: int) -> int {
    if n > i64::MAX {
        i64::MAX as int
    } else if n < i64::MIN {
        i64::MIN as int
    } else {
        n
    }
}

pub fn saturating_sum(a: i64, b: i64) -> (sum: i64)
    ensures
        sum == saturated(a + b),
{
    let sum: i128 = a as i128 + b as i128;
    if sum > i64::MAX as i128 {
        i64::MAX
    } else if sum < i64::MIN as i128 {
        i64::MIN
    } else {
        sum as i64
    }
}

pub fn saturating_difference(a: i64, b: i64) -> (difference: i64)
    ensures
        difference == saturated(a - b),
{
    let difference: i128 = a as i128 - b as i128;
    if difference > i64::MAX as i128 {
        i64::MAX
    } else if difference < i64::MIN as i128 {
        i64::MIN
    } else {
        difference as i64
    }
}

/// The number that the bytes of an account's id write down in base 31.
pub open spec fn id_weight(bytes: Seq<u8>) -> nat
    decreases bytes.len(),
{
    if bytes.len() == 0 {
        0
    } else {
        id_weight(bytes.drop_last()) * 31 + bytes.last() as nat
    }
}

/// The number of seconds over which refreshes with the same interval are spread: a tenth of the
/// interval, and at least one.
pub open spec fn spread(interval_seconds: int) -> int {
    if interval_seconds >= 10 {
        interval_seconds / 10
    } else {
        1
    }
}

/// The seconds by which an account's refreshes are put off, so that accounts with the same
/// interval do not all come at once. It is the same each time for an account and an interval.
pub open spec fn stable_offset(account_id: Seq<char>, interval_seconds: int) -> int {
    (id_weight(vstd::utf8::encode_utf8(account_id)) as int % 0x1_0000_0000_0000_0000) % spread(
        interval_seconds,
    )
}

/// Whether an account is due that was last refreshed at `usage_updated_at`; one that never was,
/// is.
pub open spec fn is_due(
    account_id: Seq<char>,
    usage_updated_at: Option<i64>,
    interval_seconds: int,
    now: i64,
) -> bool {
    match usage_updated_at {
        Some(updated_at) => now >= saturated(
            updated_at + interval_seconds + stable_offset(account_id, interval_seconds),
        ),
        None => true,
    }
}

proof fn lemma_hash_step(weight: nat, byte: u8)
    ensures
        ({
            let range = 0x1_0000_0000_0000_0000int;
            ((weight as int % range) * 31 % range + byte) % range == (weight * 31
                + byte) % range
        }),
{
    let range = 0x1_0000_0000_0000_0000int;
    vstd::arithmetic::div_mod::lemma_mul_mod_noop_left(weight as int, 31, range);
    vstd::arithmetic::div_mod::lemma_add_mod_noop(weight as int * 31, byte as int, range);
    vstd::arithmetic::div_mod::lemma_add_mod_noop(
        (weight as int % range) * 31,
        byte as int,
        range,
    );
    vstd::arithmetic::div_mod::lemma_small_mod(byte as nat, range as nat);
}

fn id_hash(account_id: &str) -> (hash: u64)
    ensures
        hash == id_weight(vstd::utf8::encode_utf8(account_id@)) as int % 0x1_0000_0000_0000_0000,
{
    let bytes = account_id.as_bytes();
    let mut hash: u64 = 0;
    let mut i: usize = 0;
    while i < bytes.len()
        invariant
            i <= bytes.len(),
            bytes@ == vstd::utf8::encode_utf8(account_id@),
            hash == id_weight(bytes@.take(i as int)) as int % 0x1_0000_0000_0000_0000,
        decreases bytes.len() - i,
    {
        assert(bytes@.take(i + 1).drop_last() =~= bytes@.take(i as int));
        proof {
            lemma_hash_step(id_weight(bytes@.take(i as int)), bytes@[i as int]);
        }
        let scaled = hash.wrapping_mul(31);
        hash = scaled.wrapping_add(bytes[i] as u64);
        i = i + 1;
    }
    assert(bytes@.take(i as int) =~= bytes@);
    hash
}

pub fn account_is_due(
    account_id: &str,
    usage_updated_at: Option<i64>,
    interval_seconds: i64,
    now: i64,
) -> (due: bool)
    requires
        usage_updated_at is Some ==> interval_seconds + stable_offset(
            account_id@,
            interval_seconds as int,
        ) <= i64::MAX,
    ensures
        due == is_due(account_id@, usage_updated_at, interval_seconds as int, now),
{
    let spread_seconds: u64 = if interval_seconds >= 10 {
        interval_seconds as u64 / 10
    } else {
        1
    };
    let offset: u64 = id_hash(account_id) % spread_seconds;
    match usage_updated_at {
        Some(updated_at) => {
            let wait: i64 = interval_seconds + offset as i64;
            now >= saturating_sum(updated_at, wait)
        },
        None => true,
    }
}

/// What the scheduler reads of an account.
#[derive(Debug)]
pub struct ScheduledAccount {
    pub id: String,
    /// The account's quota can be read from the remote service.
    pub supports_refresh: bool,
    /// The policy of the account's group.
    pub policy: CodexGroupQuotaRefreshPolicy,
    pub usage_updated_at: Option<i64>,
}

/// What the scheduler reads besides the accounts.
#[derive(Debug)]
pub struct ScheduleSettings {
    /// The id of the account in use.
    pub current_id: Option<String>,
    pub current_interval: CurrentAccountInterval,
    pub configured_minutes: i32,
    pub now: i64,
}

/// The interval of an account under the given settings.
pub open spec fn interval_of(account: ScheduledAccount, settings: ScheduleSettings) -> Option<int> {
    effective_interval(
        account.policy,
        settings.current_id matches Some(id) && id@ == account.id@,
        settings.current_interval.seconds,
        settings.configured_minutes,
    )
}

/// An account is refreshed where that is supported, its policy has it refreshed, and it is due.
pub open spec fn is_scheduled(account: ScheduledAccount, settings: ScheduleSettings) -> bool {
    &&& account.supports_refresh
    &&& interval_of(account, settings) matches Some(interval)
    &&& is_due(account.id@, account.usage_updated_at, interval, settings.now)
}

/// The ids of the accounts that are refreshed, in the order of the accounts.
pub open spec fn scheduled_ids(
    accounts: Seq<ScheduledAccount>,
    settings: ScheduleSettings,
) -> Seq<Seq<char>>
    decreases accounts.len(),
{
    if accounts.len() == 0 {
        seq![]
    } else if is_scheduled(accounts.last(), settings) {
        scheduled_ids(accounts.drop_last(), settings).push(accounts.last().id@)
    } else {
        scheduled_ids(accounts.drop_last(), settings)
    }
}

fn is_account_scheduled(account: &ScheduledAccount, settings: &ScheduleSettings) -> (due: bool)
    ensures
        due == is_scheduled(*account, *settings),
{
    if !account.supports_refresh {
        return false;
    }
    let is_current = match &settings.current_id {
        Some(id) => same_text(id.as_str(), account.id.as_str()),
        None => false,
    };
    match effective_interval_seconds(
        account.policy,
        is_current,
        &settings.current_interval,
        settings.configured_minutes,
    ) {
        Some(interval) => {
            proof {
                law_offset_is_within_spread(account.id@, interval as int);
            }
            account_is_due(
                account.id.as_str(),
                account.usage_updated_at,
                interval,
                settings.now,
            )
        },
        None => false,
    }
}

/// The ids of the accounts that are to be refreshed now.
pub fn due_account_ids(
    accounts: &Vec<ScheduledAccount>,
    settings: &ScheduleSettings,
) -> (ids: Vec<String>)
    ensures
        ids.deep_view() == scheduled_ids(accounts@, *settings),
{
    let mut ids: Vec<String> = Vec::new();
    let mut i: usize = 0;
    assert(ids.deep_view() =~= scheduled_ids(accounts@.take(0), *settings));
    while i < accounts.len()
        invariant
            i <= accounts.len(),
            ids.deep_view() == scheduled_ids(accounts@.take(i as int), *settings),
        decreases accounts.len() - i,
    {
        assert(accounts@.take(i + 1).drop_last() =~= accounts@.take(i as int));
        if is_account_scheduled(&accounts[i], settings) {
            let ghost before = ids.deep_view();
            ids.push(accounts[i].id.clone());
            assert(ids.deep_view() =~= before.push(accounts@[i as int].id@));
        }
        i = i + 1;
    }
    assert(accounts@.take(i as int) =~= accounts@);
    ids
}

/// The outcome of the refresh of one account.
#[derive(Debug)]
pub struct RefreshedAccount {
    pub account_id: String,
    pub succeeded: bool,
    /// When the account's figures were last updated, after the refresh.
    pub usage_updated_at: Option<i64>,
}

/// `a` is later than `b`; no time at all is earlier than any.
pub open spec fn is_later(a: Option<i64>, b: Option<i64>) -> bool {
    match (a, b) {
        (Some(x), Some(y)) => x > y,
        (Some(_), None) => true,
        (None, _) => false,
    }
}

/// When an account's figures were last updated, by a table of such times.
pub open spec fn update_before(
    previous: Map<Seq<char>, Option<i64>>,
    account_id: Seq<char>,
) -> Option<i64> {
    if previous.contains_key(account_id) {
        previous[account_id]
    } else {
        None
    }
}

/// A refresh brought an account new figures.
pub open spec fn brought_news(
    account: RefreshedAccount,
    previous: Map<Seq<char>, Option<i64>>,
) -> bool {
    account.succeeded && is_later(
        account.usage_updated_at,
        update_before(previous, account.account_id@),
    )
}

/// A round of refreshes brought some account new figures.
pub open spec fn any_news(
    accounts: Seq<RefreshedAccount>,
    previous: Map<Seq<char>, Option<i64>>,
) -> bool {
    exists|i: int| 0 <= i < accounts.len() && brought_news(#[trigger] accounts[i], previous)
}

/// Whether a round of refreshes brought any account new figures. `results` is `None` where the
/// round as a whole failed; `previous` says when the accounts' figures were last updated before.
pub fn cache_was_updated(
    results: Option<&Vec<RefreshedAccount>>,
    previous: &TextTable<Option<i64>>,
) -> (updated: bool)
    ensures
        updated == (results matches Some(items) && any_news(items@, previous@)),
{
    match results {
        Some(items) => {
            let mut i: usize = 0;
            while i < items.len()
                invariant
                    i <= items.len(),
                    results == Some(items),
                    forall|k: int| 0 <= k < i ==> !brought_news(#[trigger] items@[k], previous@),
                decreases items.len() - i,
            {
                let item = &items[i];
                let before: Option<i64> = match previous.get(item.account_id.as_str()) {
                    Some(time) => *time,
                    None => None,
                };
                let later = match (item.usage_updated_at, before) {
                    (Some(x), Some(y)) => x > y,
                    (Some(_), None) => true,
                    (None, _) => false,
                };
                if item.succeeded && later {
                    assert(brought_news(items@[i as int], previous@));
                    return true;
                }
                i = i + 1;
            }
            false
        },
        None => false,
    }
}

/// The account that a request to the API has refreshed: the one that was asked for, where it
/// exists and its quota can be read.
pub fn trigger_api_request_refresh(
    account: Option<&CodexAccount>,
    supports_refresh: bool,
) -> (account_id: Option<String>)
    ensures
        account_id.deep_view() == match account {
            Some(a) => if supports_refresh {
                Some(a.id@)
            } else {
                None
            },
            None => None,
        },
{
    match account {
        Some(a) => if supports_refresh {
            Some(a.id.clone())
        } else {
            None
        },
        None => None,
    }
}

/// Notes that the scheduler runs; tells whether it is to be started, which it is only once.
pub fn ensure_started(started: &mut bool) -> (first: bool)
    ensures
        *final(started),
        first == !*old(started),
{
    let first = !*started;
    *started = true;
    first
}

/// An account's refreshes are put off by less than a tenth of the interval, or by less than a
/// second where the interval is shorter than ten seconds.
pub proof fn law_offset_is_within_spread(account_id: Seq<char>, interval_seconds: int)
    ensures
        0 <= stable_offset(account_id, interval_seconds) < spread(interval_seconds),
        interval_seconds >= 10 ==> spread(interval_seconds) * 10 <= interval_seconds,
{
    let hash = id_weight(vstd::utf8::encode_utf8(account_id)) as int % 0x1_0000_0000_0000_0000;
    vstd::arithmetic::div_mod::lemma_mod_bound(hash, spread(interval_seconds));
}

/// No account is due before its interval has passed.
pub proof fn law_never_due_early(
    account_id: Seq<char>,
    updated_at: i64,
    interval_seconds: int,
    now: i64,
)
    requires
        is_due(account_id, Some(updated_at), interval_seconds, now),
    ensures
        now >= saturated(updated_at + interval_seconds),
{
    law_offset_is_within_spread(account_id, interval_seconds);
}

/// Every account is due once its interval and the spread have passed, but for the spread's last
/// second.
pub proof fn law_due_in_the_end(
    account_id: Seq<char>,
    updated_at: i64,
    interval_seconds: int,
    now: i64,
)
    requires
        now + 1 >= updated_at + interval_seconds + spread(interval_seconds),
    ensures
        is_due(account_id, Some(updated_at), interval_seconds, now),
{
    law_offset_is_within_spread(account_id, interval_seconds);
}

/// An account that is due stays due until it is refreshed, and so is one with older figures or
/// with none.
pub proof fn law_stays_due(
    account_id: Seq<char>,
    usage_updated_at: Option<i64>,
    older: Option<i64>,
    interval_seconds: int,
    now: i64,
    later: i64,
)
    requires
        is_due(account_id, usage_updated_at, interval_seconds, now),
        !is_later(older, usage_updated_at),
        now <= later,
    ensures
        is_due(account_id, older, interval_seconds, later),
{
}

/// An account whose group has refreshes disabled is never scheduled, not even while in use.
pub proof fn law_disabled_is_never_scheduled(account: ScheduledAccount, settings: ScheduleSettings)
    requires
        account.policy is Disabled,
    ensures
        !is_scheduled(account, settings),
        scheduled_ids(seq![account], settings).len() == 0,
{
    lemma_one_scheduled(account, settings);
}

/// Being in use never makes an account's interval longer.
pub proof fn law_use_never_slows_refreshes(
    policy: CodexGroupQuotaRefreshPolicy,
    current_seconds: i64,
    configured_minutes: i32,
)
    ensures
        ({
            let used = effective_interval(policy, true, current_seconds, configured_minutes);
            let idle = effective_interval(policy, false, current_seconds, configured_minutes);
            &&& used is Some <==> idle is Some
            &&& used is Some ==> used->0 <= idle->0
            &&& used is Some && current_seconds > 0 ==> used->0 <= current_seconds
        }),
{
}

/// The ids that are refreshed are those of the accounts that are scheduled, and no others.
pub proof fn law_scheduled_ids(
    accounts: Seq<ScheduledAccount>,
    settings: ScheduleSettings,
    id: Seq<char>,
)
    ensures
        scheduled_ids(accounts, settings).contains(id) <==> exists|i: int|
            0 <= i < accounts.len() && is_scheduled(#[trigger] accounts[i], settings)
                && accounts[i].id@ == id,
    decreases accounts.len(),
{
    if accounts.len() > 0 {
        let init = accounts.drop_last();
        let front = scheduled_ids(init, settings);
        let whole = scheduled_ids(accounts, settings);
        law_scheduled_ids(init, settings, id);
        if whole.contains(id) {
            let k = choose|k: int| 0 <= k < whole.len() && whole[k] == id;
            if k < front.len() {
                assert(front[k] == id);
                let i = choose|i: int|
                    0 <= i < init.len() && is_scheduled(#[trigger] init[i], settings)
                        && init[i].id@ == id;
                assert(accounts[i] == init[i]);
            } else {
                assert(is_scheduled(accounts[accounts.len() - 1], settings));
            }
        }
        if exists|i: int|
            0 <= i < accounts.len() && is_scheduled(#[trigger] accounts[i], settings)
                && accounts[i].id@ == id {
            let i = choose|i: int|
                0 <= i < accounts.len() && is_scheduled(#[trigger] accounts[i], settings)
                    && accounts[i].id@ == id;
            if i < init.len() {
                assert(is_scheduled(init[i], settings));
                let k = choose|k: int| 0 <= k < front.len() && front[k] == id;
                assert(whole[k] == id);
            } else {
                assert(whole[whole.len() - 1] == id);
            }
        }
    }
}

/// The accounts of two lists are looked at one after another, each by itself.
pub proof fn law_accounts_are_looked_at_in_order(
    first: Seq<ScheduledAccount>,
    second: Seq<ScheduledAccount>,
    account: ScheduledAccount,
    settings: ScheduleSettings,
)
    ensures
        scheduled_ids(seq![], settings) == Seq::<Seq<char>>::empty(),
        scheduled_ids(first + second, settings) == scheduled_ids(first, settings) + scheduled_ids(
            second,
            settings,
        ),
        scheduled_ids(seq![account], settings) == seq![account.id@] || scheduled_ids(
            seq![account],
            settings,
        ) == Seq::<Seq<char>>::empty(),
    decreases second.len(),
{
    lemma_one_scheduled(account, settings);
    if second.len() == 0 {
        assert(first + second =~= first);
        assert(scheduled_ids(first, settings) + scheduled_ids(second, settings) =~= scheduled_ids(
            first,
            settings,
        ));
    } else {
        assert((first + second).drop_last() =~= first + second.drop_last());
        assert((first + second).last() == second.last());
        law_accounts_are_looked_at_in_order(first, second.drop_last(), account, settings);
        assert(scheduled_ids(first + second, settings) =~= scheduled_ids(first, settings)
            + scheduled_ids(second, settings));
    }
}

proof fn lemma_one_scheduled(account: ScheduledAccount, settings: ScheduleSettings)
    ensures
        scheduled_ids(seq![account], settings) == if is_scheduled(account, settings) {
            seq![account.id@]
        } else {
            seq![]
        },
{
    assert(seq![account].drop_last() =~= Seq::<ScheduledAccount>::empty());
    assert(scheduled_ids(seq![account].drop_last(), settings) =~= seq![]);
    assert(scheduled_ids(seq![account], settings) =~= if is_scheduled(account, settings) {
        seq![account.id@]
    } else {
        seq![]
    });
}

/// Figures are absent, or at least `tenths` tenths of a number of seconds old.
pub open spec fn is_old(updated_at: Option<i64>, now: i64, tenths: int, seconds: int) -> bool {
    updated_at matches Some(at) ==> 10 * (now - at) >= tenths * seconds
}

proof fn lemma_old_figures_are_due(
    account_id: Seq<char>,
    updated_at: Option<i64>,
    interval: int,
    now: i64,
)
    requires
        is_old(updated_at, now, 11, interval),
        interval > 0,
    ensures
        is_due(account_id, updated_at, interval, now),
{
    law_offset_is_within_spread(account_id, interval);
}

/// An account that can be refreshed, and whose group follows the user's setting, is refreshed once
/// its figures are older than the setting by a tenth, or where it has none; never while they are
/// younger than the setting, unless it is in use; and never where the setting is off.
pub proof fn law_user_setting_is_followed(
    accounts: Seq<ScheduledAccount>,
    i: int,
    settings: ScheduleSettings,
)
    requires
        0 <= i < accounts.len(),
        accounts[i].policy is Inherit,
    ensures
        ({
            let account = accounts[i];
            let seconds = settings.configured_minutes * 60;
            let in_use = settings.current_id matches Some(id) && id@ == account.id@;
            let alone = scheduled_ids(seq![account], settings);
            &&& account.supports_refresh && settings.configured_minutes > 0 && is_old(
                account.usage_updated_at,
                settings.now,
                11,
                seconds,
            ) ==> scheduled_ids(accounts, settings).contains(account.id@) && alone == seq![
                account.id@,
            ]
            &&& settings.configured_minutes <= 0 || !account.supports_refresh ==> alone.len() == 0
            &&& !in_use && settings.now < i64::MAX && !is_old(
                account.usage_updated_at,
                settings.now,
                10,
                seconds,
            ) ==> alone.len() == 0
        }),
{
    let account = accounts[i];
    let seconds = settings.configured_minutes * 60;
    lemma_one_scheduled(account, settings);
    law_scheduled_ids(accounts, settings, account.id@);
    if settings.configured_minutes > 0 {
        law_offset_is_within_spread(account.id@, seconds);
        law_offset_is_within_spread(account.id@, settings.current_interval.seconds as int);
        if is_old(account.usage_updated_at, settings.now, 11, seconds) {
            lemma_old_figures_are_due(
                account.id@,
                account.usage_updated_at,
                seconds,
                settings.now,
            );
            if 0 < settings.current_interval.seconds < seconds {
                lemma_old_figures_are_due(
                    account.id@,
                    account.usage_updated_at,
                    settings.current_interval.seconds as int,
                    settings.now,
                );
            }
            assert(account.supports_refresh ==> is_scheduled(accounts[i], settings));
        }
    }
}

/// An account that can be refreshed, and whose group has an interval of its own, is refreshed once
/// its figures are older than the interval by a tenth, or where it has none, whatever the user's
/// setting; and never while they are younger than the interval, unless it is in use. An interval
/// that is not positive has nothing added to it.
pub proof fn law_group_interval_is_followed(
    accounts: Seq<ScheduledAccount>,
    i: int,
    minutes: i32,
    settings: ScheduleSettings,
)
    requires
        0 <= i < accounts.len(),
        accounts[i].policy == CodexGroupQuotaRefreshPolicy::Minutes(minutes),
    ensures
        ({
            let account = accounts[i];
            let seconds = minutes * 60;
            let in_use = settings.current_id matches Some(id) && id@ == account.id@;
            let alone = scheduled_ids(seq![account], settings);
            &&& account.supports_refresh && is_old(
                account.usage_updated_at,
                settings.now,
                if minutes > 0 {
                    11
                } else {
                    10
                },
                seconds,
            ) ==> scheduled_ids(accounts, settings).contains(account.id@) && alone == seq![
                account.id@,
            ]
            &&& !account.supports_refresh ==> alone.len() == 0
            &&& !in_use && settings.now < i64::MAX && !is_old(
                account.usage_updated_at,
                settings.now,
                10,
                seconds,
            ) ==> alone.len() == 0
        }),
{
    let account = accounts[i];
    let seconds = minutes * 60;
    lemma_one_scheduled(account, settings);
    law_scheduled_ids(accounts, settings, account.id@);
    law_offset_is_within_spread(account.id@, seconds);
    law_offset_is_within_spread(account.id@, settings.current_interval.seconds as int);
    if account.supports_refresh && is_old(
        account.usage_updated_at,
        settings.now,
        if minutes > 0 {
            11
        } else {
            10
        },
        seconds,
    ) {
        if minutes > 0 {
            lemma_old_figures_are_due(account.id@, account.usage_updated_at, seconds, settings.now);
            if 0 < settings.current_interval.seconds < seconds {
                lemma_old_figures_are_due(
                    account.id@,
                    account.usage_updated_at,
                    settings.current_interval.seconds as int,
                    settings.now,
                );
            }
        }
        assert(is_scheduled(accounts[i], settings));
    }
}

/// The account in use, where its group has it refreshed at all, is refreshed once its figures are
/// older than its own interval by a tenth, and not while they are younger than both intervals. An
/// interval that is not positive counts for nothing, and so does any for other accounts.
pub proof fn law_account_in_use_has_its_own_interval(
    account: ScheduledAccount,
    background: int,
    settings: ScheduleSettings,
)
    requires
        account.supports_refresh,
        settings.current_id matches Some(id) && id@ == account.id@,
        !(account.policy is Disabled),
        account.policy is Inherit ==> settings.configured_minutes > 0 && background
            == settings.configured_minutes * 60,
        account.policy matches CodexGroupQuotaRefreshPolicy::Minutes(minutes) ==> background
            == minutes * 60,
    ensures
        ({
            let own = settings.current_interval.seconds as int;
            let scheduled = scheduled_ids(seq![account], settings) == seq![account.id@];
            &&& own > 0 && is_old(account.usage_updated_at, settings.now, 11, own) ==> scheduled
            &&& own > 0 && settings.now < i64::MAX && !is_old(
                account.usage_updated_at,
                settings.now,
                10,
                own,
            ) && !is_old(account.usage_updated_at, settings.now, 10, background) ==> !scheduled
            &&& own <= 0 && settings.now < i64::MAX && !is_old(
                account.usage_updated_at,
                settings.now,
                10,
                background,
            ) ==> !scheduled
        }),
{
    let own = settings.current_interval.seconds as int;
    lemma_one_scheduled(account, settings);
    law_offset_is_within_spread(account.id@, own);
    law_offset_is_within_spread(account.id@, background);
    assert(seq![account.id@].len() == 1);
    if own > 0 && is_old(account.usage_updated_at, settings.now, 11, own) {
        lemma_old_figures_are_due(account.id@, account.usage_updated_at, own, settings.now);
        if 0 < background <= own {
            lemma_old_figures_are_due(
                account.id@,
                account.usage_updated_at,
                background,
                settings.now,
            );
        }
    }
}

/// The id of an account that is not in use plays no part in its interval, and neither does the
/// interval of the account in use.
pub proof fn law_other_accounts_ignore_the_one_in_use(
    account: ScheduledAccount,
    settings: ScheduleSettings,
    other: ScheduleSettings,
)
    requires
        settings.current_id matches Some(id) ==> id@ != account.id@,
        other.current_id matches Some(id) ==> id@ != account.id@,
        settings.configured_minutes == other.configured_minutes,
        settings.now == other.now,
    ensures
        scheduled_ids(seq![account], settings) == scheduled_ids(seq![account], other),
{
    lemma_one_scheduled(account, settings);
    lemma_one_scheduled(account, other);
}

/// The bytes of an id count one after another, each place thirty-one times the next, and what is
/// left of the sum by the machine word and by a tenth of the interval is what is added to it.
pub proof fn law_offset_comes_from_the_id(
    account_id: Seq<char>,
    bytes: Seq<u8>,
    byte: u8,
    interval: int,
)
    ensures
        id_weight(seq![]) == 0,
        id_weight(bytes.push(byte)) == 31 * id_weight(bytes) + byte,
        interval >= 10 ==> stable_offset(account_id, interval) == (id_weight(
            vstd::utf8::encode_utf8(account_id),
        ) as int % (u64::MAX + 1)) % (interval / 10),
        interval < 10 ==> stable_offset(account_id, interval) == 0,
{
    assert(bytes.push(byte).drop_last() =~= bytes);
    law_offset_is_within_spread(account_id, interval);
}

/// An account is due from the moment on at which its interval and its offset have passed, and not
/// a second before.
pub proof fn law_due_from_one_moment_on(
    account_id: Seq<char>,
    updated_at: i64,
    interval: int,
    now: i64,
)
    requires
        i64::MIN <= updated_at + interval + stable_offset(account_id, interval) <= i64::MAX,
    ensures
        is_due(account_id, Some(updated_at), interval, now) <==> now - updated_at >= interval
            + stable_offset(account_id, interval),
        is_due(account_id, None, interval, now),
{
}

/// Sums and differences that do not fit end at the nearest number that does.
pub proof fn law_sums_end_at_the_limits(n: int)
    ensures
        i64::MIN <= n <= i64::MAX ==> saturated(n) == n,
        n > i64::MAX ==> saturated(n) == 0x7fff_ffff_ffff_ffff,
        n < i64::MIN ==> saturated(n) == -0x8000_0000_0000_0000,
{
}

/// A round brought news exactly where a refresh succeeded after which the account has a time of
/// update, and had none before or an earlier one.
pub proof fn law_news_are_later_updates(
    accounts: Seq<RefreshedAccount>,
    previous: Map<Seq<char>, Option<i64>>,
)
    ensures
        any_news(accounts, previous) <==> exists|i: int|
            {
                &&& 0 <= i < accounts.len()
                &&& (#[trigger] accounts[i]).succeeded
                &&& accounts[i].usage_updated_at is Some
                &&& previous.get(accounts[i].account_id@) matches Some(Some(before)) ==> before
                    < accounts[i].usage_updated_at->0
            },
{
    if any_news(accounts, previous) {
        let i = choose|i: int|
            0 <= i < accounts.len() && brought_news(#[trigger] accounts[i], previous);
        assert(accounts[i].succeeded);
    }
    assert forall|i: int|
        {
            &&& 0 <= i < accounts.len()
            &&& (#[trigger] accounts[i]).succeeded
            &&& accounts[i].usage_updated_at is Some
            &&& previous.get(accounts[i].account_id@) matches Some(Some(before)) ==> before
                < accounts[i].usage_updated_at->0
        } implies any_news(accounts, previous) by {
        assert(brought_news(accounts[i], previous));
    }
}

/// How often an account is refreshed: never in a group that has refreshes disabled; by the group's
/// minutes or, where the group has none, by the user's, which must be positive; and, while the
/// account is in use, by its own interval where that is positive and shorter.
pub proof fn law_intervals_of_accounts(minutes: i32, own: i64, configured: i32)
    ensures
        ({
            let disabled = CodexGroupQuotaRefreshPolicy::Disabled;
            let group = CodexGroupQuotaRefreshPolicy::Minutes(minutes);
            let inherit = CodexGroupQuotaRefreshPolicy::Inherit;
            &&& forall|in_use: bool| #[trigger]
                effective_interval(disabled, in_use, own, configured) is None
            &&& effective_interval(group, false, own, configured) == Some(60 * minutes as int)
            &&& effective_interval(group, true, own, configured) == Some(
                if 0 < own && own < 60 * minutes {
                    own as int
                } else {
                    60 * minutes as int
                },
            )
            &&& configured <= 0 ==> forall|in_use: bool| #[trigger]
                effective_interval(inherit, in_use, own, configured) is None
            &&& configured > 0 ==> {
                &&& effective_interval(inherit, false, own, configured) == Some(
                    60 * configured as int,
                )
                &&& effective_interval(inherit, true, own, configured) == Some(
                    if 0 < own && own < 60 * configured {
                        own as int
                    } else {
                        60 * configured as int
                    },
                )
            }
        }),
{
}

/// Where the moment at which an account becomes due lies beyond all times it is due at the last of
/// them only, and where it lies before all times it is always due.
pub proof fn law_due_beyond_the_limits(
    account_id: Seq<char>,
    updated_at: i64,
    interval: int,
    now: i64,
)
    ensures
        updated_at + interval + stable_offset(account_id, interval) > i64::MAX ==> (is_due(
            account_id,
            Some(updated_at),
            interval,
            now,
        ) <==> now == i64::MAX),
        updated_at + interval + stable_offset(account_id, interval) < i64::MIN ==> is_due(
            account_id,
            Some(updated_at),
            interval,
            now,
        ),
{
}

/// The scheduler looks every five seconds, and a request to the API is followed by a refresh five
/// seconds later.
pub proof fn law_scheduler_times()
    ensures
        SCHEDULER_TICK_SECONDS == 5,
        API_REQUEST_DELAY_SECONDS == 5,
{
}

} // verus!
