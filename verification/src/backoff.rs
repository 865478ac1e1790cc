//! How long the remote service is left alone after an attempt to read an account's quota.
use crate::schedule::{saturating_difference, saturating_sum};
use crate::table::TextTable;
use vstd::prelude::*;

verus! {

/// The least time between two attempts for one account.
pub const MIN_REMOTE_INTERVAL_SECONDS: i64 = 30;

/// How long to wait after the first failure in a row, the second, and so on; the last entry holds
/// for all further ones.
pub const FAILURE_BACKOFF_SECONDS: [i64; 5] = [60, 120, 300, 600, 900];

/// What is remembered of the attempts for one account.
#[derive(Debug, Clone, Copy)]
pub struct AccountRefreshState {
    pub last_attempt_at: Option<i64>,
    pub last_success_at: Option<i64>,
    /// No attempt is made before this time.
    pub retry_at: Option<i64>,
    pub consecutive_failures: usize,
}

impl AccountRefreshState {
    /// Nothing has been attempted.
    pub open spec fn untried() -> Self {
        AccountRefreshState {
            last_attempt_at: None,
            last_success_at: None,
            retry_at: None,
            consecutive_failures: 0,
        }
    }
}

impl Default for AccountRefreshState {
    fn default() -> (state: Self)
        ensures
            state == AccountRefreshState::untried(),
    {
        AccountRefreshState {
            last_attempt_at: None,
            last_success_at: None,
            retry_at: None,
            consecutive_failures: 0,
        }
    }
}

/// The attempts for all accounts.
pub type RefreshStates = TextTable<AccountRefreshState>;

/// How long to wait after the given number of failures in a row.
pub open spec fn backoff_seconds(failures: nat) -> int {
    if failures <= 1 {
        60
    } else if failures == 2 {
        120
    } else if failures == 3 {
        300
    } else if failures == 4 {
        600
    } else {
        900
    }
}

/// The number of failures in a row after one more; it stops counting at the largest `usize`.
pub open spec fn one_more_failure(failures: usize) -> usize {
    if failures < usize::MAX {
        (failures + 1) as usize
    } else {
        failures
    }
}

/// What is remembered after an attempt at the time `now`.
pub open spec fn after_attempt(
    state: AccountRefreshState,
    success: bool,
    now: i64,
) -> AccountRefreshState {
    if success {
        AccountRefreshState {
            last_attempt_at: Some(now),
            last_success_at: Some(now),
            retry_at: None,
            consecutive_failures: 0,
        }
    } else {
        let failures = one_more_failure(state.consecutive_failures);
        AccountRefreshState {
            last_attempt_at: Some(now),
            last_success_at: state.last_success_at,
            retry_at: Some(
                crate::schedule::saturated(now + backoff_seconds(failures as nat)) as i64,
            ),
            consecutive_failures: failures,
        }
    }
}

/// What is remembered of an account.
pub open spec fn state_of(
    states: Map<Seq<char>, AccountRefreshState>,
    account_id: Seq<char>,
) -> AccountRefreshState {
    if states.contains_key(account_id) {
        states[account_id]
    } else {
        AccountRefreshState::untried()
    }
}

/// No attempt is made at the time `now`: a failure is too recent, or an attempt is.
pub open spec fn is_held_back(state: AccountRefreshState, now: i64) -> bool {
    ||| state.retry_at matches Some(retry_at) && retry_at > now
    ||| state.last_attempt_at matches Some(attempt) && crate::schedule::saturated(now - attempt)
        < MIN_REMOTE_INTERVAL_SECONDS
}

/// Whether an attempt for an account would come too early.
pub fn should_skip(states: &RefreshStates, account_id: &str, now: i64) -> (skip: bool)
    ensures
        skip == is_held_back(state_of(states@, account_id@), now),
{
    match states.get(account_id) {
        Some(state) => {
            match state.retry_at {
                Some(retry_at) => {
                    if retry_at > now {
                        return true;
                    }
                },
                None => {},
            }
            match state.last_attempt_at {
                Some(attempt) => saturating_difference(now, attempt) < MIN_REMOTE_INTERVAL_SECONDS,
                None => false,
            }
        },
        None => false,
    }
}

/// Remembers the outcome of an attempt for an account.
pub fn record_result(states: &mut RefreshStates, account_id: &str, success: bool, now: i64)
    ensures
        final(states)@ == old(states)@.insert(
            account_id@,
            after_attempt(state_of(old(states)@, account_id@), success, now),
        ),
{
    let before: AccountRefreshState = match states.get(account_id) {
        Some(state) => *state,
        None => AccountRefreshState::default(),
    };
    let after = if success {
        AccountRefreshState {
            last_attempt_at: Some(now),
            last_success_at: Some(now),
            retry_at: None,
            consecutive_failures: 0,
        }
    } else {
        let failures: usize = if before.consecutive_failures < usize::MAX {
            before.consecutive_failures + 1
        } else {
            before.consecutive_failures
        };
        let last: usize = FAILURE_BACKOFF_SECONDS.len() - 1;
        let index: usize = if failures - 1 < last {
            failures - 1
        } else {
            last
        };
        let wait: i64 = FAILURE_BACKOFF_SECONDS[index];
        assert(wait == backoff_seconds(failures as nat));
        AccountRefreshState {
            last_attempt_at: Some(now),
            last_success_at: before.last_success_at,
            retry_at: Some(saturating_sum(now, wait)),
            consecutive_failures: failures,
        }
    };
    states.insert(account_id.to_owned(), after);
}

/// The wait after a failure is at least one minute and at most a quarter of an hour, and no
/// shorter than that after fewer failures.
pub proof fn law_backoff_is_bounded_and_grows(fewer: nat, more: nat)
    requires
        fewer <= more,
    ensures
        60 <= backoff_seconds(fewer) <= backoff_seconds(more) <= 900,
{
}

/// After a failure no attempt is made until the wait is over, and none is held back from then on,
/// even where the clock is set back. Failures near the end of the range of `i64`, whose wait has
/// no end, are left out.
pub proof fn law_failure_holds_back_until_retry(state: AccountRefreshState, now: i64, later: i64)
    requires
        now + 900 <= i64::MAX,
    ensures
        ({
            let failed = after_attempt(state, false, now);
            is_held_back(failed, later) <==> later < now + backoff_seconds(
                one_more_failure(state.consecutive_failures) as nat,
            )
        }),
{
}

/// After a success an attempt is held back for the least interval only, whatever went before.
pub proof fn law_success_clears_backoff(state: AccountRefreshState, now: i64, later: i64)
    ensures
        is_held_back(after_attempt(state, true, now), later) <==> later - now
            < MIN_REMOTE_INTERVAL_SECONDS,
        after_attempt(state, true, now).consecutive_failures == 0,
{
}

/// An account for which nothing was attempted is never held back.
pub proof fn law_untried_is_not_held_back(now: i64)
    ensures
        !is_held_back(AccountRefreshState::untried(), now),
{
}

/// What is recorded of one account leaves the others alone.
pub proof fn law_accounts_are_independent(
    states: Map<Seq<char>, AccountRefreshState>,
    recorded: Seq<char>,
    other: Seq<char>,
    success: bool,
    now: i64,
)
    requires
        recorded != other,
    ensures
        state_of(
            states.insert(recorded, after_attempt(state_of(states, recorded), success, now)),
            other,
        ) == state_of(states, other),
{
}

/// What is remembered after `count` failures one after another, the last at the time `now`.
pub open spec fn after_failures(
    state: AccountRefreshState,
    count: nat,
    now: i64,
) -> AccountRefreshState
    decreases count,
{
    if count == 0 {
        state
    } else {
        after_attempt(after_failures(state, (count - 1) as nat, now), false, now)
    }
}

/// Failures in a row are counted from the last success on, so the waits run through the table of
/// waits and stay at its last entry.
pub proof fn law_failures_in_a_row(state: AccountRefreshState, count: nat, now: i64)
    requires
        state.consecutive_failures == 0,
        0 < count <= usize::MAX,
    ensures
        after_failures(state, count, now).consecutive_failures == count,
        after_failures(state, count, now).retry_at == Some(
            crate::schedule::saturated(now + backoff_seconds(count)) as i64,
        ),
    decreases count,
{
    if count > 1 {
        law_failures_in_a_row(state, (count - 1) as nat, now);
    } else {
        assert(after_failures(state, 0, now) == state);
    }
}

/// How long is waited after failures in a row: one minute, two, five, ten, and then a quarter of an
/// hour each time.
pub proof fn law_waits_after_failures(failures: nat)
    ensures
        failures <= 1 ==> backoff_seconds(failures) == 60,
        failures == 2 ==> backoff_seconds(failures) == 120,
        failures == 3 ==> backoff_seconds(failures) == 300,
        failures == 4 ==> backoff_seconds(failures) == 600,
        failures >= 5 ==> backoff_seconds(failures) == 900,
{
}

/// A success is remembered as the last attempt and the last success, and clears the failures and
/// the wait.
pub proof fn law_success_is_remembered(state: AccountRefreshState, now: i64)
    ensures
        ({
            let after = after_attempt(state, true, now);
            &&& after.last_attempt_at == Some(now)
            &&& after.last_success_at == Some(now)
            &&& after.retry_at is None
            &&& after.consecutive_failures == 0
        }),
{
}

/// A failure is remembered as the last attempt and counted, and sets a wait by its place among
/// the failures in a row; the last success stays.
pub proof fn law_failure_is_remembered(state: AccountRefreshState, now: i64)
    requires
        now + 900 <= i64::MAX,
        state.consecutive_failures < usize::MAX,
    ensures
        ({
            let after = after_attempt(state, false, now);
            let count = state.consecutive_failures + 1;
            &&& after.last_attempt_at == Some(now)
            &&& after.last_success_at == state.last_success_at
            &&& after.consecutive_failures == count
            &&& after.retry_at is Some
            &&& count == 1 ==> after.retry_at->0 == now + 60
            &&& count == 2 ==> after.retry_at->0 == now + 120
            &&& count == 3 ==> after.retry_at->0 == now + 300
            &&& count == 4 ==> after.retry_at->0 == now + 600
            &&& count >= 5 ==> after.retry_at->0 == now + 900
        }),
{
}

/// The count of failures stops at the largest number, and so does the time of the next attempt.
pub proof fn law_failures_stop_at_the_limits(state: AccountRefreshState, now: i64)
    ensures
        state.consecutive_failures == usize::MAX ==> after_attempt(
            state,
            false,
            now,
        ).consecutive_failures == usize::MAX,
        now > i64::MAX - 60 ==> after_attempt(state, false, now).retry_at == Some(i64::MAX),
{
}

/// An account is held back exactly while a wait is not over, or within half a minute of the last
/// attempt.
pub proof fn law_held_back_exactly_while_waiting(state: AccountRefreshState, now: i64)
    ensures
        is_held_back(state, now) <==> {
            ||| state.retry_at is Some && now < state.retry_at->0
            ||| state.last_attempt_at is Some && now - state.last_attempt_at->0 < 30
        },
{
}

/// What is remembered of an account is what was recorded of it, and nothing before that.
pub proof fn law_recorded_states_are_found(
    states: Map<Seq<char>, AccountRefreshState>,
    account_id: Seq<char>,
    state: AccountRefreshState,
)
    ensures
        state_of(states.insert(account_id, state), account_id) == state,
        !states.contains_key(account_id) ==> {
            let untried = state_of(states, account_id);
            &&& untried.last_attempt_at is None
            &&& untried.last_success_at is None
            &&& untried.retry_at is None
            &&& untried.consecutive_failures == 0
        },
{
}

} // verus!
