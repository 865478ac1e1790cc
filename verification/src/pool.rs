//! Refreshing the quotas behind a binding: those of the API service's accounts, or that of the
//! bound account.
use crate::account::{is_api_service_bind_account_id, supports_bind_account, CodexAccount};
use vstd::prelude::*;

verus! {

/// How many quotas were refreshed, and of how many.
pub type RefreshCount = (i32, usize);

/// An account that the API service's collection names.
#[derive(Debug)]
pub struct PoolMember {
    pub account_id: String,
    /// Whether its quota can be refreshed; `None` where the account store does not have it.
    pub supports_refresh: Option<bool>,
}

/// A member that the account store has.
pub open spec fn is_existing(member: PoolMember) -> bool {
    member.supports_refresh is Some
}

/// How many members the account store has.
pub open spec fn existing_count(members: Seq<PoolMember>) -> nat
    decreases members.len(),
{
    if members.len() == 0 {
        0
    } else {
        existing_count(members.drop_last()) + if is_existing(members.last()) {
            1nat
        } else {
            0nat
        }
    }
}

/// The ids of the members whose quota can be refreshed, in their order.
pub open spec fn target_ids(members: Seq<PoolMember>) -> Seq<Seq<char>>
    decreases members.len(),
{
    if members.len() == 0 {
        seq![]
    } else if members.last().supports_refresh == Some(true) {
        target_ids(members.drop_last()).push(members.last().account_id@)
    } else {
        target_ids(members.drop_last())
    }
}

/// How many accounts the API service has, and the ids of those whose quota can be refreshed.
pub fn api_service_quota_refresh_targets(collection: Option<&Vec<PoolMember>>) -> (targets: (
    usize,
    Vec<String>,
))
    ensures
        ({
            let members = match collection {
                Some(members) => members@,
                None => seq![],
            };
            &&& targets.0 == existing_count(members)
            &&& targets.1.deep_view() == target_ids(members)
        }),
{
    let mut count: usize = 0;
    let mut ids: Vec<String> = Vec::new();
    assert(ids.deep_view() =~= seq![]);
    match collection {
        None => {},
        Some(members) => {
            let mut i: usize = 0;
            assert(members@.take(0) =~= seq![]);
            while i < members.len()
                invariant
                    i <= members.len(),
                    count <= i,
                    count == existing_count(members@.take(i as int)),
                    ids.deep_view() == target_ids(members@.take(i as int)),
                decreases members.len() - i,
            {
                let member = &members[i];
                proof {
                    assert(members@.take(i + 1).drop_last() =~= members@.take(i as int));
                    assert(members@.take(i + 1).last() == *member);
                }
                let ghost before = ids.deep_view();
                match member.supports_refresh {
                    None => {},
                    Some(supported) => {
                        count = count + 1;
                        if supported {
                            ids.push(member.account_id.clone());
                            assert(ids.deep_view() =~= before.push(member.account_id@));
                        }
                    },
                }
                i = i + 1;
            }
            assert(members@.take(i as int) =~= members@);
        },
    }
    (count, ids)
}

/// What is to be done to refresh the quotas of the API service's accounts.
#[derive(Debug)]
pub enum PoolRefresh {
    /// Nothing: this is the outcome.
    Settled(Result<RefreshCount, String>),
    /// The accounts with these ids are to be refreshed.
    Batch(Vec<String>),
}

/// What is to be done, with texts as sequences of characters.
pub enum PoolRefreshPlan {
    Settled(Result<RefreshCount, Seq<char>>),
    Batch(Seq<Seq<char>>),
}

impl View for PoolRefresh {
    type V = PoolRefreshPlan;

    open spec fn view(&self) -> PoolRefreshPlan {
        match *self {
            PoolRefresh::Settled(outcome) => PoolRefreshPlan::Settled(
                crate::refresh::result_text(outcome),
            ),
            PoolRefresh::Batch(ids) => PoolRefreshPlan::Batch(ids.deep_view()),
        }
    }
}

/// An empty pool is refreshed at once; one whose quotas cannot be refreshed is an error.
pub open spec fn pool_plan(existing: nat, ids: Seq<Seq<char>>) -> PoolRefreshPlan {
    if existing == 0 {
        PoolRefreshPlan::Settled(Ok((0i32, 0usize)))
    } else if ids.len() == 0 {
        PoolRefreshPlan::Settled(Err("API 服务账号池暂无可刷新的额度"@))
    } else {
        PoolRefreshPlan::Batch(ids)
    }
}

/// Begins to refresh the quotas of the API service's accounts.
pub fn refresh_api_service_quota_pool(existing: usize, ids: Vec<String>) -> (refresh: PoolRefresh)
    ensures
        refresh@ == pool_plan(existing as nat, ids.deep_view()),
{
    if existing == 0 {
        PoolRefresh::Settled(Ok((0, 0)))
    } else if ids.len() == 0 {
        PoolRefresh::Settled(Err("API 服务账号池暂无可刷新的额度".to_owned()))
    } else {
        PoolRefresh::Batch(ids)
    }
}

/// What came of refreshing `total` accounts: an error where not one was refreshed.
pub open spec fn pool_outcome(total: usize, refreshed: Result<i32, Seq<char>>) -> Result<
    RefreshCount,
    Seq<char>,
> {
    match refreshed {
        Err(error) => Err(error),
        Ok(count) => if count <= 0 {
            Err("API 服务账号池额度刷新失败"@)
        } else {
            Ok((count, total))
        },
    }
}

/// Ends refreshing the quotas of the API service's accounts.
pub fn finish_pool_refresh(total: usize, refreshed: Result<i32, String>) -> (outcome: Result<
    RefreshCount,
    String,
>)
    ensures
        crate::refresh::result_text(outcome) == pool_outcome(
            total,
            crate::refresh::result_text(refreshed),
        ),
{
    match refreshed {
        Err(error) => Err(error),
        Ok(count) => if count <= 0 {
            Err("API 服务账号池额度刷新失败".to_owned())
        } else {
            Ok((count, total))
        },
    }
}

/// What a refresh of the pool reports that waited for another one instead: only that the pool is
/// empty.
pub fn joined_pool_refresh(existing: usize) -> (outcome: Option<RefreshCount>)
    ensures
        outcome == if existing == 0 {
            Some((0i32, 0usize))
        } else {
            None
        },
{
    if existing == 0 {
        Some((0, 0))
    } else {
        None
    }
}

/// What a refresh of the pool is to do once it may go on.
#[derive(Debug, Clone, Copy, PartialEq, Eq, Structural)]
pub enum PoolStep {
    /// Refresh the pool.
    Refresh,
    /// Look whether the pool is empty, as another one has just refreshed it.
    Join,
}

/// A refresh of the pool that found another one under way leaves the refreshing to it.
pub open spec fn pool_step(joined_existing: bool) -> PoolStep {
    if joined_existing {
        PoolStep::Join
    } else {
        PoolStep::Refresh
    }
}

/// Begins a refresh of the pool. `joined_existing` says that another one was under way, which has
/// been waited for.
pub fn run_quota_refresh_singleflight(joined_existing: bool) -> (step: PoolStep)
    ensures
        step == pool_step(joined_existing),
{
    if joined_existing {
        PoolStep::Join
    } else {
        PoolStep::Refresh
    }
}

/// How a refresh of the pool goes on.
#[derive(Debug)]
pub enum PoolTurn {
    /// The accounts with these ids are to be refreshed.
    Batch(Vec<String>),
    /// It has ended: how many quotas were refreshed, where this refresh did it itself.
    Done(Result<Option<RefreshCount>, String>),
}

/// How a refresh of the pool goes on, with texts as sequences of characters.
pub enum PoolOutlook {
    Batch(Seq<Seq<char>>),
    Done(Result<Option<RefreshCount>, Seq<char>>),
}

impl View for PoolTurn {
    type V = PoolOutlook;

    open spec fn view(&self) -> PoolOutlook {
        match *self {
            PoolTurn::Batch(ids) => PoolOutlook::Batch(ids.deep_view()),
            PoolTurn::Done(outcome) => PoolOutlook::Done(crate::refresh::result_text(outcome)),
        }
    }
}

/// How a refresh of the pool goes on, once it is known how many accounts the pool has and which of
/// them can be refreshed.
pub open spec fn pool_continued(
    step: PoolStep,
    existing: nat,
    ids: Seq<Seq<char>>,
) -> PoolOutlook {
    match step {
        PoolStep::Join => PoolOutlook::Done(
            Ok(
                if existing == 0 {
                    Some((0i32, 0usize))
                } else {
                    None
                },
            ),
        ),
        PoolStep::Refresh => match pool_plan(existing, ids) {
            PoolRefreshPlan::Batch(targets) => PoolOutlook::Batch(targets),
            PoolRefreshPlan::Settled(Ok(counts)) => PoolOutlook::Done(Ok(Some(counts))),
            PoolRefreshPlan::Settled(Err(error)) => PoolOutlook::Done(Err(error)),
        },
    }
}

/// Takes a refresh of the pool on, once it is known how many accounts the pool has and which of
/// them can be refreshed.
pub fn continue_pool_refresh(step: PoolStep, existing: usize, ids: Vec<String>) -> (turn: PoolTurn)
    ensures
        turn@ == pool_continued(step, existing as nat, ids.deep_view()),
{
    match step {
        PoolStep::Join => PoolTurn::Done(Ok(joined_pool_refresh(existing))),
        PoolStep::Refresh => match refresh_api_service_quota_pool(existing, ids) {
            PoolRefresh::Batch(targets) => PoolTurn::Batch(targets),
            PoolRefresh::Settled(outcome) => match outcome {
                Ok(counts) => PoolTurn::Done(Ok(Some(counts))),
                Err(error) => PoolTurn::Done(Err(error)),
            },
        },
    }
}

/// What a refresh that was asked for in the display is to do.
#[derive(Debug)]
pub enum BindRefresh {
    /// Refresh the quotas of the API service's accounts.
    Pool,
    /// Refresh the quota of the account with this id.
    Account(String),
    /// Nothing, for this reason.
    Refused(String),
}

/// What a refresh is to do, with texts as sequences of characters.
pub enum BindRefreshRoute {
    Pool,
    Account(Seq<char>),
    Refused(Seq<char>),
}

impl View for BindRefresh {
    type V = BindRefreshRoute;

    open spec fn view(&self) -> BindRefreshRoute {
        match *self {
            BindRefresh::Pool => BindRefreshRoute::Pool,
            BindRefresh::Account(id) => BindRefreshRoute::Account(id@),
            BindRefresh::Refused(reason) => BindRefreshRoute::Refused(reason@),
        }
    }
}

/// What a refresh for a binding is to do. An account is asked for under the id as it was bound.
pub open spec fn bind_refresh_route(
    bind_account_id: Seq<char>,
    account: Option<CodexAccount>,
) -> BindRefreshRoute {
    if bind_account_id == crate::account::API_SERVICE_BIND_ID@ {
        BindRefreshRoute::Pool
    } else if crate::account::bind_supported(Some(bind_account_id), account) {
        BindRefreshRoute::Account(bind_account_id)
    } else {
        BindRefreshRoute::Refused("当前绑定账号不支持独立额度刷新"@)
    }
}

/// Begins a refresh for a binding. `account` is what the account store holds under the id.
pub fn run_quota_refresh_for_bind(
    bind_account_id: &str,
    account: Option<&CodexAccount>,
) -> (refresh: BindRefresh)
    ensures
        refresh@ == bind_refresh_route(
            bind_account_id@,
            match account {
                Some(a) => Some(*a),
                None => None,
            },
        ),
{
    if is_api_service_bind_account_id(bind_account_id) {
        BindRefresh::Pool
    } else if supports_bind_account(Some(bind_account_id), account) {
        BindRefresh::Account(bind_account_id.to_owned())
    } else {
        BindRefresh::Refused("当前绑定账号不支持独立额度刷新".to_owned())
    }
}

/// What came of refreshing the bound account: one quota of one.
pub open spec fn account_outcome<Q>(refreshed: Result<Q, Seq<char>>) -> Result<
    Option<RefreshCount>,
    Seq<char>,
> {
    match refreshed {
        Ok(_) => Ok(Some((1i32, 1usize))),
        Err(error) => Err(error),
    }
}

/// Ends a refresh of the bound account.
pub fn finish_account_refresh<Q>(refreshed: Result<Q, String>) -> (outcome: Result<
    Option<RefreshCount>,
    String,
>)
    ensures
        crate::refresh::result_text(outcome) == account_outcome(
            crate::refresh::result_text(refreshed),
        ),
{
    match refreshed {
        Ok(_) => Ok(Some((1, 1))),
        Err(error) => Err(error),
    }
}

/// Some member bears an id and can be refreshed.
pub open spec fn is_target(members: Seq<PoolMember>, id: Seq<char>) -> bool {
    exists|i: int|
        0 <= i < members.len() && (#[trigger] members[i]).supports_refresh == Some(true)
            && members[i].account_id@ == id
}

/// The targets are members that exist, so there are no more of them.
pub proof fn law_targets_exist(members: Seq<PoolMember>)
    ensures
        target_ids(members).len() <= existing_count(members) <= members.len(),
        forall|k: int|
            0 <= k < target_ids(members).len() ==> is_target(
                members,
                #[trigger] target_ids(members)[k],
            ),
    decreases members.len(),
{
    if members.len() > 0 {
        let before = members.drop_last();
        law_targets_exist(before);
        assert forall|k: int| 0 <= k < target_ids(members).len() implies is_target(
            members,
            #[trigger] target_ids(members)[k],
        ) by {
            if k < target_ids(before).len() {
                let id = target_ids(before)[k];
                assert(is_target(before, id));
                let i = choose|i: int|
                    0 <= i < before.len() && (#[trigger] before[i]).supports_refresh == Some(true)
                        && before[i].account_id@ == id;
                assert(members[i] == before[i]);
            } else {
                assert(members[members.len() - 1] == members.last());
            }
        }
    }
}

/// The counts of zero are reported for an empty pool, and for no other: a refresh that was carried
/// out reports at least one.
pub proof fn law_zero_counts_mean_an_empty_pool(
    existing: nat,
    ids: Seq<Seq<char>>,
    total: usize,
    refreshed: Result<i32, Seq<char>>,
)
    ensures
        pool_plan(existing, ids) == PoolRefreshPlan::Settled(Ok((0i32, 0usize))) <==> existing == 0,
        pool_outcome(total, refreshed) matches Ok((count, of)) ==> 0 < count && of == total,
{
}

/// A refresh of the pool that found another one under way asks for nothing: it never refreshes an
/// account, never fails, and counts nothing but an empty pool.
pub proof fn law_joined_refresh_asks_for_nothing(existing: nat, ids: Seq<Seq<char>>)
    ensures
        pool_continued(pool_step(true), existing, ids) matches PoolOutlook::Done(Ok(counts)) && (
        counts matches Some(c) ==> existing == 0 && c == (0i32, 0usize)),
{
}

/// Members count, and are asked for, one after another: each that exists counts once, and each that
/// can be refreshed is asked for by its id.
pub proof fn law_members_are_counted_in_order(members: Seq<PoolMember>, member: PoolMember)
    ensures
        existing_count(seq![]) == 0,
        target_ids(seq![]).len() == 0,
        existing_count(members.push(member)) == existing_count(members) + if member.supports_refresh
            is Some {
            1nat
        } else {
            0nat
        },
        member.supports_refresh == Some(true) ==> target_ids(members.push(member)) == target_ids(
            members,
        ).push(member.account_id@),
        member.supports_refresh != Some(true) ==> target_ids(members.push(member)) == target_ids(
            members,
        ),
{
    assert(members.push(member).drop_last() =~= members);
}

/// A pool without accounts is refreshed with nothing to do, one in which nothing can be refreshed
/// is refused, and any other has all its targets refreshed.
pub proof fn law_pools_with_targets_are_refreshed(existing: nat, ids: Seq<Seq<char>>)
    ensures
        existing == 0 ==> pool_plan(existing, ids) == PoolRefreshPlan::Settled(Ok((0i32, 0usize))),
        existing > 0 && ids.len() == 0 ==> pool_plan(existing, ids) == PoolRefreshPlan::Settled(
            Err("API 服务账号池暂无可刷新的额度"@),
        ),
        existing > 0 && ids.len() > 0 ==> pool_plan(existing, ids) == PoolRefreshPlan::Batch(ids),
{
}

/// A refresh of the pool succeeds with both counts where it refreshed anything at all, and
/// otherwise fails, with the error that it was given where there is one.
pub proof fn law_pool_refreshes_end(total: usize, count: i32, error: Seq<char>)
    ensures
        count > 0 ==> pool_outcome(total, Ok(count)) == Ok::<RefreshCount, Seq<char>>(
            (count, total),
        ),
        count <= 0 ==> pool_outcome(total, Ok(count)) == Err::<RefreshCount, Seq<char>>(
            "API 服务账号池额度刷新失败"@,
        ),
        pool_outcome(total, Err(error)) == Err::<RefreshCount, Seq<char>>(error),
{
}

/// A refresh that goes on alone does what the pool asks for, and reports what it counted itself.
pub proof fn law_lone_refresh_does_the_work(existing: nat, ids: Seq<Seq<char>>)
    ensures
        existing > 0 && ids.len() > 0 ==> pool_continued(pool_step(false), existing, ids)
            == PoolOutlook::Batch(ids),
        existing == 0 ==> pool_continued(pool_step(false), existing, ids) == PoolOutlook::Done(
            Ok(Some((0i32, 0usize))),
        ),
        existing > 0 && ids.len() == 0 ==> pool_continued(pool_step(false), existing, ids)
            == PoolOutlook::Done(Err("API 服务账号池暂无可刷新的额度"@)),
        existing == 0 ==> pool_continued(pool_step(true), existing, ids) == PoolOutlook::Done(
            Ok(Some((0i32, 0usize))),
        ),
        existing > 0 ==> pool_continued(pool_step(true), existing, ids) == PoolOutlook::Done(
            Ok(None),
        ),
{
}

/// A refresh that the display asks for is one of the pool for the API service, one of the account
/// for an account that shows its quota by itself, under the id as it is bound, and otherwise
/// refused.
pub proof fn law_display_refreshes_what_is_bound(id: Seq<char>, account: Option<CodexAccount>)
    ensures
        id == "__api_service__"@ ==> bind_refresh_route(id, account) is Pool,
        id != "__api_service__"@ && crate::account::bind_supported(Some(id), account)
            ==> bind_refresh_route(id, account) == BindRefreshRoute::Account(id),
        !crate::account::bind_supported(Some(id), account) ==> bind_refresh_route(id, account)
            == BindRefreshRoute::Refused("当前绑定账号不支持独立额度刷新"@),
{
    if id == "__api_service__"@ {
        reveal_strlit("__api_service__");
        crate::text::law_trimming_cuts_the_ends(
            seq![],
            id,
            seq![],
            crate::text::CharClass::Space,
        );
        assert(Seq::<char>::empty() + id + Seq::<char>::empty() =~= id);
        crate::account::law_api_service_binding(id, account);
    }
}

/// A refresh of the bound account counts one of one, or hands on its error.
pub proof fn law_account_refreshes_end<Q>(quota: Q, error: Seq<char>)
    ensures
        account_outcome(Ok::<Q, Seq<char>>(quota)) == Ok::<Option<RefreshCount>, Seq<char>>(
            Some((1i32, 1usize)),
        ),
        account_outcome(Err::<Q, Seq<char>>(error)) == Err::<Option<RefreshCount>, Seq<char>>(
            error,
        ),
{
}

/// What a refresh is to do means what it holds.
pub proof fn law_refreshes_mean_what_they_hold(
    ids: Vec<String>,
    counts: RefreshCount,
    outcome: Option<RefreshCount>,
    text: String,
)
    ensures
        PoolRefresh::Batch(ids)@ == PoolRefreshPlan::Batch(ids.deep_view()),
        PoolRefresh::Settled(Ok(counts))@ == PoolRefreshPlan::Settled(Ok(counts)),
        PoolRefresh::Settled(Err(text))@ == PoolRefreshPlan::Settled(Err(text@)),
        PoolTurn::Batch(ids)@ == PoolOutlook::Batch(ids.deep_view()),
        PoolTurn::Done(Ok(outcome))@ == PoolOutlook::Done(Ok(outcome)),
        PoolTurn::Done(Err(text))@ == PoolOutlook::Done(Err(text@)),
        BindRefresh::Pool@ is Pool,
        BindRefresh::Account(text)@ == BindRefreshRoute::Account(text@),
        BindRefresh::Refused(text)@ == BindRefreshRoute::Refused(text@),
{
}

} // verus!
