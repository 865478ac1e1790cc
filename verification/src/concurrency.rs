//! Many refreshes at once: what the permits and the account locks make of them.
use crate::pool::PoolStep;
use crate::refresh::{
    RefreshEvent, RefreshOutlook, RefreshReason, RefreshStage, GLOBAL_REFRESH_PERMITS,
    OPENAI_REFRESH_PERMITS, SCHEDULED_REFRESH_PERMITS,
};
use vstd::prelude::*;

verus! {

/// What a refresh needs a permit for.
pub enum Permit {
    /// To be one of the background batch.
    Scheduled,
    /// To ask a remote service.
    Global,
    /// To ask OpenAI.
    OpenAi,
}

/// How many permits of a kind there are.
pub open spec fn permits(permit: Permit) -> nat {
    match permit {
        Permit::Scheduled => SCHEDULED_REFRESH_PERMITS as nat,
        Permit::Global => GLOBAL_REFRESH_PERMITS as nat,
        Permit::OpenAi => OPENAI_REFRESH_PERMITS as nat,
    }
}

/// The stage at which a permit is waited for.
pub open spec fn stage_of(permit: Permit) -> RefreshStage {
    match permit {
        Permit::Scheduled => RefreshStage::ScheduledPermit,
        Permit::Global => RefreshStage::GlobalPermit,
        Permit::OpenAi => RefreshStage::OpenAiPermit,
    }
}

/// What has come for a refresh: events, each with the attempts that were remembered when it came.
pub type History<Q> = Seq<(RefreshEvent<Q>, crate::refresh::States)>;

/// A refresh that was asked for, and what has come for it since.
pub struct Call<Q> {
    pub account_id: Seq<char>,
    pub reason: RefreshReason,
    pub events: History<Q>,
}

impl<Q> Call<Q> {
    /// How the refresh begins.
    pub open spec fn start(self) -> RefreshOutlook<Q> {
        crate::refresh::begun::<Q>(self.account_id, self.reason)
    }

    /// How the refresh stands.
    pub open spec fn outlook(self) -> RefreshOutlook<Q> {
        crate::refresh::run(self.start(), self.events)
    }

    /// The refresh has not ended and is at a stage.
    pub open spec fn is_at(self, stage: RefreshStage) -> bool {
        self.outlook() matches RefreshOutlook::Next { stage: at, .. } && at == stage
    }

    /// The refresh has not ended.
    pub open spec fn is_running(self) -> bool {
        self.outlook() is Next
    }

    /// The account's id as the refresh uses it.
    pub open spec fn id(self) -> Seq<char> {
        crate::text::trimmed(self.account_id, crate::text::CharClass::Space)
    }

    /// The same refresh after one more event.
    pub open spec fn after(self, event: RefreshEvent<Q>, states: crate::refresh::States) -> Self {
        Call { events: self.events.push((event, states)), ..self }
    }
}

/// A permit was given among the events.
pub open spec fn was_given<Q>(start: RefreshOutlook<Q>, events: History<Q>, permit: Permit) -> bool
    decreases events.len(),
{
    events.len() > 0 && {
        let before = events.drop_last();
        ||| was_given(start, before, permit)
        ||| {
            &&& crate::refresh::run(start, before) matches RefreshOutlook::Next { stage, .. }
            &&& stage == stage_of(permit)
            &&& crate::refresh::is_permit(events.last().0)
        }
    }
}

/// A refresh holds a permit from when it was given to its end.
pub open spec fn holds<Q>(call: Call<Q>, permit: Permit) -> bool {
    call.is_running() && was_given(call.start(), call.events, permit)
}

/// A refresh holds the lock of its account from when it got it to its end.
pub open spec fn holds_lock<Q>(call: Call<Q>) -> bool {
    call.is_running() && !call.is_at(RefreshStage::ScheduledPermit) && !call.is_at(
        RefreshStage::AccountLock,
    )
}

/// How many of some calls have a property.
pub open spec fn count<C>(calls: Seq<C>, property: spec_fn(C) -> bool) -> nat
    decreases calls.len(),
{
    if calls.len() == 0 {
        0
    } else {
        count(calls.drop_last(), property) + if property(calls.last()) {
            1nat
        } else {
            0nat
        }
    }
}

/// How many permits of a kind are held.
pub open spec fn held<Q>(calls: Seq<Call<Q>>, permit: Permit) -> nat {
    count(calls, |call: Call<Q>| holds(call, permit))
}

/// How many refreshes hold the lock of an account.
pub open spec fn lock_holders<Q>(calls: Seq<Call<Q>>, account_id: Seq<char>) -> nat {
    count(calls, |call: Call<Q>| call.id() == account_id && holds_lock(call))
}

/// An event can come for a refresh among others: it is what the refresh waits for, a permit is
/// given only where not all of its kind are held, and an account's lock only where nobody holds
/// it.
pub open spec fn can_come<Q>(
    calls: Seq<Call<Q>>,
    stage: RefreshStage,
    account_id: Seq<char>,
    event: RefreshEvent<Q>,
) -> bool {
    &&& crate::refresh::answers(stage, event)
    &&& forall|permit: Permit|
        stage == #[trigger] stage_of(permit) && crate::refresh::is_permit(event) ==> held(
            calls,
            permit,
        ) < permits(permit)
    &&& stage == RefreshStage::AccountLock ==> lock_holders(calls, account_id) == 0
}

/// A refresh is asked for.
pub open spec fn is_new_call<Q>(before: Seq<Call<Q>>, after: Seq<Call<Q>>) -> bool {
    &&& after.len() == before.len() + 1
    &&& after.drop_last() == before
    &&& after.last().events.len() == 0
}

/// Something comes for the refresh at a place, and for no other.
pub open spec fn is_event_at<Q>(before: Seq<Call<Q>>, after: Seq<Call<Q>>, i: int) -> bool {
    &&& 0 <= i < before.len()
    &&& after.len() == before.len()
    &&& after[i].events.len() == before[i].events.len() + 1
    &&& after[i] == before[i].after(after[i].events.last().0, after[i].events.last().1)
    &&& after == before.update(i, after[i])
    &&& before[i].outlook() matches RefreshOutlook::Next { stage, .. }
    &&& can_come(before, stage, before[i].id(), after[i].events.last().0)
}

/// One moment follows on another.
pub open spec fn follows<Q>(before: Seq<Call<Q>>, after: Seq<Call<Q>>) -> bool {
    is_new_call(before, after) || exists|i: int| #[trigger] is_event_at(before, after, i)
}

/// The moments of a run of the program: nothing at first, then one moment after another.
pub open spec fn is_course<Q>(moments: Seq<Seq<Call<Q>>>) -> bool {
    &&& moments.len() > 0
    &&& moments[0].len() == 0
    &&& forall|k: int|
        0 <= k < moments.len() - 1 ==> follows(#[trigger] moments[k], moments[k + 1])
}

/// What holds at every moment: each refresh goes its way in order, no more permits are held than
/// there are, and each account's lock has one holder at most.
pub open spec fn is_orderly<Q>(calls: Seq<Call<Q>>) -> bool {
    &&& forall|i: int|
        0 <= i < calls.len() ==> crate::refresh::in_order(
            (#[trigger] calls[i]).start(),
            calls[i].events,
        )
    &&& forall|permit: Permit| #[trigger] held(calls, permit) <= permits(permit)
    &&& forall|account_id: Seq<char>| #[trigger] lock_holders(calls, account_id) <= 1
}

proof fn lemma_count_update<C>(
    calls: Seq<C>,
    i: int,
    call: C,
    property: spec_fn(C) -> bool,
)
    requires
        0 <= i < calls.len(),
    ensures
        count(calls.update(i, call), property) + (if property(calls[i]) {
            1nat
        } else {
            0nat
        }) == count(calls, property) + (if property(call) {
            1nat
        } else {
            0nat
        }),
    decreases calls.len(),
{
    let updated = calls.update(i, call);
    if i == calls.len() - 1 {
        assert(updated.drop_last() =~= calls.drop_last());
    } else {
        assert(updated.drop_last() =~= calls.drop_last().update(i, call));
        lemma_count_update(calls.drop_last(), i, call, property);
    }
}

proof fn lemma_count_implied<C>(
    calls: Seq<C>,
    strong: spec_fn(C) -> bool,
    weak: spec_fn(C) -> bool,
)
    requires
        forall|i: int| 0 <= i < calls.len() && strong(#[trigger] calls[i]) ==> weak(calls[i]),
    ensures
        count(calls, strong) <= count(calls, weak),
    decreases calls.len(),
{
    if calls.len() > 0 {
        let front = calls.drop_last();
        assert(forall|i: int| 0 <= i < front.len() ==> front[i] == calls[i]);
        assert(calls.last() == calls[calls.len() - 1]);
        lemma_count_implied(front, strong, weak);
    }
}

proof fn lemma_count_none<C>(calls: Seq<C>, property: spec_fn(C) -> bool)
    requires
        forall|i: int| 0 <= i < calls.len() ==> !property(#[trigger] calls[i]),
    ensures
        count(calls, property) == 0,
    decreases calls.len(),
{
    if calls.len() > 0 {
        let front = calls.drop_last();
        assert(forall|i: int| 0 <= i < front.len() ==> front[i] == calls[i]);
        assert(calls.last() == calls[calls.len() - 1]);
        lemma_count_none(front, property);
    }
}

proof fn lemma_new_call<Q>(before: Seq<Call<Q>>, after: Seq<Call<Q>>)
    requires
        is_orderly(before),
        is_new_call(before, after),
    ensures
        is_orderly(after),
{
    assert(forall|i: int| 0 <= i < before.len() ==> after[i] == after.drop_last()[i]);
    assert forall|permit: Permit| #[trigger] held(after, permit) <= permits(permit) by {
        assert(held(before, permit) <= permits(permit));
        assert(!holds(after.last(), permit));
    }
    assert forall|account_id: Seq<char>| #[trigger] lock_holders(after, account_id) <= 1 by {
        assert(lock_holders(before, account_id) <= 1);
        assert(!holds_lock(after.last()));
    }
}

proof fn lemma_event<Q>(before: Seq<Call<Q>>, after: Seq<Call<Q>>, i: int)
    requires
        is_orderly(before),
        is_event_at(before, after, i),
    ensures
        is_orderly(after),
{
    let old_call = before[i];
    let new_call = after[i];
    let event = new_call.events.last().0;
    assert(new_call.events.drop_last() =~= old_call.events);
    crate::refresh::law_way_to_each_stage(old_call.account_id, old_call.reason, old_call.events);
    assert forall|permit: Permit| #[trigger] held(after, permit) <= permits(permit) by {
        assert(held(before, permit) <= permits(permit));
        let property = |call: Call<Q>| holds(call, permit);
        lemma_count_update(before, i, new_call, property);
        if holds(new_call, permit) && !holds(old_call, permit) {
            assert(old_call.is_at(stage_of(permit)));
        }
    }
    assert forall|account_id: Seq<char>| #[trigger] lock_holders(after, account_id) <= 1 by {
        assert(lock_holders(before, account_id) <= 1);
        let property = |call: Call<Q>| call.id() == account_id && holds_lock(call);
        lemma_count_update(before, i, new_call, property);
    }
}

/// At every moment of every run no more permits are held than there are, and each account's lock
/// has one holder at most.
pub proof fn law_every_moment_is_orderly<Q>(moments: Seq<Seq<Call<Q>>>, k: int)
    requires
        is_course(moments),
        0 <= k < moments.len(),
    ensures
        is_orderly(moments[k]),
    decreases k,
{
    if k > 0 {
        law_every_moment_is_orderly(moments, k - 1);
        let before = moments[k - 1];
        let after = moments[k];
        assert(follows(before, after));
        if is_new_call(before, after) {
            lemma_new_call(before, after);
        } else {
            let i = choose|i: int| #[trigger] is_event_at(before, after, i);
            lemma_event(before, after, i);
        }
    }
}

/// A refresh of the background batch that is past its permit: it waits for an account's lock or
/// for a remote permit, or holds one.
pub open spec fn is_admitted_batch<Q>(call: Call<Q>) -> bool {
    call.reason is Scheduled && call.is_running() && !call.is_at(RefreshStage::ScheduledPermit)
}

/// A refresh that asks the remote service.
pub open spec fn asks_remote<Q>(call: Call<Q>) -> bool {
    call.is_at(RefreshStage::Quota)
}

/// The account of a refresh was found, and has no API key.
pub open spec fn has_no_api_key<Q>(call: Call<Q>) -> bool {
    let at = crate::refresh::early_permits(call.reason) + 3;
    &&& at < call.events.len()
    &&& call.events[at].0 matches RefreshEvent::Loaded(Some(account))
    &&& !account.api_key_auth
}

/// How many refreshes ask the remote service for an account.
pub open spec fn remote_asks_for<Q>(calls: Seq<Call<Q>>, account_id: Seq<char>) -> nat {
    count(calls, |call: Call<Q>| call.id() == account_id && asks_remote(call))
}

/// What a stage says of the permits that were given before it.
pub proof fn law_stages_need_permits<Q>(call: Call<Q>)
    requires
        crate::refresh::in_order(call.start(), call.events),
    ensures
        is_admitted_batch(call) ==> holds(call, Permit::Scheduled),
        asks_remote(call) ==> holds(call, Permit::Global) && holds_lock(call),
        asks_remote(call) && has_no_api_key(call) ==> holds(call, Permit::OpenAi),
        !(call.reason is Scheduled) ==> !call.is_at(RefreshStage::ScheduledPermit),
{
    crate::refresh::law_way_to_each_stage(call.account_id, call.reason, call.events);
    lemma_given_before(call);
}

proof fn lemma_given_before<Q>(call: Call<Q>)
    requires
        crate::refresh::in_order(call.start(), call.events),
    ensures
        is_admitted_batch(call) ==> was_given(call.start(), call.events, Permit::Scheduled),
        call.is_at(RefreshStage::Account) || call.is_at(RefreshStage::OpenAiPermit) || call.is_at(
            RefreshStage::Quota,
        ) ==> was_given(call.start(), call.events, Permit::Global),
        call.is_at(RefreshStage::Quota) && has_no_api_key(call) ==> was_given(
            call.start(),
            call.events,
            Permit::OpenAi,
        ),
    decreases call.events.len(),
{
    if call.events.len() > 0 {
        let before = Call { events: call.events.drop_last(), ..call };
        lemma_given_before(before);
        crate::refresh::law_way_to_each_stage(call.account_id, call.reason, call.events);
        crate::refresh::law_way_to_each_stage(before.account_id, before.reason, before.events);
        assert(forall|i: int|
            0 <= i < before.events.len() ==> before.events[i] == call.events[i]);
    }
}

/// Whatever refreshes are asked for, and in whatever order things come for them: at every moment
/// one refresh of the background batch at most waits for an account's lock or a remote permit or
/// holds one, refreshes for other reasons never wait for the batch's permit, four refreshes at
/// most ask a remote service, two of them at most for accounts without an API key, and no two of
/// them for the same account.
pub proof fn law_refreshes_are_limited<Q>(moments: Seq<Seq<Call<Q>>>, k: int)
    requires
        is_course(moments),
        0 <= k < moments.len(),
    ensures
        count(moments[k], |call: Call<Q>| is_admitted_batch(call)) <= 1,
        count(
            moments[k],
            |call: Call<Q>| !(call.reason is Scheduled) && call.is_at(RefreshStage::ScheduledPermit),
        ) == 0,
        count(moments[k], |call: Call<Q>| asks_remote(call)) <= 4,
        count(moments[k], |call: Call<Q>| asks_remote(call) && has_no_api_key(call)) <= 2,
        forall|account_id: Seq<char>| #[trigger] remote_asks_for(moments[k], account_id) <= 1,
{
    let calls = moments[k];
    law_every_moment_is_orderly(moments, k);
    assert forall|i: int| 0 <= i < calls.len() implies {
        let call = #[trigger] calls[i];
        &&& is_admitted_batch(call) ==> holds(call, Permit::Scheduled)
        &&& asks_remote(call) ==> holds(call, Permit::Global) && holds_lock(call)
        &&& asks_remote(call) && has_no_api_key(call) ==> holds(call, Permit::OpenAi)
        &&& !(call.reason is Scheduled) ==> !call.is_at(RefreshStage::ScheduledPermit)
    } by {
        law_stages_need_permits(calls[i]);
    }
    assert(held(calls, Permit::Scheduled) <= permits(Permit::Scheduled));
    assert(held(calls, Permit::Global) <= permits(Permit::Global));
    assert(held(calls, Permit::OpenAi) <= permits(Permit::OpenAi));
    lemma_count_implied(
        calls,
        |call: Call<Q>| is_admitted_batch(call),
        |call: Call<Q>| holds(call, Permit::Scheduled),
    );
    lemma_count_implied(
        calls,
        |call: Call<Q>| asks_remote(call),
        |call: Call<Q>| holds(call, Permit::Global),
    );
    lemma_count_implied(
        calls,
        |call: Call<Q>| asks_remote(call) && has_no_api_key(call),
        |call: Call<Q>| holds(call, Permit::OpenAi),
    );
    lemma_count_none(
        calls,
        |call: Call<Q>| !(call.reason is Scheduled) && call.is_at(RefreshStage::ScheduledPermit),
    );
    assert forall|account_id: Seq<char>| #[trigger] remote_asks_for(calls, account_id) <= 1 by {
        assert(lock_holders(calls, account_id) <= 1);
        lemma_count_implied(
            calls,
            |call: Call<Q>| call.id() == account_id && asks_remote(call),
            |call: Call<Q>| call.id() == account_id && holds_lock(call),
        );
    }
}

/// How far a refresh of the API service's pool has come.
pub enum PoolStage {
    /// It looks whether another one is under way.
    Asked,
    /// It waits for the other one to end.
    Waiting,
    /// It is under way, alone, and does what the step says.
    Alone(PoolStep),
    Ended,
}

/// A refresh of the pool is under way.
pub open spec fn is_alone(stage: PoolStage) -> bool {
    stage is Alone
}

/// How many refreshes of the pool are under way.
pub open spec fn pool_holders(stages: Seq<PoolStage>) -> nat {
    count(stages, |stage: PoolStage| is_alone(stage))
}

/// A refresh of the pool comes from one stage to the next: it goes on at once only where no other
/// is under way, or else waits until none is.
pub open spec fn pool_goes_on(stages: Seq<PoolStage>, from: PoolStage, to: PoolStage) -> bool {
    match from {
        PoolStage::Asked => {
            ||| pool_holders(stages) == 0 && to == PoolStage::Alone(
                crate::pool::pool_step(false),
            )
            ||| to == PoolStage::Waiting
        },
        PoolStage::Waiting => pool_holders(stages) == 0 && to == PoolStage::Alone(
            crate::pool::pool_step(true),
        ),
        PoolStage::Alone(_) => to == PoolStage::Ended,
        PoolStage::Ended => false,
    }
}

/// The refresh of the pool at a place goes on, and no other.
pub open spec fn is_pool_step_at(before: Seq<PoolStage>, after: Seq<PoolStage>, i: int) -> bool {
    &&& 0 <= i < before.len()
    &&& after == before.update(i, after[i])
    &&& pool_goes_on(before, before[i], after[i])
}

/// One moment of the pool's refreshes follows on another: one is asked for, or one goes on.
pub open spec fn pool_follows(before: Seq<PoolStage>, after: Seq<PoolStage>) -> bool {
    after == before.push(PoolStage::Asked) || exists|i: int| #[trigger]
        is_pool_step_at(before, after, i)
}

/// The moments of the pool's refreshes in a run of the program.
pub open spec fn is_pool_course(moments: Seq<Seq<PoolStage>>) -> bool {
    &&& moments.len() > 0
    &&& moments[0].len() == 0
    &&& forall|k: int|
        0 <= k < moments.len() - 1 ==> pool_follows(#[trigger] moments[k], moments[k + 1])
}

/// At every moment one refresh of the pool at most is under way, however many are asked for.
pub proof fn law_one_pool_refresh_at_a_time(moments: Seq<Seq<PoolStage>>, k: int)
    requires
        is_pool_course(moments),
        0 <= k < moments.len(),
    ensures
        pool_holders(moments[k]) <= 1,
        count(moments[k], |stage: PoolStage| stage == PoolStage::Alone(PoolStep::Refresh)) <= 1,
    decreases k,
{
    let property = |stage: PoolStage| is_alone(stage);
    if k > 0 {
        law_one_pool_refresh_at_a_time(moments, k - 1);
        let before = moments[k - 1];
        let after = moments[k];
        assert(pool_follows(before, after));
        if after == before.push(PoolStage::Asked) {
            assert(after.drop_last() =~= before);
        } else {
            let i = choose|i: int| #[trigger] is_pool_step_at(before, after, i);
            lemma_count_update(before, i, after[i], property);
        }
    }
    lemma_count_implied(
        moments[k],
        |stage: PoolStage| stage == PoolStage::Alone(PoolStep::Refresh),
        property,
    );
}

} // verus!
