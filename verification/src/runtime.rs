//! The tasks that keep the quota display of running profiles up to date.
use crate::account::{supports_bind_account, CodexAccount};
use crate::launch::profile_key;
use crate::settings::{enabled_for_app, UserConfig};
use crate::table::TextTable;
use vstd::prelude::*;

verus! {

/// The id of the profile that is used where no instance is chosen.
pub const DEFAULT_INSTANCE_ID: &'static str = "__default__";

/// The running tasks, each under the key of its profile.
pub type InjectionRuntimes<T> = TextTable<T>;

/// Takes out the task of a profile, which is then to be stopped. `profile_path` is the profile's
/// directory, with links resolved where that is possible.
pub fn stop_for_profile<T>(runtimes: &mut InjectionRuntimes<T>, profile_path: &str) -> (task: Option<
    T,
>)
    ensures
        final(runtimes)@ == old(runtimes)@.remove(crate::launch::profile_key_of(profile_path@)),
        task == old(runtimes)@.get(crate::launch::profile_key_of(profile_path@)),
{
    runtimes.remove(profile_key(profile_path).as_str())
}

/// Takes out all tasks, which are then to be stopped.
pub fn stop_all<T>(runtimes: &mut InjectionRuntimes<T>) -> (tasks: Vec<T>)
    ensures
        final(runtimes)@ == Map::<Seq<char>, T>::empty(),
        tasks@ == old(runtimes).values(),
        crate::table::lists_values(tasks@, old(runtimes)@),
{
    runtimes.take_all()
}

/// The port of the task that is to be started, if one is, and the task that it takes the place
/// of, which is to be stopped first.
#[derive(Debug)]
pub struct InjectionStart<T> {
    pub port: Option<u16>,
    pub replaced: Option<T>,
}

/// A task is started for a profile with a debugging port, if the display is switched on and a
/// quota can be shown for what the profile is bound to.
pub open spec fn starts(
    enabled: bool,
    port: Option<u16>,
    bind_account_id: Option<Seq<char>>,
    account: Option<CodexAccount>,
) -> bool {
    port is Some && enabled && crate::account::bind_supported(bind_account_id, account)
}

/// Decides whether a task is to be started for a profile, and makes room for it. `account` is
/// what the account store holds under the id that the profile is bound to.
pub fn start_for_profile<T>(
    runtimes: &mut InjectionRuntimes<T>,
    config: &UserConfig,
    profile_path: &str,
    port: Option<u16>,
    bind_account_id: Option<&str>,
    account: Option<&CodexAccount>,
) -> (start: InjectionStart<T>)
    ensures
        ({
            let key = crate::launch::profile_key_of(profile_path@);
            if starts(
                config.codex_app_ui_injection_enabled,
                port,
                bind_account_id.deep_view(),
                match account {
                    Some(a) => Some(*a),
                    None => None,
                },
            ) {
                &&& start.port == port
                &&& start.replaced == old(runtimes)@.get(key)
                &&& final(runtimes)@ == old(runtimes)@.remove(key)
            } else {
                &&& start.port is None
                &&& start.replaced is None
                &&& final(runtimes)@ == old(runtimes)@
            }
        }),
{
    if port.is_none() || !enabled_for_app(config) || !supports_bind_account(
        bind_account_id,
        account,
    ) {
        return InjectionStart { port: None, replaced: None };
    }
    let replaced = stop_for_profile(runtimes, profile_path);
    InjectionStart { port, replaced }
}

/// Remembers the task that was started for a profile; hands back a task that another caller
/// started for it in the meantime.
pub fn register_task<T>(
    runtimes: &mut InjectionRuntimes<T>,
    profile_path: &str,
    task: T,
) -> (displaced: Option<T>)
    ensures
        final(runtimes)@ == old(runtimes)@.insert(crate::launch::profile_key_of(profile_path@), task),
        displaced == old(runtimes)@.get(crate::launch::profile_key_of(profile_path@)),
{
    runtimes.insert(profile_key(profile_path), task)
}

/// What an instance is started as.
#[derive(Debug, Clone, Copy, PartialEq, Eq, Structural)]
pub enum InstanceLaunchMode {
    App,
    /// Something without a window to show a quota in.
    Other,
}

/// A profile as the instance store has it, with the account that it is bound to.
#[derive(Debug)]
pub struct ProfileInstance {
    pub instance_id: String,
    /// Whether it is the profile that is used where no instance is chosen.
    pub is_default: bool,
    pub profile_dir: String,
    pub launch_mode: InstanceLaunchMode,
    pub last_pid: Option<u32>,
    pub bind_account_id: Option<String>,
    /// What the account store holds under the id that the profile is bound to.
    pub account: Option<CodexAccount>,
}

/// A profile whose quota display can be restored.
pub open spec fn is_restorable(profile: ProfileInstance) -> bool {
    &&& profile.launch_mode == InstanceLaunchMode::App
    &&& crate::account::bind_supported(profile.bind_account_id.deep_view(), profile.account)
}

pub fn can_be_restored(profile: &ProfileInstance) -> (found: bool)
    ensures
        found == is_restorable(*profile),
{
    let bind_account_id = match &profile.bind_account_id {
        Some(id) => Some(id.as_str()),
        None => None,
    };
    let account = match &profile.account {
        Some(account) => Some(account),
        None => None,
    };
    profile.launch_mode == InstanceLaunchMode::App && supports_bind_account(bind_account_id, account)
}

/// The directory by which a profile's process is told from others: none for the default profile,
/// whose process is started without one.
pub fn search_dir(profile: &ProfileInstance) -> (dir: Option<&str>)
    ensures
        dir.deep_view() == if profile.is_default {
            None
        } else {
            Some(profile.profile_dir@)
        },
{
    if profile.is_default {
        None
    } else {
        Some(profile.profile_dir.as_str())
    }
}

/// The profiles to look for among the running processes: none where the display is switched off;
/// else those that can be restored, the default one first and the others in their order.
pub open spec fn restorable_profiles(
    enabled: bool,
    default_profile: ProfileInstance,
    instances: Seq<ProfileInstance>,
) -> Seq<ProfileInstance> {
    if enabled {
        (seq![default_profile] + instances).filter(|profile: ProfileInstance| is_restorable(profile))
    } else {
        seq![]
    }
}

/// The profiles to look for among the running processes.
pub fn profiles_to_restore(
    config: &UserConfig,
    default_profile: ProfileInstance,
    instances: Vec<ProfileInstance>,
) -> (profiles: Vec<ProfileInstance>)
    ensures
        profiles@ == restorable_profiles(
            config.codex_app_ui_injection_enabled,
            default_profile,
            instances@,
        ),
{
    let mut profiles: Vec<ProfileInstance> = Vec::new();
    if !enabled_for_app(config) {
        return profiles;
    }
    let ghost restorable = |profile: ProfileInstance| is_restorable(profile);
    let mut rest = instances;
    rest.insert(0, default_profile);
    let ghost all = rest@;
    let mut done: Ghost<int> = Ghost(0);
    assert(all =~= seq![default_profile] + instances@);
    assert(all.skip(0) =~= all);
    assert(all.take(0).filter(restorable) =~= seq![]) by {
        reveal(Seq::filter);
    }
    while rest.len() > 0
        invariant
            restorable == (|profile: ProfileInstance| is_restorable(profile)),
            0 <= done@ <= all.len(),
            rest@ == all.skip(done@),
            profiles@ == all.take(done@).filter(restorable),
        decreases rest.len(),
    {
        let profile = rest.remove(0);
        proof {
            assert(all.take(done@ + 1).drop_last() =~= all.take(done@));
            assert(all.take(done@ + 1).last() == profile);
            reveal(Seq::filter);
            assert(rest@ =~= all.skip(done@ + 1));
        }
        if can_be_restored(&profile) {
            profiles.push(profile);
        }
        proof {
            done@ = done@ + 1;
        }
    }
    assert(all.take(done@) =~= all);
    profiles
}

/// A profile that was looked for among the running processes.
#[derive(Debug)]
pub struct FoundProfile {
    pub profile: ProfileInstance,
    /// The profile's process, where it is running.
    pub pid: Option<u32>,
    /// The debugging port of that process, where it has one.
    pub port: Option<u16>,
}

/// What is to be done for the profiles that were looked for.
#[derive(Debug)]
pub struct RestorePlan {
    /// The profiles whose task is to be started.
    pub restored: Vec<FoundProfile>,
    /// The profiles that run without a debugging port.
    pub without_port: Vec<FoundProfile>,
}

/// A profile that runs with a debugging port.
pub open spec fn runs_with_port(found: FoundProfile) -> bool {
    found.pid is Some && found.port is Some
}

/// A profile that runs without a debugging port.
pub open spec fn runs_without_port(found: FoundProfile) -> bool {
    found.pid is Some && found.port is None
}

/// Tells the running profiles that can be restored from those that have no debugging port; the
/// number of the former is the number of restored profiles.
pub fn restore_running_profiles(found: Vec<FoundProfile>) -> (plan: RestorePlan)
    ensures
        plan.restored@ == found@.filter(|profile: FoundProfile| runs_with_port(profile)),
        plan.without_port@ == found@.filter(|profile: FoundProfile| runs_without_port(profile)),
{
    let ghost all = found@;
    let ghost with_port = |profile: FoundProfile| runs_with_port(profile);
    let ghost no_port = |profile: FoundProfile| runs_without_port(profile);
    let mut rest = found;
    let mut plan = RestorePlan { restored: Vec::new(), without_port: Vec::new() };
    let mut done: Ghost<int> = Ghost(0);
    assert(all.skip(0) =~= all);
    proof {
        reveal(Seq::filter);
        assert(all.take(0).filter(with_port) =~= seq![]);
        assert(all.take(0).filter(no_port) =~= seq![]);
    }
    while rest.len() > 0
        invariant
            with_port == (|profile: FoundProfile| runs_with_port(profile)),
            no_port == (|profile: FoundProfile| runs_without_port(profile)),
            0 <= done@ <= all.len(),
            rest@ == all.skip(done@),
            plan.restored@ == all.take(done@).filter(with_port),
            plan.without_port@ == all.take(done@).filter(no_port),
        decreases rest.len(),
    {
        let profile = rest.remove(0);
        proof {
            assert(all.take(done@ + 1).drop_last() =~= all.take(done@));
            assert(all.take(done@ + 1).last() == profile);
            reveal(Seq::filter);
            assert(rest@ =~= all.skip(done@ + 1));
        }
        if profile.pid.is_some() {
            if profile.port.is_some() {
                plan.restored.push(profile);
            } else {
                plan.without_port.push(profile);
            }
        }
        proof {
            done@ = done@ + 1;
        }
    }
    assert(all.take(done@) =~= all);
    plan
}

/// A profile's task that was registered is the one that is stopped, whatever the spelling of the
/// profile's path, and no other task is.
pub proof fn law_registered_task_is_stopped<T>(
    runtimes: Map<Seq<char>, T>,
    path: Seq<char>,
    spelled: Seq<char>,
    task: T,
)
    requires
        crate::launch::profile_key_of(path) == crate::launch::profile_key_of(spelled),
    ensures
        ({
            let registered = runtimes.insert(crate::launch::profile_key_of(path), task);
            let key = crate::launch::profile_key_of(spelled);
            &&& registered.get(key) == Some(task)
            &&& forall|other: Seq<char>|
                other != key ==> #[trigger] registered.remove(key).get(other) == runtimes.get(other)
        }),
{
}

/// A profile has one task at most: the one that was started before is handed back to be stopped
/// before the next is registered.
pub proof fn law_restart_replaces_task<T>(
    runtimes: Map<Seq<char>, T>,
    path: Seq<char>,
    first: T,
    second: T,
)
    ensures
        ({
            let key = crate::launch::profile_key_of(path);
            let running = runtimes.insert(key, first);
            let room = running.remove(key);
            &&& running.get(key) == Some(first)
            &&& room.get(key) is None
            &&& room.insert(key, second) == runtimes.insert(key, second)
        }),
{
    let key = crate::launch::profile_key_of(path);
    assert(runtimes.insert(key, first).remove(key).insert(key, second) =~= runtimes.insert(
        key,
        second,
    ));
}

/// Where the display is switched off nothing is started and nothing restored.
pub proof fn law_nothing_while_switched_off(
    port: Option<u16>,
    bind_account_id: Option<Seq<char>>,
    account: Option<CodexAccount>,
    default_profile: ProfileInstance,
    instances: Seq<ProfileInstance>,
)
    ensures
        !starts(false, port, bind_account_id, account),
        restorable_profiles(false, default_profile, instances).len() == 0,
{
}

/// A profile that is restored is one that would be started with its port.
pub proof fn law_restored_profiles_start(
    default_profile: ProfileInstance,
    instances: Seq<ProfileInstance>,
    port: u16,
    i: int,
)
    requires
        0 <= i < restorable_profiles(true, default_profile, instances).len(),
    ensures
        ({
            let profile = restorable_profiles(true, default_profile, instances)[i];
            &&& profile == default_profile || instances.contains(profile)
            &&& starts(
                true,
                Some(port),
                profile.bind_account_id.deep_view(),
                profile.account,
            )
        }),
{
    let all = seq![default_profile] + instances;
    let restorable = |profile: ProfileInstance| is_restorable(profile);
    all.lemma_filter_pred(restorable, i);
    all.lemma_filter_contains_rev(restorable, all.filter(restorable)[i]);
}

/// A task is started exactly for a profile that has a debugging port, while the display is switched
/// on, and that is bound to the API service or to an account that shows its quota by itself.
pub proof fn law_tasks_start_for_bound_profiles(
    enabled: bool,
    port: Option<u16>,
    id: Seq<char>,
    account: Option<CodexAccount>,
)
    ensures
        !starts(enabled, None, Some(id), account),
        !starts(false, port, Some(id), account),
        !starts(enabled, port, None, account),
        ({
            let name = crate::text::trimmed(id, crate::text::CharClass::Space);
            let gateway = crate::text::has_prefix(name, "__provider_gateway__:"@);
            &&& name == "__api_service__"@ ==> (starts(enabled, port, Some(id), account) <==> enabled
                && port is Some)
            &&& name.len() == 0 || gateway ==> !starts(enabled, port, Some(id), account)
            &&& name.len() > 0 && name != "__api_service__"@ && !gateway ==> (starts(
                enabled,
                port,
                Some(id),
                account,
            ) <==> enabled && port is Some && (account matches Some(a)
                && crate::account::independent_account(a)))
        }),
{
    crate::account::law_bindings_by_id(id);
}

/// A profile is looked for exactly where it is started as an app and is bound to something that a
/// quota can be shown for.
pub proof fn law_apps_are_restored(profile: ProfileInstance)
    ensures
        profile.launch_mode is Other ==> !is_restorable(profile),
        profile.launch_mode is App ==> (is_restorable(profile) <==> starts(
            true,
            Some(1u16),
            profile.bind_account_id.deep_view(),
            profile.account,
        )),
        profile.bind_account_id is None ==> !is_restorable(profile),
{
}

/// The default profile is looked for first, then the instances in their order, each by itself.
pub proof fn law_profiles_are_restored_in_order(
    default_profile: ProfileInstance,
    instances: Seq<ProfileInstance>,
    one: ProfileInstance,
)
    ensures
        ({
            let first = if is_restorable(default_profile) {
                seq![default_profile]
            } else {
                seq![]
            };
            let next = if is_restorable(one) {
                seq![one]
            } else {
                seq![]
            };
            &&& restorable_profiles(true, default_profile, seq![]) == first
            &&& restorable_profiles(true, default_profile, instances.push(one))
                == restorable_profiles(true, default_profile, instances) + next
        }),
{
    reveal(Seq::filter);
    let restorable = |profile: ProfileInstance| is_restorable(profile);
    let alone = seq![default_profile] + Seq::<ProfileInstance>::empty();
    assert(alone.drop_last() =~= Seq::<ProfileInstance>::empty());
    assert(alone.last() == default_profile);
    assert(alone.drop_last().filter(restorable) =~= seq![]);
    assert(restorable_profiles(true, default_profile, seq![]) =~= if is_restorable(
        default_profile,
    ) {
        seq![default_profile]
    } else {
        seq![]
    });
    let all = seq![default_profile] + instances.push(one);
    assert(all.drop_last() =~= seq![default_profile] + instances);
    assert(all.last() == one);
    assert(restorable_profiles(true, default_profile, instances.push(one)) =~= restorable_profiles(
        true,
        default_profile,
        instances,
    ) + if is_restorable(one) {
        seq![one]
    } else {
        seq![]
    });
}

/// A profile that runs is restored where it has a debugging port and noted where it has none; one
/// that does not run is neither.
pub proof fn law_running_profiles_are_told_apart(found: FoundProfile)
    ensures
        found.pid is None ==> !runs_with_port(found) && !runs_without_port(found),
        found.pid is Some && found.port is Some ==> runs_with_port(found) && !runs_without_port(
            found,
        ),
        found.pid is Some && found.port is None ==> !runs_with_port(found) && runs_without_port(
            found,
        ),
{
}

} // verus!
