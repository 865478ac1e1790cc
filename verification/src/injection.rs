//! The rounds in which a running profile's quota display is kept up to date.
use crate::account::is_api_service_bind_account_id;
use crate::gateway::ProfileGatewayConfig;
use crate::pool::RefreshCount;
use crate::quota::{QuotaFigures, QuotaResponse};
use crate::script::{injection_script, ScriptLabels};
use crate::text::same_text;
use vstd::prelude::*;

verus! {

/// How long the renderer and the local quota service are waited for.
pub const CDP_CONNECT_TIMEOUT_MS: u64 = 2000;

/// The time between two rounds.
pub const INJECTION_INTERVAL_MS: u64 = 2000;

/// How long a quota is shown before it is read again.
pub const QUOTA_REFRESH_INTERVAL_MS: u64 = 15000;

/// The time between two rounds that do nothing because the program is shutting down.
pub const SHUTDOWN_PAUSE_MS: u64 = 50;

/// How the display of a profile stands.
#[derive(Debug)]
pub struct InjectionState {
    pub is_api_service: bool,
    pub bind_account_id: Option<String>,
    /// The figures that are shown.
    pub quota: QuotaResponse,
    /// The refresh request that was taken up last.
    pub handled_refresh_token: Option<String>,
    /// When the figures were read last, in milliseconds; `None` before the first time.
    pub last_quota_at: Option<u64>,
    /// Whether a refresh is under way.
    pub refresh_running: bool,
}

/// How a display stands, with its texts as sequences of characters.
#[verifier::ext_equal]
pub struct Display {
    pub is_api_service: bool,
    pub bind_account_id: Option<Seq<char>>,
    pub quota: QuotaFigures,
    pub handled_refresh_token: Option<Seq<char>>,
    pub last_quota_at: Option<u64>,
    pub refresh_running: bool,
}

impl Display {
    /// How a display begins: nothing is known and nothing asked for.
    pub open spec fn begun(bind_account_id: Option<Seq<char>>) -> Self {
        Display {
            is_api_service: bind_account_id == Some(crate::account::API_SERVICE_BIND_ID@),
            bind_account_id,
            quota: QuotaFigures::unknown(),
            handled_refresh_token: None,
            last_quota_at: None,
            refresh_running: false,
        }
    }
}

impl View for InjectionState {
    type V = Display;

    open spec fn view(&self) -> Display {
        Display {
            is_api_service: self.is_api_service,
            bind_account_id: self.bind_account_id.deep_view(),
            quota: self.quota@,
            handled_refresh_token: self.handled_refresh_token.deep_view(),
            last_quota_at: self.last_quota_at,
            refresh_running: self.refresh_running,
        }
    }
}

/// How a refresh has ended that was under way.
#[derive(Debug)]
pub enum RefreshEnd {
    /// With a result: how many quotas were refreshed, where this refresh did it itself.
    Finished(Result<Option<RefreshCount>, String>),
    /// Its task was lost.
    Aborted(String),
}

/// What there is to report of a refresh that has ended.
#[derive(Debug, Clone, Copy, PartialEq, Eq, Structural)]
pub enum RefreshReport {
    /// The API service has no accounts.
    EmptyPool,
    /// Every quota was refreshed.
    Complete,
    /// Some quotas were refreshed.
    Partial,
    /// Another profile refreshed the API service's quotas.
    Joined,
    /// Nothing.
    Silent,
    Failed,
    Aborted,
}

/// A count as a machine word, in which the negative numbers come last.
pub open spec fn as_word(count: i32) -> int {
    if count < 0 {
        usize::MAX + 1 + count
    } else {
        count as int
    }
}

/// What there is to report of the end of a refresh.
pub open spec fn report_of(is_api_service: bool, end: RefreshEnd) -> RefreshReport {
    match end {
        RefreshEnd::Aborted(_) => RefreshReport::Aborted,
        RefreshEnd::Finished(Err(_)) => RefreshReport::Failed,
        RefreshEnd::Finished(Ok(None)) => if is_api_service {
            RefreshReport::Joined
        } else {
            RefreshReport::Silent
        },
        RefreshEnd::Finished(Ok(Some((count, total)))) => if is_api_service && count == 0 && total
            == 0 {
            RefreshReport::EmptyPool
        } else if as_word(count) == total {
            RefreshReport::Complete
        } else {
            RefreshReport::Partial
        },
    }
}

/// What there is to report of the end of a refresh.
pub fn refresh_report(is_api_service: bool, end: &RefreshEnd) -> (report: RefreshReport)
    ensures
        report == report_of(is_api_service, *end),
{
    match end {
        RefreshEnd::Aborted(_) => RefreshReport::Aborted,
        RefreshEnd::Finished(result) => match result {
            Err(_) => RefreshReport::Failed,
            Ok(None) => if is_api_service {
                RefreshReport::Joined
            } else {
                RefreshReport::Silent
            },
            Ok(Some(counts)) => {
                let count: i32 = counts.0;
                let total: usize = counts.1;
                let all = if count < 0 {
                    let below: usize = (-(count + 1)) as usize;
                    usize::MAX - total == below
                } else {
                    count as usize == total
                };
                if is_api_service && count == 0 && total == 0 {
                    RefreshReport::EmptyPool
                } else if all {
                    RefreshReport::Complete
                } else {
                    RefreshReport::Partial
                }
            },
        },
    }
}

/// What a round begins with.
#[derive(Debug, Clone, Copy, PartialEq, Eq, Structural)]
pub enum RoundStart {
    /// Nothing: the program is shutting down.
    Pause,
    /// What is to be reported, and whether the figures are to be read again.
    Work { report: Option<RefreshReport>, reload: bool },
}

/// The figures are to be read again: they never were, or too long ago.
pub open spec fn is_stale(last_quota_at: Option<u64>, now_ms: u64) -> bool {
    match last_quota_at {
        None => true,
        Some(at) => now_ms - at >= QUOTA_REFRESH_INTERVAL_MS,
    }
}

/// What a round begins with: the figures are read again when a refresh has ended, or when they
/// are stale.
pub open spec fn round_start(
    display: Display,
    shutting_down: bool,
    end: Option<RefreshEnd>,
    now_ms: u64,
) -> RoundStart {
    if shutting_down {
        RoundStart::Pause
    } else {
        RoundStart::Work {
            report: match end {
                Some(e) => Some(report_of(display.is_api_service, e)),
                None => None,
            },
            reload: end is Some || is_stale(display.last_quota_at, now_ms),
        }
    }
}

/// Where the figures are read.
#[derive(Debug)]
pub enum QuotaSource<'a> {
    /// From the local quota service.
    Pool,
    /// From the account with this id.
    Account(&'a str),
    Nowhere,
}

/// Where figures are read, with the id as a sequence of characters.
pub enum QuotaOrigin {
    Pool,
    Account(Seq<char>),
    Nowhere,
}

impl<'a> View for QuotaSource<'a> {
    type V = QuotaOrigin;

    open spec fn view(&self) -> QuotaOrigin {
        match *self {
            QuotaSource::Pool => QuotaOrigin::Pool,
            QuotaSource::Account(id) => QuotaOrigin::Account(id@),
            QuotaSource::Nowhere => QuotaOrigin::Nowhere,
        }
    }
}

/// Where a display's figures are read.
pub open spec fn origin_of(display: Display) -> QuotaOrigin {
    if display.is_api_service {
        QuotaOrigin::Pool
    } else {
        match display.bind_account_id {
            Some(id) => QuotaOrigin::Account(id),
            None => QuotaOrigin::Nowhere,
        }
    }
}

/// The figures that are shown once they were read: the old ones where nothing could be read, and
/// those of an empty pool where the refresh has found it empty.
pub open spec fn shown_figures(
    display: Display,
    loaded: Option<QuotaFigures>,
    report: Option<RefreshReport>,
) -> QuotaFigures {
    if display.is_api_service && report == Some(RefreshReport::EmptyPool) {
        QuotaFigures::empty_pool()
    } else if origin_of(display) is Nowhere {
        display.quota
    } else {
        match loaded {
            Some(figures) => figures,
            None => display.quota,
        }
    }
}

/// The display after a round has begun.
pub open spec fn after_start(display: Display, shutting_down: bool, ended: bool) -> Display {
    Display { refresh_running: display.refresh_running && (shutting_down || !ended), ..display }
}

/// The display once its figures were read.
pub open spec fn after_reload(
    display: Display,
    loaded: Option<QuotaFigures>,
    report: Option<RefreshReport>,
    now_ms: u64,
) -> Display {
    Display {
        quota: shown_figures(display, loaded, report),
        last_quota_at: Some(now_ms),
        ..display
    }
}

/// The provider that the display names.
pub open spec fn provider_of(display: Display, gateway: Option<crate::gateway::GatewayTexts>) -> Seq<
    char,
> {
    match gateway {
        Some(g) => if display.is_api_service {
            g.provider_name
        } else {
            "Codex"@
        },
        None => "Codex"@,
    }
}

/// A script that shows a display.
pub open spec fn display_text(
    display: Display,
    provider_name: Seq<char>,
    labels: ScriptLabels,
    refreshing: bool,
) -> Seq<char> {
    crate::script::script_text(
        crate::script::script_bindings(
            provider_name,
            display.quota,
            labels,
            refreshing,
            display.handled_refresh_token,
        ),
    )
}

/// The refresh request among the renderer's replies: the last one that was not taken up already.
pub open spec fn requested(handled: Option<Seq<char>>, replies: Seq<Option<Seq<char>>>) -> Option<
    Seq<char>,
>
    decreases replies.len(),
{
    if replies.len() == 0 {
        None
    } else if replies.last() is Some && replies.last() != handled {
        replies.last()
    } else {
        requested(handled, replies.drop_last())
    }
}

/// What a round ends with.
#[derive(Debug)]
pub enum RoundEnd {
    /// The next round is waited for.
    Rest,
    /// A refresh request was taken up. The renderer is told so, and then the refresh is started
    /// for this binding; without one the next round follows at once.
    Refresh(Option<String>),
}

/// What a round ends with, with the binding as a sequence of characters.
pub enum RoundClose {
    Rest,
    Refresh(Option<Seq<char>>),
}

impl View for RoundEnd {
    type V = RoundClose;

    open spec fn view(&self) -> RoundClose {
        match *self {
            RoundEnd::Rest => RoundClose::Rest,
            RoundEnd::Refresh(bind_account_id) => RoundClose::Refresh(bind_account_id.deep_view()),
        }
    }
}

/// What a round ends with: a request is taken up unless a refresh is under way.
pub open spec fn round_close(display: Display, request: Option<Seq<char>>) -> RoundClose {
    if request is Some && !display.refresh_running {
        RoundClose::Refresh(display.bind_account_id)
    } else {
        RoundClose::Rest
    }
}

/// The display after a round in which `request` was made.
pub open spec fn after_request(display: Display, request: Option<Seq<char>>) -> Display {
    if request is Some && !display.refresh_running {
        Display {
            handled_refresh_token: request,
            refresh_running: display.bind_account_id is Some,
            ..display
        }
    } else {
        display
    }
}

/// A copy of an optional text.
fn copied(text: &Option<String>) -> (copy: Option<String>)
    ensures
        copy.deep_view() == text.deep_view(),
{
    match text {
        Some(t) => Some(t.clone()),
        None => None,
    }
}

impl InjectionState {
    /// How the display of a profile begins.
    pub fn new(bind_account_id: Option<String>) -> (state: Self)
        ensures
            state@ == Display::begun(bind_account_id.deep_view()),
    {
        let is_api_service = match &bind_account_id {
            Some(id) => is_api_service_bind_account_id(id.as_str()),
            None => false,
        };
        InjectionState {
            is_api_service,
            bind_account_id,
            quota: QuotaResponse::default(),
            handled_refresh_token: None,
            last_quota_at: None,
            refresh_running: false,
        }
    }

    /// Begins a round. `end` says how the refresh has ended that was under way, where it has.
    pub fn begin_round(
        &mut self,
        shutting_down: bool,
        end: Option<&RefreshEnd>,
        now_ms: u64,
    ) -> (start: RoundStart)
        ensures
            ({
                let ended = match end {
                    Some(e) => Some(*e),
                    None => None,
                };
                &&& start == round_start(old(self)@, shutting_down, ended, now_ms)
                &&& final(self)@ == after_start(old(self)@, shutting_down, ended is Some)
            }),
    {
        if shutting_down {
            return RoundStart::Pause;
        }
        let stale = match self.last_quota_at {
            None => true,
            Some(at) => now_ms >= at && now_ms - at >= QUOTA_REFRESH_INTERVAL_MS,
        };
        match end {
            Some(e) => {
                self.refresh_running = false;
                RoundStart::Work {
                    report: Some(refresh_report(self.is_api_service, e)),
                    reload: true,
                }
            },
            None => RoundStart::Work { report: None, reload: stale },
        }
    }

    /// Where the figures are read.
    pub fn quota_source(&self) -> (source: QuotaSource<'_>)
        ensures
            source@ == origin_of(self@),
    {
        if self.is_api_service {
            return QuotaSource::Pool;
        }
        match &self.bind_account_id {
            Some(id) => QuotaSource::Account(id.as_str()),
            None => QuotaSource::Nowhere,
        }
    }

    /// Shows the figures that were read, where any were.
    pub fn finish_reload(
        &mut self,
        loaded: Option<QuotaResponse>,
        report: Option<RefreshReport>,
        now_ms: u64,
    )
        ensures
            final(self)@ == after_reload(
                old(self)@,
                match loaded {
                    Some(l) => Some(l@),
                    None => None,
                },
                report,
                now_ms,
            ),
    {
        self.last_quota_at = Some(now_ms);
        if self.is_api_service {
            match report {
                Some(RefreshReport::EmptyPool) => {
                    self.quota = QuotaResponse::empty_pool();
                    return;
                },
                _ => {},
            }
        } else if self.bind_account_id.is_none() {
            return;
        }
        match loaded {
            Some(quota) => {
                self.quota = quota;
            },
            None => {},
        }
    }

    /// The provider that the display names. `gateway` is the profile's gateway, where it has one.
    pub fn provider_name(&self, gateway: Option<&ProfileGatewayConfig>) -> (name: String)
        ensures
            name@ == provider_of(
                self@,
                match gateway {
                    Some(g) => Some(g@),
                    None => None,
                },
            ),
    {
        match gateway {
            Some(g) => if self.is_api_service {
                g.provider_name.clone()
            } else {
                "Codex".to_owned()
            },
            None => "Codex".to_owned(),
        }
    }

    fn handled(&self) -> (token: Option<&str>)
        ensures
            token.deep_view() == self@.handled_refresh_token,
    {
        match &self.handled_refresh_token {
            Some(token) => Some(token.as_str()),
            None => None,
        }
    }

    /// The script that shows the display.
    pub fn script(&self, provider_name: &str, labels: &ScriptLabels) -> (script: String)
        ensures
            script@ == display_text(self@, provider_name@, *labels, self@.refresh_running),
    {
        injection_script(provider_name, &self.quota, labels, self.refresh_running, self.handled())
    }

    /// The script that shows the display with a refresh under way.
    pub fn refreshing_script(&self, provider_name: &str, labels: &ScriptLabels) -> (script: String)
        ensures
            script@ == display_text(self@, provider_name@, *labels, true),
    {
        injection_script(provider_name, &self.quota, labels, true, self.handled())
    }

    /// The refresh request among the replies of the renderer's targets.
    pub fn requested_token(&self, replies: &Vec<Option<String>>) -> (request: Option<String>)
        ensures
            request.deep_view() == requested(self@.handled_refresh_token, replies.deep_view()),
    {
        let ghost all = replies.deep_view();
        let mut i: usize = replies.len();
        assert(all.take(i as int) =~= all);
        while 0 < i
            invariant
                i <= replies.len(),
                all == replies.deep_view(),
                requested(self@.handled_refresh_token, all) == requested(
                    self@.handled_refresh_token,
                    all.take(i as int),
                ),
            decreases i,
        {
            proof {
                assert(all.take(i as int).drop_last() =~= all.take(i - 1));
                assert(all.take(i as int).last() == replies@[i - 1].deep_view());
            }
            match &replies[i - 1] {
                Some(token) => {
                    let known = match &self.handled_refresh_token {
                        Some(handled) => same_text(handled.as_str(), token.as_str()),
                        None => false,
                    };
                    if !known {
                        return Some(token.clone());
                    }
                },
                None => {},
            }
            i = i - 1;
        }
        None
    }

    /// Ends a round in which `request` was made.
    pub fn end_round(&mut self, request: Option<String>) -> (end: RoundEnd)
        ensures
            end@ == round_close(old(self)@, request.deep_view()),
            final(self)@ == after_request(old(self)@, request.deep_view()),
    {
        if request.is_none() || self.refresh_running {
            return RoundEnd::Rest;
        }
        let bind_account_id = copied(&self.bind_account_id);
        self.handled_refresh_token = request;
        self.refresh_running = bind_account_id.is_some();
        RoundEnd::Refresh(bind_account_id)
    }
}

/// What holds of a display in every round: it belongs to the API service exactly where it is bound
/// to it, and a refresh is under way only for a binding and a request that was taken up.
pub open spec fn is_consistent(display: Display) -> bool {
    &&& display.is_api_service <==> display.bind_account_id == Some(
        crate::account::API_SERVICE_BIND_ID@,
    )
    &&& display.refresh_running ==> display.bind_account_id is Some
        && display.handled_refresh_token is Some
}

/// A display is consistent when it begins, and every step of a round keeps it so.
pub proof fn law_displays_stay_consistent(
    bind_account_id: Option<Seq<char>>,
    display: Display,
    shutting_down: bool,
    ended: bool,
    loaded: Option<QuotaFigures>,
    report: Option<RefreshReport>,
    now_ms: u64,
    request: Option<Seq<char>>,
)
    requires
        is_consistent(display),
    ensures
        is_consistent(Display::begun(bind_account_id)),
        is_consistent(after_start(display, shutting_down, ended)),
        is_consistent(after_reload(display, loaded, report, now_ms)),
        is_consistent(after_request(display, request)),
{
}

/// The request that is found among the replies is one of them and was not taken up before; there
/// is none exactly where every reply is empty or was taken up.
pub proof fn law_requests_are_new(handled: Option<Seq<char>>, replies: Seq<Option<Seq<char>>>)
    ensures
        requested(handled, replies) is Some ==> {
            &&& requested(handled, replies) != handled
            &&& replies.contains(requested(handled, replies))
        },
        requested(handled, replies) is None <==> forall|i: int|
            0 <= i < replies.len() ==> (#[trigger] replies[i]) is None || replies[i] == handled,
    decreases replies.len(),
{
    if replies.len() > 0 {
        let before = replies.drop_last();
        law_requests_are_new(handled, before);
        assert(replies.last() == replies[replies.len() - 1]);
        assert(forall|i: int| 0 <= i < before.len() ==> before[i] == replies[i]);
        if replies.last() is None || replies.last() == handled {
            if requested(handled, before) is Some {
                let i = choose|i: int|
                    0 <= i < before.len() && before[i] == requested(handled, before);
                assert(replies[i] == requested(handled, replies));
            }
        }
    }
}

/// A request is taken up once: replies that repeat it find nothing, even when the refresh has
/// ended.
pub proof fn law_request_is_taken_up_once(
    display: Display,
    request: Seq<char>,
    ended: bool,
    replies: Seq<Option<Seq<char>>>,
)
    requires
        !display.refresh_running,
        forall|i: int|
            0 <= i < replies.len() ==> (#[trigger] replies[i]) is None || replies[i] == Some(
                request,
            ),
    ensures
        ({
            let taken = after_start(after_request(display, Some(request)), false, ended);
            let repeated = requested(taken.handled_refresh_token, replies);
            &&& round_close(display, Some(request)) == RoundClose::Refresh(display.bind_account_id)
            &&& repeated is None
            &&& round_close(taken, repeated) == RoundClose::Rest
            &&& after_request(taken, repeated) == taken
        }),
{
    let taken = after_start(after_request(display, Some(request)), false, ended);
    law_requests_are_new(taken.handled_refresh_token, replies);
}

/// While a refresh is under way no other is started, and a request that comes then stays open: it
/// is found again in the round after the refresh has ended.
pub proof fn law_one_refresh_at_a_time(
    display: Display,
    request: Seq<char>,
    replies: Seq<Option<Seq<char>>>,
)
    requires
        display.refresh_running,
        requested(display.handled_refresh_token, replies) == Some(request),
    ensures
        round_close(display, Some(request)) == RoundClose::Rest,
        after_request(display, Some(request)) == display,
        ({
            let next = after_start(after_request(display, Some(request)), false, true);
            round_close(next, requested(next.handled_refresh_token, replies))
                == RoundClose::Refresh(next.bind_account_id)
        }),
{
}

/// Figures that were read are shown for the reload interval and not longer, unless a refresh ends
/// before.
pub proof fn law_figures_are_read_again_in_time(
    display: Display,
    loaded: Option<QuotaFigures>,
    report: Option<RefreshReport>,
    read_ms: u64,
    now_ms: u64,
    end: Option<RefreshEnd>,
)
    ensures
        round_start(Display::begun(display.bind_account_id), false, end, now_ms) matches
            RoundStart::Work { reload, .. } && reload,
        round_start(after_reload(display, loaded, report, read_ms), false, end, now_ms) matches
            RoundStart::Work { reload, .. } && (reload <==> end is Some || now_ms - read_ms
            >= QUOTA_REFRESH_INTERVAL_MS),
{
}

/// Figures that cannot be read leave the shown ones as they are, unless the pool was found empty.
pub proof fn law_unread_figures_change_nothing(
    display: Display,
    report: Option<RefreshReport>,
    now_ms: u64,
)
    requires
        report != Some(RefreshReport::EmptyPool),
    ensures
        after_reload(display, None, report, now_ms).quota == display.quota,
{
}

/// An API service that was refreshed and found without accounts shows zero, whatever was read.
pub proof fn law_empty_pool_shows_zero(
    display: Display,
    loaded: Option<QuotaFigures>,
    end: RefreshEnd,
    now_ms: u64,
)
    requires
        display.is_api_service,
        end == RefreshEnd::Finished(Ok(Some((0i32, 0usize)))),
    ensures
        after_reload(
            display,
            loaded,
            Some(report_of(display.is_api_service, end)),
            now_ms,
        ).quota == QuotaFigures::empty_pool(),
{
}

/// A shutdown leaves the display as it is, and starts nothing.
pub proof fn law_shutdown_changes_nothing(display: Display, end: Option<RefreshEnd>, now_ms: u64)
    ensures
        round_start(display, true, end, now_ms) == RoundStart::Pause,
        after_start(display, true, end is Some) == display,
{
}

/// Figures that were read are the figures that are shown, whatever was shown before: for every
/// bound profile and every report but that of an empty pool, and for a bound account whatever the
/// report. The time of the reading is remembered, and nothing else changes.
pub proof fn law_read_figures_are_shown(
    display: Display,
    figures: QuotaFigures,
    report: Option<RefreshReport>,
    now_ms: u64,
)
    requires
        display.is_api_service || display.bind_account_id is Some,
        display.is_api_service ==> report != Some(RefreshReport::EmptyPool),
    ensures
        after_reload(display, Some(figures), report, now_ms).quota == figures,
{
}

/// Reading the figures changes nothing but the figures and the time at which they were read, and
/// a profile that is bound to nothing has no figures to read.
pub proof fn law_reading_changes_figures_only(
    display: Display,
    loaded: Option<QuotaFigures>,
    report: Option<RefreshReport>,
    now_ms: u64,
)
    ensures
        ({
            let read = after_reload(display, loaded, report, now_ms);
            &&& read.last_quota_at == Some(now_ms)
            &&& read.is_api_service == display.is_api_service
            &&& read.bind_account_id == display.bind_account_id
            &&& read.handled_refresh_token == display.handled_refresh_token
            &&& read.refresh_running == display.refresh_running
            &&& !display.is_api_service && display.bind_account_id is None ==> read.quota
                == display.quota
        }),
{
}

/// The last of several readings counts.
pub proof fn law_last_reading_counts(
    display: Display,
    first: Option<QuotaFigures>,
    second: QuotaFigures,
    report: Option<RefreshReport>,
    early_ms: u64,
    late_ms: u64,
)
    requires
        display.is_api_service || display.bind_account_id is Some,
    ensures
        after_reload(
            after_reload(display, first, report, early_ms),
            Some(second),
            None,
            late_ms,
        ).quota == second,
{
}

/// A display shows nothing at first, belongs to the API service exactly where it is bound to it,
/// has taken up no request and has no refresh under way.
pub proof fn law_displays_begin_empty(bind_account_id: Option<Seq<char>>)
    ensures
        ({
            let begun = Display::begun(bind_account_id);
            &&& begun.is_api_service <==> bind_account_id == Some("__api_service__"@)
            &&& begun.bind_account_id == bind_account_id
            &&& begun.quota == QuotaFigures::unknown()
            &&& begun.handled_refresh_token is None
            &&& begun.last_quota_at is None
            &&& !begun.refresh_running
        }),
{
}

/// What is known of a display is what its state holds, field by field.
pub proof fn law_displays_show_their_state(state: InjectionState)
    ensures
        state@.is_api_service == state.is_api_service,
        state@.bind_account_id is Some <==> state.bind_account_id is Some,
        state.bind_account_id matches Some(id) ==> state@.bind_account_id == Some(id@),
        state@.quota == state.quota@,
        state@.handled_refresh_token is Some <==> state.handled_refresh_token is Some,
        state.handled_refresh_token matches Some(token) ==> state@.handled_refresh_token == Some(
            token@,
        ),
        state@.last_quota_at == state.last_quota_at,
        state@.refresh_running == state.refresh_running,
{
}

/// The figures of the API service are read from its pool, those of a bound account from the
/// account, and those of an unbound profile nowhere.
pub proof fn law_figures_come_from_the_binding(display: Display, id: Seq<char>)
    ensures
        display.is_api_service ==> origin_of(display) is Pool,
        !display.is_api_service && display.bind_account_id == Some(id) ==> origin_of(display)
            == QuotaOrigin::Account(id),
        !display.is_api_service && display.bind_account_id is None ==> origin_of(display)
            is Nowhere,
{
}

/// The API service is named as its gateway is; everything else goes by the program's own name.
pub proof fn law_service_is_named_by_its_gateway(
    display: Display,
    gateway: crate::gateway::GatewayTexts,
)
    ensures
        provider_of(display, None) == "Codex"@,
        display.is_api_service ==> provider_of(display, Some(gateway)) == gateway.provider_name,
        !display.is_api_service ==> provider_of(display, Some(gateway)) == "Codex"@,
{
}

/// What is reported of a refresh that counted its quotas: an empty pool where there were none and
/// the profile belongs to the API service, else whether all of them were refreshed.
pub proof fn law_counts_are_reported(is_api_service: bool, count: i32, total: usize)
    ensures
        ({
            let report = report_of(is_api_service, RefreshEnd::Finished(Ok(Some((count, total)))));
            &&& is_api_service && count == 0 && total == 0 ==> report == RefreshReport::EmptyPool
            &&& count == total && !(is_api_service && total == 0) ==> report
                == RefreshReport::Complete
            &&& 0 <= count && count != total ==> report == RefreshReport::Partial
            &&& report != RefreshReport::EmptyPool ==> report == RefreshReport::Complete || report
                == RefreshReport::Partial
        }),
{
}

/// What is reported of a refresh that counted nothing: its failure, the loss of its task, that
/// another profile did the work, or nothing.
pub proof fn law_other_ends_are_reported(is_api_service: bool, message: String)
    ensures
        report_of(is_api_service, RefreshEnd::Finished(Err(message))) == RefreshReport::Failed,
        report_of(is_api_service, RefreshEnd::Aborted(message)) == RefreshReport::Aborted,
        report_of(true, RefreshEnd::Finished(Ok(None))) == RefreshReport::Joined,
        report_of(false, RefreshEnd::Finished(Ok(None))) == RefreshReport::Silent,
{
}

/// A round has something to report exactly where a refresh has ended, and reads the figures again
/// then, or where they never were read or were read a quarter of a minute ago.
pub proof fn law_rounds_begin_with_what_is_new(
    display: Display,
    end: Option<RefreshEnd>,
    now_ms: u64,
)
    ensures
        round_start(display, false, end, now_ms) matches RoundStart::Work { report, reload } && {
            &&& report is Some <==> end is Some
            &&& end matches Some(e) ==> report == Some(report_of(display.is_api_service, e))
            &&& reload <==> {
                ||| end is Some
                ||| display.last_quota_at is None
                ||| now_ms - display.last_quota_at->0 >= 15000
            }
        },
{
}

/// A refresh that has ended is no longer under way, and a round begins with nothing else changed.
pub proof fn law_ended_refresh_is_not_running(display: Display, shutting_down: bool, ended: bool)
    ensures
        ({
            let begun = after_start(display, shutting_down, ended);
            &&& begun.refresh_running <==> display.refresh_running && (shutting_down || !ended)
            &&& begun.quota == display.quota
            &&& begun.is_api_service == display.is_api_service
            &&& begun.bind_account_id == display.bind_account_id
            &&& begun.handled_refresh_token == display.handled_refresh_token
            &&& begun.last_quota_at == display.last_quota_at
        }),
{
}

/// The last reply that holds a new request decides, whatever came before it.
pub proof fn law_last_new_request_decides(
    handled: Option<Seq<char>>,
    replies: Seq<Option<Seq<char>>>,
    later: Seq<Option<Seq<char>>>,
    request: Seq<char>,
)
    requires
        handled != Some(request),
        forall|i: int|
            0 <= i < later.len() ==> (#[trigger] later[i]) is None || later[i] == handled,
    ensures
        requested(handled, replies.push(Some(request)) + later) == Some(request),
        requested(handled, later) is None,
    decreases later.len(),
{
    let whole = replies.push(Some(request)) + later;
    if later.len() == 0 {
        assert(whole =~= replies.push(Some(request)));
        assert(whole.last() == Some(request));
    } else {
        let less = later.drop_last();
        assert(forall|i: int| 0 <= i < less.len() ==> less[i] == later[i]);
        assert(later.last() == later[later.len() - 1]);
        law_last_new_request_decides(handled, replies, less, request);
        assert(whole.drop_last() =~= replies.push(Some(request)) + less);
        assert(whole.last() == later.last());
    }
}

/// A request that is taken up is remembered, and a refresh is under way from then on where the
/// profile is bound; without a request, or while a refresh is under way, nothing changes. The
/// figures stay as they are either way.
pub proof fn law_taken_request_is_remembered(display: Display, request: Option<Seq<char>>)
    ensures
        ({
            let after = after_request(display, request);
            let taken = request is Some && !display.refresh_running;
            &&& taken ==> after.handled_refresh_token == request && (after.refresh_running
                <==> display.bind_account_id is Some) && round_close(display, request)
                == RoundClose::Refresh(display.bind_account_id)
            &&& !taken ==> after == display && round_close(display, request) == RoundClose::Rest
            &&& after.quota == display.quota
            &&& after.is_api_service == display.is_api_service
            &&& after.bind_account_id == display.bind_account_id
            &&& after.last_quota_at == display.last_quota_at
        }),
{
}

/// The script of a display shows the display's own figures, under the given provider and texts,
/// with the request that was taken up last and the given state of the refresh button.
pub proof fn law_scripts_show_the_display(
    display: Display,
    provider_name: Seq<char>,
    labels: ScriptLabels,
    refreshing: bool,
)
    ensures
        ({
            let text = display_text(display, provider_name, labels, refreshing);
            &&& crate::script::says(text, "providerName"@, crate::json::quoted(provider_name))
            &&& crate::script::says(
                text,
                "weeklyPercent"@,
                crate::json::number_or_null(display.quota.weekly_remaining_percent),
            )
            &&& crate::script::says(
                text,
                "fiveHourPercent"@,
                crate::json::number_or_null(display.quota.five_hour_remaining_percent),
            )
            &&& crate::script::says(
                text,
                "accountCount"@,
                crate::json::number_or_null(display.quota.account_count),
            )
            &&& crate::script::says(
                text,
                "refreshInProgress"@,
                if refreshing {
                    "true"@
                } else {
                    "false"@
                },
            )
            &&& crate::script::says(
                text,
                "handledRefreshToken"@,
                crate::json::quoted_or_null(display.handled_refresh_token),
            )
            &&& text == crate::script::script_text(
                crate::script::script_bindings(
                    provider_name,
                    display.quota,
                    labels,
                    refreshing,
                    display.handled_refresh_token,
                ),
            )
        }),
{
    crate::script::law_script_says_its_constants(
        provider_name,
        display.quota,
        labels,
        refreshing,
        display.handled_refresh_token,
    );
}

/// A count below nought is that many short of the range of a machine word, and so are all quotas
/// refreshed only where their number is just that.
pub proof fn law_counts_below_nought(is_api_service: bool, count: i32, total: usize)
    requires
        count < 0,
    ensures
        report_of(is_api_service, RefreshEnd::Finished(Ok(Some((count, total))))) == (if total
            - usize::MAX == count + 1 {
            RefreshReport::Complete
        } else {
            RefreshReport::Partial
        }),
{
}

/// Where figures are read, and what a round ends with, mean what they hold.
pub proof fn law_rounds_mean_what_they_hold<'a>(id: &'a str, bound: Option<String>)
    ensures
        QuotaSource::<'a>::Pool@ is Pool,
        QuotaSource::<'a>::Account(id)@ == QuotaOrigin::Account(id@),
        QuotaSource::<'a>::Nowhere@ is Nowhere,
        RoundEnd::Rest@ is Rest,
        RoundEnd::Refresh(bound)@ == RoundClose::Refresh(bound.deep_view()),
{
}

/// How long is waited: two seconds for others and between rounds, a quarter of a minute between
/// readings of the figures, and a twentieth of a second between rounds of a shutdown.
pub proof fn law_times_of_rounds()
    ensures
        CDP_CONNECT_TIMEOUT_MS == 2000,
        INJECTION_INTERVAL_MS == 2000,
        QUOTA_REFRESH_INTERVAL_MS == 15000,
        SHUTDOWN_PAUSE_MS == 50,
{
}

} // verus!
