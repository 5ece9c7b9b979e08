//! The provider of storage tokens: a cache of the last grant, refreshed by at
//! most one caller at a time and within a bounded number of attempts.
//!
//! The provider never talks to the network. A caller asks with
//! [`AuthTokenProvider::get_token`] and is told what to do: use a token, fetch
//! a new grant and report back, wait for the caller that is fetching, or give
//! up. Time is the caller's monotonic clock in milliseconds.

use crate::oauth2::{ServiceAccountData, TokenData, TokenDataView};
use vstd::prelude::*;

verus! {

/// Attempts that one caller spends on a token before it gives up.
pub const MAX_ITERATIONS: u8 = 10;

/// Life, in milliseconds, below which the eager provider fetches anew.
pub const EAGER_MIN_LIFE_MS: u64 = 30000;

/// Life, in milliseconds, below which the preloading provider waits for a new
/// grant instead of handing out the old one.
pub const PRELOAD_MIN_LIFE_MS: u64 = 10000;

/// Life, in milliseconds, below which the preloading provider starts a
/// refresh in the background.
pub const PRELOAD_REFRESH_LIFE_MS: u64 = 60000;

/// A grant together with the moment at which it expires.
#[derive(Debug, Clone, PartialEq, Eq)]
pub struct ReceivedTokenInfo {
    pub data: TokenData,
    /// Expiry on the monotonic clock, in milliseconds.
    pub expire_time: u64,
}

/// The mathematical content of a [`ReceivedTokenInfo`].
pub ghost struct TokenInfoView {
    pub data: TokenDataView,
    pub expire_time: u64,
}

impl View for ReceivedTokenInfo {
    type V = TokenInfoView;

    open spec fn view(&self) -> TokenInfoView {
        TokenInfoView { data: self.data@, expire_time: self.expire_time }
    }
}

/// The view of an optional grant with its expiry.
pub open spec fn token_info_view(t: Option<ReceivedTokenInfo>) -> Option<TokenInfoView> {
    match t {
        Some(t) => Some(t@),
        None => None,
    }
}

/// The moment at which a grant received at `now` expires, where that moment
/// can be represented.
pub open spec fn expiry_of(expires_in: u64, now: u64) -> Option<u64> {
    if now + expires_in * 1000 <= u64::MAX {
        Some((now + expires_in * 1000) as u64)
    } else {
        None
    }
}

/// The life that is left at `now` of something that expires at
/// `expire_time`: nothing once that moment has passed.
pub open spec fn life_left(expire_time: u64, now: u64) -> u64 {
    if expire_time >= now {
        (expire_time - now) as u64
    } else {
        0
    }
}

impl ReceivedTokenInfo {
    /// Stamps a grant that arrived at `now` with its expiry. There is none
    /// where the expiry cannot be represented.
    pub fn request(data: TokenData, now: u64) -> (r: Option<ReceivedTokenInfo>)
        ensures
            match expiry_of(data.expires_in, now) {
                Some(expire_time) => token_info_view(r) == Some(
                    TokenInfoView { data: data@, expire_time },
                ),
                None => r is None,
            },
    {
        let life = match data.expires_in.checked_mul(1000) {
            Some(life) => life,
            None => {
                return None;
            },
        };
        match now.checked_add(life) {
            Some(expire_time) => Some(ReceivedTokenInfo { data, expire_time }),
            None => None,
        }
    }

    /// The life of the grant that is left at `now`, in milliseconds.
    pub fn life_duration_left(&self, now: u64) -> (r: u64)
        ensures
            r == life_left(self.expire_time, now),
    {
        self.expire_time.saturating_sub(now)
    }
}

/// When a provider refreshes its token.
#[derive(Debug, Clone, Copy, PartialEq, Eq, Structural)]
pub enum RefreshPolicy {
    /// Fetch when a caller finds less than thirty seconds of life.
    Eager,
    /// Start a refresh in the background below a minute of life, and wait for
    /// a new grant only below ten seconds.
    Preloading,
}

/// The least life, in milliseconds, of a token that a provider hands out.
pub open spec fn min_life(policy: RefreshPolicy) -> u64 {
    match policy {
        RefreshPolicy::Eager => EAGER_MIN_LIFE_MS,
        RefreshPolicy::Preloading => PRELOAD_MIN_LIFE_MS,
    }
}

/// What a caller tells the provider.
#[derive(Debug, PartialEq, Eq)]
pub enum TokenEvent {
    /// A token is wanted.
    Asked,
    /// The fetch or join that the provider asked for is over: the grant with
    /// its expiry, or nothing where it failed.
    Fetched(Option<ReceivedTokenInfo>),
    /// The background refresh that the provider wanted joined was lost.
    JoinFailed,
    /// The caller at work leaves without reporting a grant, as when its
    /// request was cancelled.
    Abandoned,
}

/// What the provider tells a caller.
#[derive(Debug, Clone, PartialEq, Eq)]
pub enum TokenStep {
    /// Use this token.
    Ready(String),
    /// Use this token, and start a refresh in the background.
    ReadyAndRefresh(String),
    /// Fetch a grant and report it with [`TokenEvent::Fetched`].
    Fetch,
    /// Wait for the background refresh and report its grant with
    /// [`TokenEvent::Fetched`].
    Join,
    /// Another caller is fetching: wait for it, then ask again.
    Wait,
    /// Ten attempts brought no usable token.
    Exhausted,
    /// The background refresh was lost.
    Failed,
}

/// The mathematical content of a [`TokenEvent`].
pub ghost enum TokenEventView {
    Asked,
    Fetched(Option<TokenInfoView>),
    JoinFailed,
    Abandoned,
}

/// The mathematical content of a [`TokenStep`].
pub ghost enum TokenStepView {
    Ready(Seq<char>),
    ReadyAndRefresh(Seq<char>),
    Fetch,
    Join,
    Wait,
    Exhausted,
    Failed,
}

impl View for TokenEvent {
    type V = TokenEventView;

    open spec fn view(&self) -> TokenEventView {
        match *self {
            TokenEvent::Asked => TokenEventView::Asked,
            TokenEvent::Fetched(t) => TokenEventView::Fetched(token_info_view(t)),
            TokenEvent::JoinFailed => TokenEventView::JoinFailed,
            TokenEvent::Abandoned => TokenEventView::Abandoned,
        }
    }
}

impl View for TokenStep {
    type V = TokenStepView;

    open spec fn view(&self) -> TokenStepView {
        match *self {
            TokenStep::Ready(t) => TokenStepView::Ready(t@),
            TokenStep::ReadyAndRefresh(t) => TokenStepView::ReadyAndRefresh(t@),
            TokenStep::Fetch => TokenStepView::Fetch,
            TokenStep::Join => TokenStepView::Join,
            TokenStep::Wait => TokenStepView::Wait,
            TokenStep::Exhausted => TokenStepView::Exhausted,
            TokenStep::Failed => TokenStepView::Failed,
        }
    }
}

/// The token that a step hands to the caller, if it hands one.
pub open spec fn handed_out(step: TokenStepView) -> Option<Seq<char>> {
    match step {
        TokenStepView::Ready(t) => Some(t),
        TokenStepView::ReadyAndRefresh(t) => Some(t),
        _ => None,
    }
}

/// The changing part of a provider.
pub ghost struct CacheView {
    /// The last grant.
    pub token: Option<TokenInfoView>,
    /// Whether a caller is at work on a new grant. Only that caller may
    /// report one.
    pub in_flight: bool,
    /// Attempts which that caller has used up.
    pub iteration: u8,
    /// Whether a background refresh was started and not yet joined.
    pub background: bool,
}

/// The cache once the caller at work has left.
pub open spec fn released(cache: CacheView) -> CacheView {
    CacheView { in_flight: false, iteration: 0, ..cache }
}

/// The cache once the caller at work has started one more attempt.
pub open spec fn attempting(cache: CacheView) -> CacheView {
    CacheView { in_flight: true, iteration: (cache.iteration + 1) as u8, ..cache }
}

/// Whether the cached token has, at `now`, the least life that the policy
/// asks of a token that is handed out.
pub open spec fn usable(policy: RefreshPolicy, cache: CacheView, now: u64) -> bool {
    cache.token matches Some(info) && life_left(info.expire_time, now) >= min_life(policy)
}

/// The cache of a caller that has given up: empty, and free for the next
/// caller.
pub open spec fn given_up(cache: CacheView) -> CacheView {
    CacheView { token: None, ..released(cache) }
}

/// What the caller at work does next, at the time `now`.
///
/// A cached token with enough life is handed out, however many attempts
/// it took to get it. Without such a token a new grant is sought while
/// attempts are left, and only when the tenth attempt is behind the caller
/// and still no such token is cached, the cache is emptied and the caller
/// gives up.
pub open spec fn evaluate(policy: RefreshPolicy, cache: CacheView, now: u64) -> (
    CacheView,
    TokenStepView,
) {
    match cache.token {
        Some(info) => {
            let life = life_left(info.expire_time, now);
            if life >= min_life(policy) {
                if policy == RefreshPolicy::Preloading && life < PRELOAD_REFRESH_LIFE_MS
                    && !cache.background {
                    (
                        CacheView { background: true, ..released(cache) },
                        TokenStepView::ReadyAndRefresh(info.data.access_token),
                    )
                } else {
                    (released(cache), TokenStepView::Ready(info.data.access_token))
                }
            } else if cache.iteration >= MAX_ITERATIONS {
                (given_up(cache), TokenStepView::Exhausted)
            } else if policy == RefreshPolicy::Preloading && cache.background {
                (CacheView { background: false, ..attempting(cache) }, TokenStepView::Join)
            } else {
                (attempting(cache), TokenStepView::Fetch)
            }
        },
        None => if cache.iteration >= MAX_ITERATIONS {
            (given_up(cache), TokenStepView::Exhausted)
        } else {
            (attempting(cache), TokenStepView::Fetch)
        },
    }
}

/// One step of the provider: the cache after the event and the answer to the
/// caller.
///
/// A caller that asks while another is at work is told to wait, and so is one
/// that reports a grant nobody asked for; neither changes the cache. A
/// reported grant replaces the cached one; a failed fetch leaves it. A
/// caller at work that leaves, or whose background refresh was lost, frees
/// the provider for the next caller.
pub open spec fn provider_step(
    policy: RefreshPolicy,
    cache: CacheView,
    event: TokenEventView,
    now: u64,
) -> (CacheView, TokenStepView) {
    match event {
        TokenEventView::Asked => if cache.in_flight {
            (cache, TokenStepView::Wait)
        } else {
            evaluate(policy, CacheView { iteration: 0, ..cache }, now)
        },
        TokenEventView::Fetched(outcome) => if !cache.in_flight {
            (cache, TokenStepView::Wait)
        } else {
            match outcome {
                Some(info) => evaluate(policy, CacheView { token: Some(info), ..cache }, now),
                None => evaluate(policy, cache, now),
            }
        },
        TokenEventView::JoinFailed => if !cache.in_flight {
            (cache, TokenStepView::Wait)
        } else {
            (released(cache), TokenStepView::Failed)
        },
        TokenEventView::Abandoned => if !cache.in_flight {
            (cache, TokenStepView::Wait)
        } else {
            (released(cache), TokenStepView::Failed)
        },
    }
}

/// The cache of a provider that nobody has asked yet.
pub open spec fn empty_cache() -> CacheView {
    CacheView { token: None, in_flight: false, iteration: 0, background: false }
}

/// What holds of every cache that steps of the provider lead to: a caller at
/// work has used at most ten attempts, and without one none are counted.
pub open spec fn cache_wf(cache: CacheView) -> bool {
    &&& cache.iteration <= MAX_ITERATIONS
    &&& !cache.in_flight ==> cache.iteration == 0
}

/// Steps keep the cache well formed.
pub proof fn lemma_step_keeps_cache_wf(
    policy: RefreshPolicy,
    cache: CacheView,
    event: TokenEventView,
    now: u64,
)
    requires
        cache_wf(cache),
    ensures
        cache_wf(provider_step(policy, cache, event, now).0),
{
}

/// Single flight: once a caller has been sent for a grant, every caller that
/// asks before it reports back is told to wait, whenever it asks. So of
/// callers that overlap and all find the cache empty or stale, exactly one
/// makes a request.
pub proof fn lemma_single_flight(policy: RefreshPolicy, cache: CacheView, now: u64, later: u64)
    requires
        !cache.in_flight,
    ensures
        ({
            let (busy, first) = provider_step(policy, cache, TokenEventView::Asked, now);
            (first is Fetch || first is Join) ==> busy.in_flight && provider_step(
                policy,
                busy,
                TokenEventView::Asked,
                later,
            ) == (busy, TokenStepView::Wait)
        }),
{
}

/// Once the caller at work reports a grant with a minute of life or more, it
/// gets that token and leaves, whichever of its attempts brought the grant,
/// the tenth too; and those who ask while that life lasts get the same token
/// without another request.
pub proof fn lemma_refresh_serves_all(
    policy: RefreshPolicy,
    cache: CacheView,
    info: TokenInfoView,
    now: u64,
    later: u64,
)
    requires
        cache.in_flight,
        now <= later,
        info.expire_time >= later + PRELOAD_REFRESH_LIFE_MS,
    ensures
        ({
            let (idle, first) = provider_step(
                policy,
                cache,
                TokenEventView::Fetched(Some(info)),
                now,
            );
            &&& first == TokenStepView::Ready(info.data.access_token)
            &&& !idle.in_flight
            &&& provider_step(policy, idle, TokenEventView::Asked, later) == (
                idle,
                TokenStepView::Ready(info.data.access_token),
            )
        }),
{
}

/// No expired token is handed out: a token that a step hands to the caller is
/// the cached one, and its expiry lies after `now` by the least life of the
/// policy.
pub proof fn lemma_no_expired_token(
    policy: RefreshPolicy,
    cache: CacheView,
    event: TokenEventView,
    now: u64,
)
    ensures
        ({
            let (next, step) = provider_step(policy, cache, event, now);
            handed_out(step) matches Some(t) ==> {
                &&& next.token matches Some(info)
                &&& info.data.access_token == t
                &&& info.expire_time >= now + min_life(policy)
                &&& info.expire_time > now
            }
        }),
{
}

/// A caller that finds an expired token is sent for a new grant: the cache
/// does not keep a token that was seen expired without an attempt to replace
/// it.
pub proof fn lemma_expired_token_is_refreshed(policy: RefreshPolicy, cache: CacheView, now: u64)
    requires
        !cache.in_flight,
        cache.token matches Some(info) && info.expire_time <= now,
    ensures
        ({
            let step = provider_step(policy, cache, TokenEventView::Asked, now).1;
            step is Fetch || step is Join
        }),
{
}

/// The cache once the caller at work has reported the outcome of a fetch: a
/// grant replaces the cached token, a failure leaves it.
pub open spec fn with_outcome(cache: CacheView, outcome: Option<TokenInfoView>) -> CacheView {
    match outcome {
        Some(info) => CacheView { token: Some(info), ..cache },
        None => cache,
    }
}

/// A caller gives up only on total failure: exactly when its tenth attempt
/// is behind it and even that one has left no token with enough life in the
/// cache. The cache is empty then and free for the next caller.
pub proof fn lemma_exhaustion(
    policy: RefreshPolicy,
    cache: CacheView,
    outcome: Option<TokenInfoView>,
    now: u64,
)
    requires
        cache_wf(cache),
        cache.in_flight,
    ensures
        ({
            let (next, step) = provider_step(policy, cache, TokenEventView::Fetched(outcome), now);
            &&& step is Exhausted <==> cache.iteration == MAX_ITERATIONS && !usable(
                policy,
                with_outcome(cache, outcome),
                now,
            )
            &&& step is Exhausted ==> next.token is None && !next.in_flight
        }),
{
}

/// A grant is never thrown away for the number of attempts it took: whenever
/// the caller at work reports a grant that has the least life of the policy,
/// that grant is cached and its token handed out.
pub proof fn lemma_grant_is_handed_out(
    policy: RefreshPolicy,
    cache: CacheView,
    info: TokenInfoView,
    now: u64,
)
    requires
        cache.in_flight,
        life_left(info.expire_time, now) >= min_life(policy),
    ensures
        ({
            let (next, step) = provider_step(
                policy,
                cache,
                TokenEventView::Fetched(Some(info)),
                now,
            );
            &&& handed_out(step) == Some(info.data.access_token)
            &&& next.token == Some(info)
            &&& !next.in_flight
        }),
{
}

/// A caller makes at most ten requests: a new grant is sought only while
/// fewer than ten attempts are behind the caller.
pub proof fn lemma_attempts_are_bounded(
    policy: RefreshPolicy,
    cache: CacheView,
    event: TokenEventView,
    now: u64,
)
    requires
        cache_wf(cache),
    ensures
        ({
            let (next, step) = provider_step(policy, cache, event, now);
            (step is Fetch || step is Join) ==> next.in_flight && 1 <= next.iteration
                <= MAX_ITERATIONS && (event is Asked ==> next.iteration == 1) && (!(event is Asked)
                ==> next.iteration == cache.iteration + 1)
        }),
{
}

/// A caller that leaves frees the provider: once the caller at work has
/// reported that it leaves, the cached token is as it was, and the next
/// caller is not told to wait.
pub proof fn lemma_abandoned_work_frees_the_provider(
    policy: RefreshPolicy,
    cache: CacheView,
    now: u64,
    later: u64,
)
    requires
        cache.in_flight,
    ensures
        ({
            let (next, step) = provider_step(policy, cache, TokenEventView::Abandoned, now);
            &&& step is Failed
            &&& !next.in_flight
            &&& next.token == cache.token
            &&& !(provider_step(policy, next, TokenEventView::Asked, later).1 is Wait)
        }),
{
}

/// The provider of one tenant's storage tokens.
#[derive(Debug, Clone, PartialEq, Eq)]
pub struct AuthTokenProvider {
    pub account_data: ServiceAccountData,
    pub scopes: String,
    pub policy: RefreshPolicy,
    pub token_info: Option<ReceivedTokenInfo>,
    pub in_flight: bool,
    pub iteration: u8,
    pub background: bool,
}

impl AuthTokenProvider {
    /// The changing part of the provider.
    pub open spec fn cache(&self) -> CacheView {
        CacheView {
            token: token_info_view(self.token_info),
            in_flight: self.in_flight,
            iteration: self.iteration,
            background: self.background,
        }
    }

    /// A provider with an empty cache.
    pub fn new(account_data: ServiceAccountData, scopes: &str, policy: RefreshPolicy) -> (r: Self)
        ensures
            r.account_data == account_data,
            r.scopes@ == scopes@,
            r.policy == policy,
            r.cache() == empty_cache(),
    {
        AuthTokenProvider {
            account_data,
            scopes: String::from_str(scopes),
            policy,
            token_info: None,
            in_flight: false,
            iteration: 0,
            background: false,
        }
    }

    /// Leaves the refresh loop.
    fn release(&mut self)
        ensures
            final(self).cache() == released(old(self).cache()),
            final(self).account_data == old(self).account_data,
            final(self).scopes == old(self).scopes,
            final(self).policy == old(self).policy,
    {
        self.in_flight = false;
        self.iteration = 0;
    }

    /// Starts one more attempt.
    fn attempt(&mut self)
        requires
            old(self).iteration < MAX_ITERATIONS,
        ensures
            final(self).cache() == attempting(old(self).cache()),
            final(self).account_data == old(self).account_data,
            final(self).scopes == old(self).scopes,
            final(self).policy == old(self).policy,
    {
        self.in_flight = true;
        self.iteration = self.iteration + 1;
    }

    /// Gives up: the cache is emptied and left to the next caller.
    fn give_up(&mut self)
        ensures
            final(self).cache() == given_up(old(self).cache()),
            final(self).account_data == old(self).account_data,
            final(self).scopes == old(self).scopes,
            final(self).policy == old(self).policy,
    {
        self.release();
        self.token_info = None;
    }

    /// Decides what the caller at work does next.
    fn evaluate(&mut self, now: u64) -> (step: TokenStep)
        ensures
            (final(self).cache(), step@) == evaluate(old(self).policy, old(self).cache(), now),
            final(self).account_data == old(self).account_data,
            final(self).scopes == old(self).scopes,
            final(self).policy == old(self).policy,
    {
        let (life, token) = match &self.token_info {
            None => {
                if self.iteration >= MAX_ITERATIONS {
                    self.give_up();
                    return TokenStep::Exhausted;
                }
                self.attempt();
                return TokenStep::Fetch;
            },
            Some(info) => (info.life_duration_left(now), info.data.access_token.clone()),
        };
        let (least, preloading) = match self.policy {
            RefreshPolicy::Eager => (EAGER_MIN_LIFE_MS, false),
            RefreshPolicy::Preloading => (PRELOAD_MIN_LIFE_MS, true),
        };
        if life >= least {
            self.release();
            if preloading && life < PRELOAD_REFRESH_LIFE_MS && !self.background {
                self.background = true;
                TokenStep::ReadyAndRefresh(token)
            } else {
                TokenStep::Ready(token)
            }
        } else if self.iteration >= MAX_ITERATIONS {
            self.give_up();
            TokenStep::Exhausted
        } else if preloading && self.background {
            self.attempt();
            self.background = false;
            TokenStep::Join
        } else {
            self.attempt();
            TokenStep::Fetch
        }
    }

    /// Runs one step of the provider at the time `now`.
    ///
    /// A token that is handed out is the cached one, and at `now` it still
    /// has the least life of the policy: it has not expired.
    pub fn get_token(&mut self, event: TokenEvent, now: u64) -> (step: TokenStep)
        ensures
            (final(self).cache(), step@) == provider_step(
                old(self).policy,
                old(self).cache(),
                event@,
                now,
            ),
            final(self).account_data == old(self).account_data,
            final(self).scopes == old(self).scopes,
            final(self).policy == old(self).policy,
            handed_out(step@) matches Some(t) ==> {
                &&& final(self).cache().token matches Some(info)
                &&& info.data.access_token == t
                &&& info.expire_time >= now + min_life(final(self).policy)
            },
    {
        match event {
            TokenEvent::Asked => {
                if self.in_flight {
                    TokenStep::Wait
                } else {
                    self.iteration = 0;
                    self.evaluate(now)
                }
            },
            TokenEvent::Fetched(outcome) => {
                if !self.in_flight {
                    TokenStep::Wait
                } else {
                    match outcome {
                        Some(info) => {
                            self.token_info = Some(info);
                        },
                        None => {},
                    }
                    self.evaluate(now)
                }
            },
            TokenEvent::JoinFailed => {
                if !self.in_flight {
                    TokenStep::Wait
                } else {
                    self.release();
                    TokenStep::Failed
                }
            },
            TokenEvent::Abandoned => {
                if !self.in_flight {
                    TokenStep::Wait
                } else {
                    self.release();
                    TokenStep::Failed
                }
            },
        }
    }
}

} // verus!
