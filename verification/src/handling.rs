//! What happens to one incoming request: the decisions between the outside steps.
//!
//! A request is first checked against the rate limit of its path. Under the
//! limit it is forwarded to the configured base path, counted, and the upstream
//! response is passed back (or a 500 when forwarding failed). Over the limit it
//! is not counted; the configured error page is returned with status 429 (or a
//! 500 when it could not be fetched). The error page is kept for `error_ttl`
//! seconds after it was fetched when that is set to a nonzero value, and served
//! from there while it is fresh. The caller performs each action and reports
//! the outcome as the next event.
use vstd::prelude::*;
use crate::ratelimit::REQUEST_LIMIT_PER_MINUTE;

verus! {

/// Where a request is in its handling.
#[derive(PartialEq, Eq, Structural, Clone, Copy, Debug)]
pub enum HandlePhase {
    /// Waiting for the rate-limit check of the request path.
    CheckingLimit,
    /// Waiting for the response of the upstream server.
    ForwardingUpstream,
    /// Waiting for the error page.
    FetchingErrorPage,
    /// The response has been decided.
    Finished,
}

/// An outcome reported by the caller, with the time it was observed at
/// (seconds since the Unix epoch) where the error page cache needs it.
#[derive(PartialEq, Eq, Structural, Clone, Copy, Debug)]
pub enum HandleEvent {
    /// The rate-limit store answered whether the path is under the limit.
    LimitChecked { under: bool, now_secs: u64 },
    /// Forwarding to the upstream server succeeded (`ok`) or failed.
    UpstreamDone { ok: bool },
    /// Fetching the error page succeeded (`ok`) or failed.
    ErrorPageDone { ok: bool, now_secs: u64 },
}

/// The response given to the client.
#[derive(PartialEq, Eq, Structural, Clone, Copy, Debug)]
pub enum ResponsePlan {
    /// The upstream response, unchanged.
    Upstream,
    /// The error page just fetched, with status 429 Too Many Requests.
    TooManyRequests,
    /// The kept copy of the error page, with status 429 Too Many Requests.
    CachedErrorPage,
    /// A 500 with body `Internal Server Error`.
    InternalServerError,
}

/// What the caller is to do next.
#[derive(PartialEq, Eq, Structural, Clone, Copy, Debug)]
pub enum HandleAction {
    /// Ask the rate-limit store whether the request path is under `limit`.
    CheckLimit { limit: u32 },
    /// Forward the request, its URI rewritten to scheme `http` and the configured base path.
    ProxyUpstream,
    /// Fetch the configured error path in place of the request.
    ProxyErrorPage,
    /// Count the request when `count_request`, keep the fetched error page in
    /// place of the kept one when `keep_error_page`, and answer with `response`.
    Reply { count_request: bool, keep_error_page: bool, response: ResponsePlan },
}

/// When the kept error page was fetched, and for how long a fetched page is kept.
#[derive(PartialEq, Eq, Structural, Clone, Copy, Debug)]
pub struct ErrorPageCache {
    /// Seconds since the Unix epoch at which the kept page was fetched; `None`
    /// while no page is kept.
    pub fetched_at: Option<u64>,
    /// The `error_ttl` setting: seconds a fetched page is kept; `None` or zero
    /// keeps none.
    pub ttl: Option<u32>,
}

/// Whether fetched error pages are kept at all: `error_ttl` is set and nonzero.
pub open spec fn keeps_pages(ttl: Option<u32>) -> bool {
    ttl matches Some(n) && n > 0
}

/// Whether the kept error page may be served at `now_secs`: a page is kept and
/// `now_secs` is before its fetch time plus the TTL.
pub open spec fn cache_fresh(cache: ErrorPageCache, now_secs: u64) -> bool {
    &&& keeps_pages(cache.ttl)
    &&& cache.fetched_at matches Some(f)
    &&& now_secs < f + cache.ttl->Some_0
}

impl ErrorPageCache {
    /// An empty cache for pages kept `ttl` seconds (the `error_ttl` setting).
    pub fn new(ttl: Option<u32>) -> (cache: Self)
        ensures
            cache.fetched_at is None,
            cache.ttl == ttl,
    {
        ErrorPageCache { fetched_at: None, ttl }
    }

    /// Whether the kept error page may be served at `now_secs`.
    pub fn is_fresh(&self, now_secs: u64) -> (fresh: bool)
        ensures
            fresh == cache_fresh(*self, now_secs),
    {
        match (self.ttl, self.fetched_at) {
            (Some(n), Some(f)) => {
                if n == 0 {
                    false
                } else if now_secs < f {
                    true
                } else {
                    now_secs - f < n as u64
                }
            },
            _ => false,
        }
    }
}

/// The phase and action a request starts with.
pub open spec fn start_spec() -> (HandlePhase, HandleAction) {
    (HandlePhase::CheckingLimit, HandleAction::CheckLimit { limit: REQUEST_LIMIT_PER_MINUTE })
}

/// The events that can follow in each phase.
pub open spec fn event_fits(phase: HandlePhase, event: HandleEvent) -> bool {
    match (phase, event) {
        (HandlePhase::CheckingLimit, HandleEvent::LimitChecked { .. }) => true,
        (HandlePhase::ForwardingUpstream, HandleEvent::UpstreamDone { .. }) => true,
        (HandlePhase::FetchingErrorPage, HandleEvent::ErrorPageDone { .. }) => true,
        _ => false,
    }
}

/// The next phase and action after `event` in `phase`, and the error page cache after it.
pub open spec fn step_spec(phase: HandlePhase, event: HandleEvent, cache: ErrorPageCache) -> (
    HandlePhase,
    HandleAction,
    ErrorPageCache,
) {
    match event {
        HandleEvent::LimitChecked { under, now_secs } => if under {
            (HandlePhase::ForwardingUpstream, HandleAction::ProxyUpstream, cache)
        } else if cache_fresh(cache, now_secs) {
            (
                HandlePhase::Finished,
                HandleAction::Reply {
                    count_request: false,
                    keep_error_page: false,
                    response: ResponsePlan::CachedErrorPage,
                },
                cache,
            )
        } else {
            (HandlePhase::FetchingErrorPage, HandleAction::ProxyErrorPage, cache)
        },
        HandleEvent::UpstreamDone { ok } => (
            HandlePhase::Finished,
            HandleAction::Reply {
                count_request: true,
                keep_error_page: false,
                response: if ok {
                    ResponsePlan::Upstream
                } else {
                    ResponsePlan::InternalServerError
                },
            },
            cache,
        ),
        HandleEvent::ErrorPageDone { ok, now_secs } => if ok {
            if keeps_pages(cache.ttl) {
                (
                    HandlePhase::Finished,
                    HandleAction::Reply {
                        count_request: false,
                        keep_error_page: true,
                        response: ResponsePlan::TooManyRequests,
                    },
                    ErrorPageCache { fetched_at: Some(now_secs), ttl: cache.ttl },
                )
            } else {
                (
                    HandlePhase::Finished,
                    HandleAction::Reply {
                        count_request: false,
                        keep_error_page: false,
                        response: ResponsePlan::TooManyRequests,
                    },
                    cache,
                )
            }
        } else {
            (
                HandlePhase::Finished,
                HandleAction::Reply {
                    count_request: false,
                    keep_error_page: false,
                    response: ResponsePlan::InternalServerError,
                },
                cache,
            )
        },
    }
}

/// The first phase and action of a request: check the limit of its path.
pub fn handle_start() -> (res: (HandlePhase, HandleAction))
    ensures
        res == start_spec(),
{
    (HandlePhase::CheckingLimit, HandleAction::CheckLimit { limit: REQUEST_LIMIT_PER_MINUTE })
}

/// The decision that follows an outcome; `cache` is the error page cache the
/// service shares between requests, updated when a fetched page is kept.
pub fn handle_step(phase: HandlePhase, event: HandleEvent, cache: &mut ErrorPageCache) -> (res: (
    HandlePhase,
    HandleAction,
))
    requires
        event_fits(phase, event),
    ensures
        res.0 == step_spec(phase, event, *old(cache)).0,
        res.1 == step_spec(phase, event, *old(cache)).1,
        *final(cache) == step_spec(phase, event, *old(cache)).2,
{
    match event {
        HandleEvent::LimitChecked { under, now_secs } => {
            if under {
                (HandlePhase::ForwardingUpstream, HandleAction::ProxyUpstream)
            } else if cache.is_fresh(now_secs) {
                (
                    HandlePhase::Finished,
                    HandleAction::Reply {
                        count_request: false,
                        keep_error_page: false,
                        response: ResponsePlan::CachedErrorPage,
                    },
                )
            } else {
                (HandlePhase::FetchingErrorPage, HandleAction::ProxyErrorPage)
            }
        },
        HandleEvent::UpstreamDone { ok } => {
            let response = if ok {
                ResponsePlan::Upstream
            } else {
                ResponsePlan::InternalServerError
            };
            (
                HandlePhase::Finished,
                HandleAction::Reply { count_request: true, keep_error_page: false, response },
            )
        },
        HandleEvent::ErrorPageDone { ok, now_secs } => {
            if ok {
                let keep = match cache.ttl {
                    Some(n) => n > 0,
                    None => false,
                };
                if keep {
                    cache.fetched_at = Some(now_secs);
                }
                (
                    HandlePhase::Finished,
                    HandleAction::Reply {
                        count_request: false,
                        keep_error_page: keep,
                        response: ResponsePlan::TooManyRequests,
                    },
                )
            } else {
                (
                    HandlePhase::Finished,
                    HandleAction::Reply {
                        count_request: false,
                        keep_error_page: false,
                        response: ResponsePlan::InternalServerError,
                    },
                )
            }
        },
    }
}

/// The status a response is sent with; `None` keeps the status of the upstream response.
pub open spec fn status_spec(plan: ResponsePlan) -> Option<u16> {
    match plan {
        ResponsePlan::Upstream => None,
        ResponsePlan::TooManyRequests => Some(429),
        ResponsePlan::CachedErrorPage => Some(429),
        ResponsePlan::InternalServerError => Some(500),
    }
}

impl ResponsePlan {
    /// The status this response is sent with; `None` keeps the proxied status.
    pub fn status(&self) -> (s: Option<u16>)
        ensures
            s == status_spec(*self),
    {
        match self {
            ResponsePlan::Upstream => None,
            ResponsePlan::TooManyRequests => Some(429),
            ResponsePlan::CachedErrorPage => Some(429),
            ResponsePlan::InternalServerError => Some(500),
        }
    }

    /// The body this response replaces the proxied one with, if any.
    pub fn fixed_body(&self) -> (b: Option<&'static str>)
        ensures
            *self == ResponsePlan::InternalServerError ==> (b matches Some(t) && t@
                == "Internal Server Error"@),
            *self != ResponsePlan::InternalServerError ==> b is None,
    {
        match self {
            ResponsePlan::InternalServerError => Some("Internal Server Error"),
            _ => None,
        }
    }
}

/// A whole handling at `now_secs` with the cache as it stands: the limit
/// decision, then, when it asked for one, the outcome of the proxying.
pub open spec fn run_spec(under: bool, proxy_ok: bool, now_secs: u64, cache: ErrorPageCache) -> (
    HandlePhase,
    HandleAction,
    ErrorPageCache,
) {
    let first = step_spec(
        start_spec().0,
        HandleEvent::LimitChecked { under, now_secs },
        cache,
    );
    if first.0 == HandlePhase::Finished {
        first
    } else if under {
        step_spec(first.0, HandleEvent::UpstreamDone { ok: proxy_ok }, first.2)
    } else {
        step_spec(first.0, HandleEvent::ErrorPageDone { ok: proxy_ok, now_secs }, first.2)
    }
}

/// Every request is answered exactly once: the limit check fits the start, the
/// proxying outcome (when one is asked for) fits the phase it leads to, and the
/// handling ends in `Finished` with a reply, after which no event fits.
pub proof fn law_every_request_answered(
    under: bool,
    proxy_ok: bool,
    now_secs: u64,
    cache: ErrorPageCache,
)
    ensures
        event_fits(start_spec().0, HandleEvent::LimitChecked { under, now_secs }),
        ({
            let first = step_spec(start_spec().0, HandleEvent::LimitChecked { under, now_secs }, cache);
            first.0 == HandlePhase::ForwardingUpstream ==> event_fits(
                first.0,
                HandleEvent::UpstreamDone { ok: proxy_ok },
            )
        }),
        ({
            let first = step_spec(start_spec().0, HandleEvent::LimitChecked { under, now_secs }, cache);
            first.0 == HandlePhase::FetchingErrorPage ==> event_fits(
                first.0,
                HandleEvent::ErrorPageDone { ok: proxy_ok, now_secs },
            )
        }),
        run_spec(under, proxy_ok, now_secs, cache).0 == HandlePhase::Finished,
        run_spec(under, proxy_ok, now_secs, cache).1 is Reply,
        forall|e: HandleEvent| !event_fits(HandlePhase::Finished, e),
{
}

/// A request is counted exactly when it was under the limit; requests refused
/// for being over the limit are not counted, and a failed forward still is.
pub proof fn law_counted_iff_under_limit(
    under: bool,
    proxy_ok: bool,
    now_secs: u64,
    cache: ErrorPageCache,
)
    ensures
        run_spec(under, proxy_ok, now_secs, cache).1->count_request == under,
{
}

/// The response sent: the upstream one when under the limit and forwarding
/// worked, the kept error page with 429 when over the limit and it is fresh,
/// the fetched error page with 429 when over the limit and it could be
/// fetched, and a 500 whenever a proxying that was asked for failed.
pub proof fn law_response_by_outcome(
    under: bool,
    proxy_ok: bool,
    now_secs: u64,
    cache: ErrorPageCache,
)
    ensures
        run_spec(under, proxy_ok, now_secs, cache).1->response == (if under {
            if proxy_ok {
                ResponsePlan::Upstream
            } else {
                ResponsePlan::InternalServerError
            }
        } else if cache_fresh(cache, now_secs) {
            ResponsePlan::CachedErrorPage
        } else if proxy_ok {
            ResponsePlan::TooManyRequests
        } else {
            ResponsePlan::InternalServerError
        }),
        !under && (proxy_ok || cache_fresh(cache, now_secs)) ==> status_spec(
            run_spec(under, proxy_ok, now_secs, cache).1->response,
        ) == Some(429u16),
{
}

/// With a nonzero `error_ttl`, the error page is fetched at most once within
/// its TTL: of two refused requests, at `first` and at any `second` before
/// `first + ttl`, at most one fetches the page; when the first fetched it, the
/// second is answered from the kept page.
pub proof fn law_error_page_fetched_once_within_ttl(
    cache: ErrorPageCache,
    first: u64,
    second: u64,
)
    requires
        keeps_pages(cache.ttl),
        second < first + cache.ttl->Some_0,
    ensures
        ({
            let s1 = step_spec(
                HandlePhase::CheckingLimit,
                HandleEvent::LimitChecked { under: false, now_secs: first },
                cache,
            );
            let after_first = run_spec(false, true, first, cache);
            let s2 = step_spec(
                HandlePhase::CheckingLimit,
                HandleEvent::LimitChecked { under: false, now_secs: second },
                after_first.2,
            );
            &&& !(s1.1 == HandleAction::ProxyErrorPage && s2.1 == HandleAction::ProxyErrorPage)
            &&& s1.1 == HandleAction::ProxyErrorPage ==> s2.1 == (HandleAction::Reply {
                count_request: false,
                keep_error_page: false,
                response: ResponsePlan::CachedErrorPage,
            })
        }),
{
}

/// Without a nonzero `error_ttl` no page is kept: every refused request fetches
/// the error page, and the cache never gains a page.
pub proof fn law_no_ttl_no_cache(proxy_ok: bool, now_secs: u64, cache: ErrorPageCache)
    requires
        !keeps_pages(cache.ttl),
    ensures
        step_spec(
            HandlePhase::CheckingLimit,
            HandleEvent::LimitChecked { under: false, now_secs },
            cache,
        ).1 == HandleAction::ProxyErrorPage,
        run_spec(false, proxy_ok, now_secs, cache).2 == cache,
{
}

/// A kept page is served only while fresh: once `now_secs` reaches its fetch
/// time plus the TTL, a refused request fetches the page again.
pub proof fn law_stale_page_refetched(now_secs: u64, cache: ErrorPageCache)
    requires
        !cache_fresh(cache, now_secs),
    ensures
        step_spec(
            HandlePhase::CheckingLimit,
            HandleEvent::LimitChecked { under: false, now_secs },
            cache,
        ).1 == HandleAction::ProxyErrorPage,
{
}

/// An admitted request is forwarded upstream, whatever the error page cache
/// holds and whenever it comes; the cache is left as it was.
pub proof fn law_admitted_request_forwarded(now_secs: u64, cache: ErrorPageCache)
    ensures
        step_spec(
            HandlePhase::CheckingLimit,
            HandleEvent::LimitChecked { under: true, now_secs },
            cache,
        ) == (HandlePhase::ForwardingUpstream, HandleAction::ProxyUpstream, cache),
{
}

/// A refused request is never forwarded upstream nor counted: it is answered
/// from the kept page when one was fetched less than `ttl` seconds before (with
/// a nonzero `ttl`), and sent to fetch the error page otherwise.
pub proof fn law_refused_request_not_forwarded(now_secs: u64, cache: ErrorPageCache)
    ensures
        step_spec(
            HandlePhase::CheckingLimit,
            HandleEvent::LimitChecked { under: false, now_secs },
            cache,
        ) == (if (match (cache.ttl, cache.fetched_at) {
            (Some(n), Some(f)) => n > 0 && now_secs < f + n,
            _ => false,
        }) {
            (
                HandlePhase::Finished,
                HandleAction::Reply {
                    count_request: false,
                    keep_error_page: false,
                    response: ResponsePlan::CachedErrorPage,
                },
                cache,
            )
        } else {
            (HandlePhase::FetchingErrorPage, HandleAction::ProxyErrorPage, cache)
        }),
{
}

/// A kept page is fresh exactly while it is kept (a nonzero `ttl`, a fetch
/// time `f`) and fewer than `ttl` seconds have passed since `f`: from `f + ttl`
/// on it is stale for good.
pub proof fn law_freshness_window(now_secs: u64, cache: ErrorPageCache)
    ensures
        cache_fresh(cache, now_secs) <==> (match (cache.ttl, cache.fetched_at) {
            (Some(n), Some(f)) => n > 0 && now_secs < f + n,
            _ => false,
        }),
        cache_fresh(cache, now_secs) ==> forall|later: u64|
            #![trigger cache_fresh(cache, later)]
            later >= cache.fetched_at->Some_0 + cache.ttl->Some_0 ==> !cache_fresh(cache, later),
{
}

} // verus!
