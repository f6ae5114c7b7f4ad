use jars::handling::{
    handle_start, handle_step, ErrorPageCache, HandleAction, HandleEvent, HandlePhase,
    ResponsePlan,
};

fn reply(count_request: bool, keep_error_page: bool, response: ResponsePlan) -> HandleAction {
    HandleAction::Reply { count_request, keep_error_page, response }
}

#[test]
fn start_checks_limit() {
    assert_eq!(
        handle_start(),
        (HandlePhase::CheckingLimit, HandleAction::CheckLimit { limit: 100 })
    );
}

#[test]
fn under_limit_forwards_and_counts() {
    let mut cache = ErrorPageCache::new(Some(30));
    let (phase, action) = handle_step(
        HandlePhase::CheckingLimit,
        HandleEvent::LimitChecked { under: true, now_secs: 1_000 },
        &mut cache,
    );
    assert_eq!(phase, HandlePhase::ForwardingUpstream);
    assert_eq!(action, HandleAction::ProxyUpstream);
    let (phase, action) = handle_step(phase, HandleEvent::UpstreamDone { ok: true }, &mut cache);
    assert_eq!(phase, HandlePhase::Finished);
    assert_eq!(action, reply(true, false, ResponsePlan::Upstream));
    assert_eq!(cache, ErrorPageCache::new(Some(30)));
}

#[test]
fn failed_forward_is_counted_and_answers_500() {
    let mut cache = ErrorPageCache::new(None);
    let (phase, action) = handle_step(
        HandlePhase::ForwardingUpstream,
        HandleEvent::UpstreamDone { ok: false },
        &mut cache,
    );
    assert_eq!(phase, HandlePhase::Finished);
    assert_eq!(action, reply(true, false, ResponsePlan::InternalServerError));
}

#[test]
fn over_limit_fetches_error_page_uncounted() {
    let mut cache = ErrorPageCache::new(None);
    let (phase, action) = handle_step(
        HandlePhase::CheckingLimit,
        HandleEvent::LimitChecked { under: false, now_secs: 1_000 },
        &mut cache,
    );
    assert_eq!(phase, HandlePhase::FetchingErrorPage);
    assert_eq!(action, HandleAction::ProxyErrorPage);
    let (phase, action) = handle_step(
        phase,
        HandleEvent::ErrorPageDone { ok: true, now_secs: 1_001 },
        &mut cache,
    );
    assert_eq!(phase, HandlePhase::Finished);
    assert_eq!(action, reply(false, false, ResponsePlan::TooManyRequests));
    assert_eq!(cache.fetched_at, None);
    let (_, action) = handle_step(
        HandlePhase::FetchingErrorPage,
        HandleEvent::ErrorPageDone { ok: false, now_secs: 1_002 },
        &mut cache,
    );
    assert_eq!(action, reply(false, false, ResponsePlan::InternalServerError));
}

#[test]
fn error_page_is_cached_for_ttl() {
    let mut cache = ErrorPageCache::new(Some(10));
    // First refused request fetches the page and keeps it.
    let (phase, action) = handle_step(
        HandlePhase::CheckingLimit,
        HandleEvent::LimitChecked { under: false, now_secs: 100 },
        &mut cache,
    );
    assert_eq!(action, HandleAction::ProxyErrorPage);
    let (_, action) = handle_step(
        phase,
        HandleEvent::ErrorPageDone { ok: true, now_secs: 100 },
        &mut cache,
    );
    assert_eq!(action, reply(false, true, ResponsePlan::TooManyRequests));
    assert_eq!(cache.fetched_at, Some(100));
    // A second refused request within the TTL is served from the kept page.
    let (phase, action) = handle_step(
        HandlePhase::CheckingLimit,
        HandleEvent::LimitChecked { under: false, now_secs: 109 },
        &mut cache,
    );
    assert_eq!(phase, HandlePhase::Finished);
    assert_eq!(action, reply(false, false, ResponsePlan::CachedErrorPage));
    // Once the TTL has passed the page is fetched again.
    let (_, action) = handle_step(
        HandlePhase::CheckingLimit,
        HandleEvent::LimitChecked { under: false, now_secs: 110 },
        &mut cache,
    );
    assert_eq!(action, HandleAction::ProxyErrorPage);
}

#[test]
fn zero_ttl_keeps_no_page() {
    let mut cache = ErrorPageCache::new(Some(0));
    let (_, action) = handle_step(
        HandlePhase::FetchingErrorPage,
        HandleEvent::ErrorPageDone { ok: true, now_secs: 5 },
        &mut cache,
    );
    assert_eq!(action, reply(false, false, ResponsePlan::TooManyRequests));
    assert_eq!(cache.fetched_at, None);
    assert!(!cache.is_fresh(5));
}

#[test]
fn cache_freshness() {
    let cache = ErrorPageCache { fetched_at: Some(u64::MAX - 1), ttl: Some(u32::MAX) };
    assert!(cache.is_fresh(u64::MAX));
    let cache = ErrorPageCache { fetched_at: Some(50), ttl: Some(5) };
    assert!(cache.is_fresh(54));
    assert!(!cache.is_fresh(55));
    assert!(ErrorPageCache { fetched_at: None, ttl: Some(5) }.is_fresh(50) == false);
}

#[test]
fn response_statuses_and_bodies() {
    assert_eq!(ResponsePlan::Upstream.status(), None);
    assert_eq!(ResponsePlan::TooManyRequests.status(), Some(429));
    assert_eq!(ResponsePlan::CachedErrorPage.status(), Some(429));
    assert_eq!(ResponsePlan::InternalServerError.status(), Some(500));
    assert_eq!(ResponsePlan::InternalServerError.fixed_body(), Some("Internal Server Error"));
    assert_eq!(ResponsePlan::TooManyRequests.fixed_body(), None);
    assert_eq!(ResponsePlan::CachedErrorPage.fixed_body(), None);
    assert_eq!(ResponsePlan::Upstream.fixed_body(), None);
}
