//! Jars: a rate-limiting reverse proxy.
//!
//! Requests are counted per path in a shared counter store and admitted while
//! the moving average over the last minute stays under the limit; admitted
//! requests are forwarded upstream with `X-Forwarded-For` set, refused ones get
//! the configured error page with status 429. This crate holds those decisions,
//! verified; the server, the store client and the settings loader drive them.
pub mod config;
pub mod decimal;
pub mod forwarding;
pub mod handling;
pub mod ratelimit;
pub mod settings;
pub mod store;

use vstd::prelude::*;

verus! {

/// Forwards incoming requests, rate limited through the store it holds.
pub struct RequestForwarder<T> {
    rate_limiter: T,
}

impl<T> RequestForwarder<T> {
    /// The rate-limit store the forwarder counts requests in.
    pub closed spec fn limiter(&self) -> T {
        self.rate_limiter
    }

    /// A forwarder that counts requests in `rate_limiter`.
    pub fn create(rate_limiter: T) -> (forwarder: Self)
        ensures
            forwarder.limiter() == rate_limiter,
    {
        Self { rate_limiter }
    }

    /// The store this forwarder counts requests in; each connection works on a copy of it.
    pub fn rate_limiter(&self) -> (store: &T)
        ensures
            *store == self.limiter(),
    {
        &self.rate_limiter
    }
}

} // verus!
