//! Sliding-window rate limiting: the counter keys and the admission decision.
//!
//! Two counters are kept per resource path, one for the current minute and one
//! for the previous minute. A request is admitted while the moving average over
//! the last sixty seconds stays under the limit.
use vstd::prelude::*;
use std::time::{Duration, SystemTime, SystemTimeError};
use crate::decimal::{decimal, lemma_decimal_injective, push_decimal};

verus! {

/// Requests allowed per path and minute.
pub const REQUEST_LIMIT_PER_MINUTE: u32 = 100;

/// Length of one counting window in seconds.
pub const WINDOW_SECONDS: u64 = 60;

/// Expiry given to a counter on every increment: two windows and some slack for clock skew.
pub const COUNTER_EXPIRY_SECONDS: usize = 130;

#[verifier::external_type_specification]
#[verifier::external_body]
pub struct ExSystemTime(SystemTime);

#[verifier::external_type_specification]
#[verifier::external_body]
pub struct ExSystemTimeError(SystemTimeError);

/// The key under which requests to `path` during `minute` are counted: `path:minute`.
pub open spec fn counter_key_spec(path: Seq<char>, minute: nat) -> Seq<char> {
    path.push(':') + decimal(minute)
}

/// The counter key of `path` for `minute` (minutes since the Unix epoch).
pub fn counter_key(path: &str, minute: u64) -> (key: String)
    ensures
        key@ == counter_key_spec(path@, minute as nat),
{
    let mut key = path.to_owned();
    proof {
        reveal_strlit(":");
    }
    key.append(":");
    push_decimal(&mut key, minute);
    assert(key@ =~= counter_key_spec(path@, minute as nat));
    key
}

/// What a rate-limit check reads: the two counters of the window ending at `now_secs`.
pub struct WindowQuery {
    /// Seconds since the Unix epoch at which the window was taken.
    pub now_secs: u64,
    /// Counter of the minute before the current one.
    pub previous_key: String,
    /// Counter of the current minute.
    pub current_key: String,
}

/// The keys of the two minutes that the window ending at `now_secs` covers.
pub open spec fn window_keys_match(q: WindowQuery, path: Seq<char>, now_secs: u64) -> bool {
    &&& q.now_secs == now_secs
    &&& q.previous_key@ == counter_key_spec(path, (now_secs / WINDOW_SECONDS - 1) as nat)
    &&& q.current_key@ == counter_key_spec(path, (now_secs / WINDOW_SECONDS) as nat)
}

/// The counters to read for `path` at `now_secs`. The first minute after the
/// epoch has no previous minute, so `now_secs` must be at least one window.
pub fn window_query_at(path: &str, now_secs: u64) -> (q: WindowQuery)
    requires
        now_secs >= WINDOW_SECONDS,
    ensures
        window_keys_match(q, path@, now_secs),
{
    let minute: u64 = now_secs / WINDOW_SECONDS;
    WindowQuery {
        now_secs,
        previous_key: counter_key(path, minute - 1),
        current_key: counter_key(path, minute),
    }
}

/// The key that a request to `path` at `now_secs` is counted under.
pub fn increment_key_at(path: &str, now_secs: u64) -> (key: String)
    ensures
        key@ == counter_key_spec(path@, (now_secs / WINDOW_SECONDS) as nat),
{
    counter_key(path, now_secs / WINDOW_SECONDS)
}

/// The moving average over the last sixty seconds, rounded up: the previous
/// minute weighs by the share of it still inside the window.
pub open spec fn moving_average_ceil(previous: nat, current: nat, second: nat) -> nat {
    (((60 - second) * previous + 60 * current + 59) / 60) as nat
}

/// A missing counter counts as zero.
pub open spec fn count_or_zero(c: Option<u32>) -> nat {
    match c {
        Some(n) => n as nat,
        None => 0,
    }
}

/// Whether a request is admitted, given the two counters read at `now_secs`.
pub open spec fn under_limit_spec(
    previous: Option<u32>,
    current: Option<u32>,
    now_secs: u64,
    limit: u32,
) -> bool {
    let p: nat = count_or_zero(previous);
    let c: nat = count_or_zero(current);
    let s: nat = (now_secs % WINDOW_SECONDS) as nat;
    c < limit && moving_average_ceil(p, c, s) < limit
}

/// Decides whether the moving average of requests is under `limit`.
/// The current minute alone at or over the limit refuses at once.
pub fn under_limit_decision(
    previous: Option<u32>,
    current: Option<u32>,
    now_secs: u64,
    limit: u32,
) -> (under: bool)
    ensures
        under == under_limit_spec(previous, current, now_secs, limit),
{
    let p: u64 = match previous {
        Some(n) => n as u64,
        None => 0,
    };
    let c: u64 = match current {
        Some(n) => n as u64,
        None => 0,
    };
    if c >= limit as u64 {
        return false;
    }
    let second: u64 = now_secs % WINDOW_SECONDS;
    let weight: u64 = WINDOW_SECONDS - second;
    assert(weight * p <= 60 * 0xffff_ffff) by (nonlinear_arith)
        requires
            weight <= 60,
            p <= 0xffff_ffff,
    ;
    let weighted: u64 = weight * p;
    let mavg: u64 = (weighted + 60 * c + 59) / 60;
    mavg < limit as u64
}

/// `SystemTime::now`: the reading of the system clock. Nothing is stated of it:
/// it depends on the moment of the call.
#[verifier::external_body]
fn system_time_now() -> SystemTime {
    SystemTime::now()
}

/// `SystemTime::duration_since(UNIX_EPOCH)`: the time elapsed since the epoch, or
/// an error for a reading before it. Nothing is stated: the reading is opaque here.
#[verifier::external_body]
fn elapsed_since_epoch(t: SystemTime) -> Result<Duration, SystemTimeError> {
    t.duration_since(SystemTime::UNIX_EPOCH)
}

/// `Duration::as_secs`: the whole seconds of a duration. Nothing is stated: the
/// duration comes from the clock and is opaque here.
#[verifier::external_body]
fn whole_seconds(d: Duration) -> u64 {
    d.as_secs()
}

/// Why the clock gave no usable time.
pub enum RateLimitError {
    /// The system clock reads a time before the Unix epoch.
    ClockBeforeEpoch(SystemTimeError),
    /// The system clock reads a time in the first minute after the epoch,
    /// which has no previous minute.
    ClockInFirstMinute,
}

/// Seconds since the Unix epoch by the system clock.
fn clock_seconds() -> Result<u64, SystemTimeError> {
    match elapsed_since_epoch(system_time_now()) {
        Ok(d) => Ok(whole_seconds(d)),
        Err(e) => Err(e),
    }
}

/// The window for `path` given what the clock read: the clock error when it
/// read a time before the epoch, `ClockInFirstMinute` when it read a time in
/// the first minute, the window ending at that time otherwise.
pub fn window_for_clock(path: &str, clock: Result<u64, SystemTimeError>) -> (res: Result<
    WindowQuery,
    RateLimitError,
>)
    ensures
        match clock {
            Err(e) => res == Err::<WindowQuery, RateLimitError>(RateLimitError::ClockBeforeEpoch(e)),
            Ok(now) => if now < WINDOW_SECONDS {
                res is Err && res->Err_0 is ClockInFirstMinute
            } else {
                res matches Ok(q) && window_keys_match(q, path@, now)
            },
        },
{
    match clock {
        Ok(now) => {
            if now < WINDOW_SECONDS {
                Err(RateLimitError::ClockInFirstMinute)
            } else {
                Ok(window_query_at(path, now))
            }
        },
        Err(e) => Err(RateLimitError::ClockBeforeEpoch(e)),
    }
}

/// The counters to read for `path` now. The time comes from the system clock,
/// so the keys are stated for the time the result carries.
pub fn current_window(path: &str) -> (res: Result<WindowQuery, RateLimitError>)
    ensures
        res matches Ok(q) ==> q.now_secs >= WINDOW_SECONDS && window_keys_match(q, path@, q.now_secs),
{
    window_for_clock(path, clock_seconds())
}

/// The key a request to `path` is counted under given what the clock read,
/// with the time used.
pub fn increment_key_for_clock(path: &str, clock: Result<u64, SystemTimeError>) -> (res: Result<
    (u64, String),
    SystemTimeError,
>)
    ensures
        match clock {
            Err(e) => res == Err::<(u64, String), SystemTimeError>(e),
            Ok(now) => res matches Ok((t, key)) && t == now && key@ == counter_key_spec(
                path@,
                (now / WINDOW_SECONDS) as nat,
            ),
        },
{
    match clock {
        Ok(now) => Ok((now, increment_key_at(path, now))),
        Err(e) => Err(e),
    }
}

/// The key that a request to `path` made now is counted under, with the time used.
pub fn current_increment_key(path: &str) -> (res: Result<(u64, String), SystemTimeError>)
    ensures
        res matches Ok((now, key)) ==> key@ == counter_key_spec(path@, (now / WINDOW_SECONDS) as nat),
{
    increment_key_for_clock(path, clock_seconds())
}

/// A current minute at or over the limit is refused, whatever the previous minute holds.
pub proof fn law_full_current_minute_refuses(
    previous: Option<u32>,
    current: Option<u32>,
    now_secs: u64,
    limit: u32,
)
    requires
        count_or_zero(current) >= limit,
    ensures
        !under_limit_spec(previous, current, now_secs, limit),
{
}

/// More traffic never turns a refusal into an admission: if a request is
/// admitted with larger counters, it is admitted with smaller ones too.
pub proof fn law_less_traffic_still_admitted(
    previous_small: Option<u32>,
    current_small: Option<u32>,
    previous_large: Option<u32>,
    current_large: Option<u32>,
    now_secs: u64,
    limit: u32,
)
    requires
        count_or_zero(previous_small) <= count_or_zero(previous_large),
        count_or_zero(current_small) <= count_or_zero(current_large),
        under_limit_spec(previous_large, current_large, now_secs, limit),
    ensures
        under_limit_spec(previous_small, current_small, now_secs, limit),
{
    let ps: nat = count_or_zero(previous_small);
    let pl: nat = count_or_zero(previous_large);
    let w: nat = (60 - (now_secs % WINDOW_SECONDS) as nat) as nat;
    assert(w * ps <= w * pl) by (nonlinear_arith)
        requires
            ps <= pl,
            0 <= w,
    ;
    let a: nat = w * ps + 60 * count_or_zero(current_small) + 59;
    let b: nat = w * pl + 60 * count_or_zero(current_large) + 59;
    assert(a / 60 <= b / 60) by (nonlinear_arith)
        requires
            0 <= a <= b,
    ;
}

/// Within one minute, the previous minute weighs less as time passes: a request
/// admitted earlier in the minute would be admitted later in it with the same counters.
pub proof fn law_admission_persists_within_minute(
    previous: Option<u32>,
    current: Option<u32>,
    earlier: u64,
    later: u64,
    limit: u32,
)
    requires
        earlier <= later,
        earlier / WINDOW_SECONDS == later / WINDOW_SECONDS,
        under_limit_spec(previous, current, earlier, limit),
    ensures
        under_limit_spec(previous, current, later, limit),
{
    let p: nat = count_or_zero(previous);
    let c: nat = count_or_zero(current);
    let se: nat = (earlier % WINDOW_SECONDS) as nat;
    let sl: nat = (later % WINDOW_SECONDS) as nat;
    assert(se <= sl);
    let we: nat = (60 - se) as nat;
    let wl: nat = (60 - sl) as nat;
    assert(wl * p <= we * p) by (nonlinear_arith)
        requires
            0 <= wl <= we,
            0 <= p,
    ;
    let a: nat = wl * p + 60 * c + 59;
    let b: nat = we * p + 60 * c + 59;
    assert(a / 60 <= b / 60) by (nonlinear_arith)
        requires
            0 <= a <= b,
    ;
}

/// With no traffic in the previous minute, a request is admitted exactly while
/// the current minute is under the limit.
pub proof fn law_quiet_previous_minute(current: Option<u32>, now_secs: u64, limit: u32)
    ensures
        under_limit_spec(None, current, now_secs, limit) <==> count_or_zero(current) < limit,
        under_limit_spec(Some(0), current, now_secs, limit) <==> count_or_zero(current) < limit,
{
    let c: nat = count_or_zero(current);
    let s: nat = (now_secs % WINDOW_SECONDS) as nat;
    assert((60 - s) * 0 == 0) by (nonlinear_arith);
    assert((60 * c + 59) / 60 == c) by (nonlinear_arith);
}

/// At the first second of a minute the previous minute counts in full: a request
/// is admitted exactly while the two counters together are under the limit.
pub proof fn law_minute_boundary_counts_both(
    previous: Option<u32>,
    current: Option<u32>,
    now_secs: u64,
    limit: u32,
)
    requires
        now_secs % WINDOW_SECONDS == 0,
    ensures
        under_limit_spec(previous, current, now_secs, limit) <==> count_or_zero(previous)
            + count_or_zero(current) < limit,
{
    let p: nat = count_or_zero(previous);
    let c: nat = count_or_zero(current);
    assert((60 * p + 60 * c + 59) / 60 == p + c) by (nonlinear_arith);
}

/// A request is counted under the key that a check made at the same time reads as
/// the current minute, and a minute later reads as the previous minute; the two
/// keys of one window are distinct.
pub proof fn law_counted_key_is_read_back(path: Seq<char>, now_secs: u64)
    requires
        now_secs >= WINDOW_SECONDS,
        now_secs + WINDOW_SECONDS <= u64::MAX,
    ensures
        counter_key_spec(path, (now_secs / WINDOW_SECONDS) as nat) == counter_key_spec(
            path,
            (((now_secs + WINDOW_SECONDS) as u64) / WINDOW_SECONDS - 1) as nat,
        ),
        counter_key_spec(path, (now_secs / WINDOW_SECONDS) as nat) != counter_key_spec(
            path,
            (now_secs / WINDOW_SECONDS - 1) as nat,
        ),
{
    let m: nat = (now_secs / WINDOW_SECONDS) as nat;
    let prev: nat = (m - 1) as nat;
    assert(((now_secs + WINDOW_SECONDS) as u64) / WINDOW_SECONDS == m + 1);
    if counter_key_spec(path, m) == counter_key_spec(path, prev) {
        let k1 = counter_key_spec(path, m);
        let k2 = counter_key_spec(path, prev);
        assert(decimal(m) =~= k1.subrange(path.len() + 1int, k1.len() as int));
        assert(decimal(prev) =~= k2.subrange(path.len() + 1int, k2.len() as int));
        lemma_decimal_injective(m, prev);
    }
}


/// A counter outlives the window that reads it: written at any second of its
/// minute, with its expiry refreshed then, it still exists through the whole
/// following minute, where it is read as the previous minute.
pub proof fn law_counter_outlives_window(written_at: nat)
    ensures
        written_at + COUNTER_EXPIRY_SECONDS >= (written_at / 60 + 2) * 60,
{
}

/// Reading after incrementing, within one minute: the key a request is counted
/// under at `incremented_at` is the current-minute key a check at `checked_at`
/// reads, so the check sees the current count raised by one; raised to the limit,
/// it refuses, and raising it never turns a refusal into an admission.
pub proof fn law_read_after_increment(
    path: Seq<char>,
    incremented_at: u64,
    checked_at: u64,
    previous: Option<u32>,
    current: u32,
    limit: u32,
)
    requires
        incremented_at / WINDOW_SECONDS == checked_at / WINDOW_SECONDS,
        checked_at >= WINDOW_SECONDS,
        current < u32::MAX,
    ensures
        counter_key_spec(path, (incremented_at / WINDOW_SECONDS) as nat) == counter_key_spec(
            path,
            (checked_at / WINDOW_SECONDS) as nat,
        ),
        current + 1 >= limit ==> !under_limit_spec(
            previous,
            Some((current + 1) as u32),
            checked_at,
            limit,
        ),
        under_limit_spec(previous, Some((current + 1) as u32), checked_at, limit)
            ==> under_limit_spec(previous, Some(current), checked_at, limit),
{
    if under_limit_spec(previous, Some((current + 1) as u32), checked_at, limit) {
        law_less_traffic_still_admitted(
            previous,
            Some(current),
            previous,
            Some((current + 1) as u32),
            checked_at,
            limit,
        );
    }
}

/// The admission rule written out: at second `s` of the minute the previous
/// minute weighs `(60 - s)/60`, and a request is admitted exactly when the
/// current minute is under the limit and the weighted sum, rounded up, is too.
/// A missing counter counts as zero.
pub proof fn law_admission_rule(
    previous: Option<u32>,
    current: Option<u32>,
    now_secs: u64,
    limit: u32,
)
    ensures
        ({
            let p: int = match previous {
                Some(n) => n as int,
                None => 0,
            };
            let c: int = match current {
                Some(n) => n as int,
                None => 0,
            };
            let s: int = now_secs as int % 60;
            under_limit_spec(previous, current, now_secs, limit) <==> (c < limit as int && ((60
                - s) * p + 60 * c + 59) / 60 < limit as int)
        }),
{
}

} // verus!
