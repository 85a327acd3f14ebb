//! The backoff policy: when the client itself would resend, as a whole number
//! of seconds from now.
use retry_policies::policies::ExponentialBackoff;
use retry_policies::RetryPolicy;
use vstd::prelude::*;

verus! {

/// The longest interval, in milliseconds, that a `Backoff` may hold: about
/// thirty years. Up to it, the exponential backoff's arithmetic cannot
/// overflow (at most three times the shortest interval times `u32::MAX`), and
/// the instant it answers stays within the dates that `chrono` represents.
pub const MAX_BACKOFF_INTERVAL_MS: u64 = 1_000_000_000_000;

/// Settings of an exponential backoff with jitter, as plain values: the wait
/// before retry `n` is drawn from up to three times the shortest interval
/// times `backoff_exponent` to the power `n`, at most the longest interval,
/// and the policy declines once `max_n_retries` retries have been made.
#[derive(Debug, Clone, Copy, PartialEq, Eq, Structural)]
pub struct Backoff {
    pub max_n_retries: u32,
    pub min_retry_interval_ms: u64,
    pub max_retry_interval_ms: u64,
    pub backoff_exponent: u32,
}

impl Backoff {
    /// Both intervals lie within `MAX_BACKOFF_INTERVAL_MS`.
    pub open spec fn in_range(&self) -> bool {
        &&& self.min_retry_interval_ms <= MAX_BACKOFF_INTERVAL_MS
        &&& self.max_retry_interval_ms <= MAX_BACKOFF_INTERVAL_MS
    }
}

/// The wait that a policy's answer gives, in whole seconds: the time from
/// `now_ms` to the instant `execute_after_ms` (milliseconds since the epoch),
/// at least one second, when the policy answered "retry after that instant"
/// and the instant is not past; the fallback interval otherwise, also when the
/// policy declined to retry.
pub open spec fn policy_delay(execute_after_ms: Option<i64>, now_ms: int, fallback: u64) -> u64 {
    match execute_after_ms {
        Some(t) => if t >= now_ms {
            let secs = ((t - now_ms) / 1000) as u64;
            if secs < 1 {
                1
            } else {
                secs
            }
        } else {
            fallback
        },
        None => fallback,
    }
}

/// Computes `policy_delay`.
pub fn policy_delay_at(execute_after_ms: Option<i64>, now_ms: i64, fallback: u64) -> (r: u64)
    ensures
        r == policy_delay(execute_after_ms, now_ms as int, fallback),
{
    match execute_after_ms {
        Some(t) => if t >= now_ms {
            let secs = ((t as i128 - now_ms as i128) / 1000) as u64;
            if secs < 1 {
                1
            } else {
                secs
            }
        } else {
            fallback
        },
        None => fallback,
    }
}

/// Relies on `ExponentialBackoff::builder().build_with_max_retries`: the
/// builder's defaults are one second to thirty minutes with exponent three,
/// and the policy allows `max_n_retries` retries.
#[verifier::external_body]
pub(crate) fn default_backoff(max_n_retries: u32) -> (r: Backoff)
    ensures
        r == (Backoff {
            max_n_retries,
            min_retry_interval_ms: 1000,
            max_retry_interval_ms: 1_800_000,
            backoff_exponent: 3,
        }),
{
    let p = ExponentialBackoff::builder().build_with_max_retries(max_n_retries);
    Backoff {
        max_n_retries: p.max_n_retries,
        min_retry_interval_ms: p.min_retry_interval.as_millis() as u64,
        max_retry_interval_ms: p.max_retry_interval.as_millis() as u64,
        backoff_exponent: p.backoff_exponent,
    }
}

/// Relies on `RetryPolicy::should_retry` of `ExponentialBackoff` with these
/// settings: it declines exactly when `n_past_retries` has reached
/// `max_n_retries`; otherwise it answers the instant (milliseconds since the
/// epoch) after which to retry, drawn with random jitter from the current time,
/// of which nothing more is promised. Within the range the arithmetic on the
/// intervals and the date cannot overflow, so the call does not panic.
#[verifier::external_body]
pub(crate) fn should_retry_at(b: &Backoff, n_past_retries: u32) -> (r: Option<i64>)
    requires
        b.in_range(),
    ensures
        r is None <==> n_past_retries >= b.max_n_retries,
{
    let policy = ExponentialBackoff {
        max_n_retries: b.max_n_retries,
        min_retry_interval: std::time::Duration::from_millis(b.min_retry_interval_ms),
        max_retry_interval: std::time::Duration::from_millis(b.max_retry_interval_ms),
        backoff_exponent: b.backoff_exponent,
    };
    match policy.should_retry(n_past_retries) {
        retry_policies::RetryDecision::Retry { execute_after } => Some(execute_after.timestamp_millis()),
        retry_policies::RetryDecision::DoNotRetry => None,
    }
}

} // verus!
