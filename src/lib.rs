//! Request-retry policy engine for an HTTP client middleware: which responses
//! are retried, how long to wait before each resend, and how many resends are
//! made at most.
mod classify;
mod clock;
mod header;
mod laws;
mod middleware;
mod policy;

pub use classify::{is_retryable, REQUEST_TIMEOUT, TOO_MANY_REQUESTS};
pub use laws::{
    lemma_bounded_attempts, lemma_delay_positive, lemma_header_precedence, lemma_header_zero_clamped,
    lemma_non_retryable_first, lemma_resend_repeats_request, lemma_unusable_header_falls_back,
    lemma_zero_retries,
};
pub use header::{header_delay_at, parse_seconds, retry_to_seconds, LAST_HTTP_DATE_SECS};
pub use middleware::{RetryAttempt, RetryDecision, RetryMiddleware};
pub use policy::{policy_delay_at, Backoff, MAX_BACKOFF_INTERVAL_MS};
pub use retry_policies::{policies::ExponentialBackoff, RetryPolicy};
