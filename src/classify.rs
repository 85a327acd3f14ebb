//! Which response statuses warrant a resend.
use vstd::prelude::*;

verus! {

/// `429 Too Many Requests`.
pub const TOO_MANY_REQUESTS: u16 = 429;

/// `408 Request Timeout`.
pub const REQUEST_TIMEOUT: u16 = 408;

/// The closed set of retryable statuses.
pub open spec fn is_retry_code(status: u16) -> bool {
    status == TOO_MANY_REQUESTS || status == REQUEST_TIMEOUT
}

/// True exactly when a response with this status may be sent again.
pub fn is_retryable(status: u16) -> (r: bool)
    ensures
        r == is_retry_code(status),
{
    status == TOO_MANY_REQUESTS || status == REQUEST_TIMEOUT
}

} // verus!
