//! What holds of the retry loop and of the delays it waits, over every input.
use crate::classify::is_retry_code;
use crate::header::{at_least_one, decimal_u64, header_delay};
use crate::middleware::{resolved_delay, should_resend, RetryAttempt};
use crate::policy::policy_delay;
use vstd::prelude::*;

verus! {

/// How many sends one request makes when the server answers `answers[k]` to
/// send `k`, with `retries` resends already made of at most `max_retries`:
/// each response that `RetryAttempt::on_status` answers with a resend is
/// followed by one more send.
pub open spec fn send_count(max_retries: u32, retries: u32, answers: Seq<u16>) -> nat
    decreases answers.len(),
{
    if answers.len() == 0 {
        0
    } else if should_resend(max_retries, retries, answers[0]) {
        1 + send_count(max_retries, (retries + 1) as u32, answers.drop_first())
    } else {
        1
    }
}

/// The status of the response that the loop hands back: that of its last send.
pub open spec fn returned_status(max_retries: u32, answers: Seq<u16>) -> u16 {
    answers[send_count(max_retries, 0, answers) - 1]
}

proof fn lemma_send_count_bound(max_retries: u32, retries: u32, answers: Seq<u16>)
    requires
        retries <= max_retries,
    ensures
        send_count(max_retries, retries, answers) <= max_retries - retries + 1,
    decreases answers.len(),
{
    if answers.len() > 0 && should_resend(max_retries, retries, answers[0]) {
        lemma_send_count_bound(max_retries, (retries + 1) as u32, answers.drop_first());
    }
}

/// With a ceiling of `max_retries` resends, a request is sent at most
/// `max_retries + 1` times, whatever the server answers.
pub proof fn lemma_bounded_attempts(max_retries: u32, answers: Seq<u16>)
    ensures
        send_count(max_retries, 0, answers) <= max_retries + 1,
{
    lemma_send_count_bound(max_retries, 0, answers);
}

/// With no resends allowed, a request is sent exactly once, whatever the
/// status of its response.
pub proof fn lemma_zero_retries(answers: Seq<u16>)
    requires
        answers.len() > 0,
    ensures
        send_count(0, 0, answers) == 1,
        returned_status(0, answers) == answers[0],
{
}

/// A first response whose status is not retryable ends the loop: one send, and
/// that response is handed back.
pub proof fn lemma_non_retryable_first(max_retries: u32, answers: Seq<u16>)
    requires
        answers.len() > 0,
        !is_retry_code(answers[0]),
    ensures
        send_count(max_retries, 0, answers) == 1,
        returned_status(max_retries, answers) == answers[0],
{
}

proof fn lemma_run_prefix_request<R>(states: Seq<RetryAttempt<R>>, statuses: Seq<u16>, k: int)
    requires
        states.len() == statuses.len() + 1,
        forall|j: int| 0 <= j < statuses.len() ==> #[trigger] states[j].is_step(&states[j + 1], statuses[j]),
        0 <= k < states.len(),
    ensures
        states[k].spec_request() == states[0].spec_request(),
    decreases k,
{
    if k > 0 {
        let j = k - 1;
        lemma_run_prefix_request(states, statuses, j);
        assert(states[j].is_step(&states[j + 1], statuses[j]));
    }
}

/// Every send repeats the request as it came in: along a run of the loop, in
/// which each state is what `RetryAttempt::on_status` makes of the one before,
/// every state holds the request of the first, unchanged.
pub proof fn lemma_resend_repeats_request<R>(states: Seq<RetryAttempt<R>>, statuses: Seq<u16>)
    requires
        states.len() == statuses.len() + 1,
        forall|j: int| 0 <= j < statuses.len() ==> #[trigger] states[j].is_step(&states[j + 1], statuses[j]),
    ensures
        forall|k: int| 0 <= k < states.len() ==> #[trigger] states[k].spec_request() == states[0].spec_request(),
{
    assert forall|k: int| 0 <= k < states.len() implies #[trigger] states[k].spec_request()
        == states[0].spec_request() by {
        lemma_run_prefix_request(states, statuses, k);
    }
}

/// A `Retry-After` number of at least one second is the wait, exactly, whatever
/// the value reads as a date, whatever the time, and whatever the policy
/// answers.
pub proof fn lemma_header_precedence(
    value: Seq<char>,
    date_secs: Option<u64>,
    now_ms: int,
    execute_after_ms: Option<i64>,
    policy_now_ms: int,
    fallback: u64,
)
    requires
        decimal_u64(value) is Some,
        decimal_u64(value)->0 >= 1,
    ensures
        resolved_delay(header_delay(value, date_secs, now_ms), execute_after_ms, policy_now_ms, fallback)
            == decimal_u64(value)->0,
{
}

/// A `Retry-After` of zero seconds is raised to a wait of one second.
pub proof fn lemma_header_zero_clamped(
    value: Seq<char>,
    date_secs: Option<u64>,
    now_ms: int,
    execute_after_ms: Option<i64>,
    policy_now_ms: int,
    fallback: u64,
)
    requires
        decimal_u64(value) == Some(0u64),
    ensures
        resolved_delay(header_delay(value, date_secs, now_ms), execute_after_ms, policy_now_ms, fallback)
            == 1,
{
}

/// Every wait is at least one second, never zero: the header's delay, the
/// policy's and the positive fallback interval alike.
pub proof fn lemma_delay_positive(
    value: Seq<char>,
    date_secs: Option<u64>,
    now_ms: int,
    execute_after_ms: Option<i64>,
    policy_now_ms: int,
    fallback: u64,
)
    requires
        fallback >= 1,
    ensures
        resolved_delay(header_delay(value, date_secs, now_ms), execute_after_ms, policy_now_ms, fallback)
            >= 1,
{
}

/// A `Retry-After` value that is neither a number nor a date, or a date already
/// past, leaves the wait to the policy: the delay is what the policy's answer
/// gives, or the fallback interval where it declines.
pub proof fn lemma_unusable_header_falls_back(
    value: Seq<char>,
    date_secs: Option<u64>,
    now_ms: int,
    execute_after_ms: Option<i64>,
    policy_now_ms: int,
    fallback: u64,
)
    requires
        decimal_u64(value) is None,
        date_secs is None || date_secs->0 * 1000 < now_ms,
    ensures
        resolved_delay(header_delay(value, date_secs, now_ms), execute_after_ms, policy_now_ms, fallback)
            == policy_delay(execute_after_ms, policy_now_ms, fallback),
        execute_after_ms is None ==> resolved_delay(
            header_delay(value, date_secs, now_ms),
            execute_after_ms,
            policy_now_ms,
            fallback,
        ) == fallback,
{
}

} // verus!
