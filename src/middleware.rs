//! The retry middleware's configuration, the delay it resolves before each
//! resend, and the state of one request's way through the retry loop.
use crate::classify::{is_retry_code, is_retryable};
use crate::clock::now_millis;
use crate::header::{at_least_one, decimal_u64, header_delay, http_date_secs, retry_to_seconds};
use crate::policy::{default_backoff, policy_delay, policy_delay_at, should_retry_at, Backoff};
use vstd::prelude::*;

verus! {

/// The wait before a resend: the header's delay when the header was usable,
/// else what the policy's answer gives.
pub open spec fn resolved_delay(
    header_secs: Option<u64>,
    execute_after_ms: Option<i64>,
    now_ms: int,
    fallback: u64,
) -> u64 {
    match header_secs {
        Some(s) => s,
        None => policy_delay(execute_after_ms, now_ms, fallback),
    }
}

/// Whether a response with `status` is followed by another send, once
/// `retries` resends have been made of at most `max_retries`.
pub open spec fn should_resend(max_retries: u32, retries: u32, status: u16) -> bool {
    is_retry_code(status) && retries < max_retries
}

/// Settings of the retry middleware, fixed at construction.
///
/// `max_retries` bounds the number of resends after the first send. Where a
/// retryable response carries no usable `Retry-After` header, the backoff
/// `policy` is asked; where neither gives a wait, `fallback_interval` seconds
/// are used. That fallback also applies where the policy declines to retry: a
/// retryable status always wins over the policy's opinion, and the attempt
/// ceiling alone ends the loop.
#[derive(Debug)]
pub struct RetryMiddleware<T> {
    max_retries: u32,
    policy: T,
    fallback_interval: u64,
}

impl<T> RetryMiddleware<T> {
    #[verifier::type_invariant]
    spec fn positive_fallback(self) -> bool {
        self.fallback_interval >= 1
    }

    pub closed spec fn spec_max_retries(&self) -> u32 {
        self.max_retries
    }

    pub closed spec fn spec_policy(&self) -> T {
        self.policy
    }

    pub closed spec fn spec_fallback_interval(&self) -> u64 {
        self.fallback_interval
    }

    /// Construct the retry middleware with provided options.
    pub fn new(max_retries: u32, policy: T, fallback_interval: u64) -> (r: Self)
        requires
            fallback_interval >= 1,
        ensures
            r.spec_max_retries() == max_retries,
            r.spec_policy() == policy,
            r.spec_fallback_interval() == fallback_interval,
    {
        RetryMiddleware { max_retries, policy, fallback_interval }
    }

    pub fn max_retries(&self) -> (r: u32)
        ensures
            r == self.spec_max_retries(),
    {
        self.max_retries
    }

    pub fn policy(&self) -> (r: &T)
        ensures
            *r == self.spec_policy(),
    {
        &self.policy
    }

    pub fn fallback_interval(&self) -> (r: u64)
        ensures
            r == self.spec_fallback_interval(),
            r >= 1,
    {
        proof {
            use_type_invariant(self);
        }
        self.fallback_interval
    }

    /// The wait, in whole seconds, that the policy's answer gives: see
    /// `policy_delay`. Never less than one second.
    pub fn policy_delay(&self, execute_after_ms: Option<i64>, now_ms: i64) -> (r: u64)
        ensures
            r == policy_delay(execute_after_ms, now_ms as int, self.spec_fallback_interval()),
            r >= 1,
    {
        proof {
            use_type_invariant(self);
        }
        policy_delay_at(execute_after_ms, now_ms, self.fallback_interval)
    }

    /// The wait before a resend, from the header's delay (as
    /// `retry_to_seconds` gives it), the policy's answer and the current time:
    /// a usable header wins, whatever the policy says.
    pub fn pick_delay(&self, header_secs: Option<u64>, execute_after_ms: Option<i64>, now_ms: i64) -> (r: u64)
        ensures
            r == resolved_delay(header_secs, execute_after_ms, now_ms as int, self.spec_fallback_interval()),
    {
        match header_secs {
            Some(s) => s,
            None => self.policy_delay(execute_after_ms, now_ms),
        }
    }

    /// Begins the retry loop of one request: no resend made yet.
    pub fn start<R>(&self, request: R) -> (r: RetryAttempt<R>)
        ensures
            r.spec_request() == request,
            r.spec_retries() == 0,
            r.spec_max_retries() == self.spec_max_retries(),
    {
        RetryAttempt { request, retries: 0, max_retries: self.max_retries }
    }
}

impl Default for RetryMiddleware<Backoff> {
    /// Three retries, an exponential backoff with the default settings of
    /// `retry_policies` that allows three, and a fallback of one second.
    fn default() -> (r: Self)
        ensures
            r.spec_max_retries() == 3,
            r.spec_fallback_interval() == 1,
            r.spec_policy() == (Backoff {
                max_n_retries: 3,
                min_retry_interval_ms: 1000,
                max_retry_interval_ms: 1_800_000,
                backoff_exponent: 3,
            }),
    {
        RetryMiddleware::new(3, default_backoff(3), 1)
    }
}

impl RetryMiddleware<Backoff> {
    /// Asks the policy when to make retry number `retry_count` and turns the
    /// answer into whole seconds from now, or the fallback interval where the
    /// policy declines, which it does once `max_n_retries` is reached.
    pub fn use_policy(&self, retry_count: u32) -> (r: u64)
        requires
            self.spec_policy().in_range(),
        ensures
            exists|t: Option<i64>, now_ms: i64|
                (t is None <==> retry_count >= self.spec_policy().max_n_retries) && r == policy_delay(
                    t,
                    now_ms as int,
                    self.spec_fallback_interval(),
                ),
            retry_count >= self.spec_policy().max_n_retries ==> r == self.spec_fallback_interval(),
            r >= 1,
    {
        let t = should_retry_at(&self.policy, retry_count);
        let now = now_millis();
        let r = self.policy_delay(t, now);
        assert((t is None <==> retry_count >= self.spec_policy().max_n_retries) && r == policy_delay(
            t,
            now as int,
            self.spec_fallback_interval(),
        ));
        r
    }

    /// The wait before resend number `attempt`: the `Retry-After` value's delay
    /// when it is a number or a date still to come, else the policy's.
    pub fn resolve_delay(&self, retry_after: Option<&str>, attempt: u32) -> (r: u64)
        requires
            self.spec_policy().in_range(),
        ensures
            r >= 1,
            retry_after is Some ==> exists|now_ms: i64, t: Option<i64>, policy_now_ms: i64|
                r == resolved_delay(
                    header_delay(retry_after->0@, http_date_secs(retry_after->0@), now_ms as int),
                    t,
                    policy_now_ms as int,
                    self.spec_fallback_interval(),
                ) && (t is None <==> attempt >= self.spec_policy().max_n_retries),
            retry_after is Some && decimal_u64(retry_after->0@) is Some ==> r == at_least_one(
                decimal_u64(retry_after->0@)->0,
            ),
            retry_after is None || (decimal_u64(retry_after->0@) is None && http_date_secs(
                retry_after->0@,
            ) is None) ==> exists|t: Option<i64>, now_ms: i64|
                (t is None <==> attempt >= self.spec_policy().max_n_retries) && r == policy_delay(
                    t,
                    now_ms as int,
                    self.spec_fallback_interval(),
                ),
            (retry_after is None || (decimal_u64(retry_after->0@) is None && http_date_secs(
                retry_after->0@,
            ) is None)) && attempt >= self.spec_policy().max_n_retries ==> r
                == self.spec_fallback_interval(),
    {
        match retry_after {
            Some(v) => {
                let header_secs = retry_to_seconds(v);
                let r = match header_secs {
                    Some(s) => s,
                    None => self.use_policy(attempt),
                };
                proof {
                    let now_ms = choose|now_ms: i64|
                        header_secs == header_delay(v@, http_date_secs(v@), now_ms as int);
                    if header_secs is Some {
                        let t: Option<i64> = if attempt >= self.spec_policy().max_n_retries {
                            None
                        } else {
                            Some(0)
                        };
                        assert(r == resolved_delay(
                            header_delay(v@, http_date_secs(v@), now_ms as int),
                            t,
                            0,
                            self.spec_fallback_interval(),
                        ));
                    } else {
                        let (t, p) = choose|t: Option<i64>, p: i64|
                            (t is None <==> attempt >= self.spec_policy().max_n_retries) && r
                                == policy_delay(t, p as int, self.spec_fallback_interval());
                        assert(r == resolved_delay(
                            header_delay(v@, http_date_secs(v@), now_ms as int),
                            t,
                            p as int,
                            self.spec_fallback_interval(),
                        ));
                    }
                }
                r
            },
            None => self.use_policy(attempt),
        }
    }
}

impl<T> RetryMiddleware<T> {
    /// The wait before resend number `attempt`, for a policy that Verus does
    /// not see: the header's delay (as `retry_to_seconds` gives it) when there
    /// is one; only otherwise is `ask` called, with `attempt`, for the instant
    /// after which to retry (milliseconds since the epoch, or `None` where the
    /// policy declines), which then gives the wait as `policy_delay` says.
    pub fn resolve_delay_by<F: Fn(u32) -> Option<i64>>(&self, header_secs: Option<u64>, attempt: u32, ask: F) -> (r: u64)
        requires
            call_requires(ask, (attempt,)),
        ensures
            header_secs is Some ==> r == header_secs->0,
            header_secs is None ==> exists|t: Option<i64>, now_ms: i64|
                call_ensures(ask, (attempt,), t) && r == policy_delay(
                    t,
                    now_ms as int,
                    self.spec_fallback_interval(),
                ),
            header_secs is None ==> r >= 1,
    {
        match header_secs {
            Some(s) => s,
            None => {
                let t = ask(attempt);
                let now = now_millis();
                let r = self.policy_delay(t, now);
                assert(call_ensures(ask, (attempt,), t) && r == policy_delay(
                    t,
                    now as int,
                    self.spec_fallback_interval(),
                ));
                r
            },
        }
    }
}

/// What the orchestrator does after a response: stop and hand that response
/// back, or wait and make resend number `attempt` (counted from one).
#[derive(Debug, Clone, Copy, PartialEq, Eq, Structural)]
pub enum RetryDecision {
    Stop,
    Retry { attempt: u32 },
}

/// One request's way through the retry loop: the request as it came in, which
/// every send repeats, and the resends made so far, never more than the
/// ceiling.
#[derive(Debug)]
pub struct RetryAttempt<R> {
    request: R,
    retries: u32,
    max_retries: u32,
}

impl<R> RetryAttempt<R> {
    #[verifier::type_invariant]
    spec fn within_ceiling(self) -> bool {
        self.retries <= self.max_retries
    }

    pub closed spec fn spec_request(&self) -> R {
        self.request
    }

    pub closed spec fn spec_retries(&self) -> u32 {
        self.retries
    }

    pub closed spec fn spec_max_retries(&self) -> u32 {
        self.max_retries
    }

    /// Whether `next` is what `on_status` makes of this state after a response
    /// with `status`.
    pub open spec fn is_step(&self, next: &Self, status: u16) -> bool {
        &&& next.spec_request() == self.spec_request()
        &&& next.spec_max_retries() == self.spec_max_retries()
        &&& next.spec_retries() == if should_resend(self.spec_max_retries(), self.spec_retries(), status) {
            self.spec_retries() + 1
        } else {
            self.spec_retries() as int
        }
    }

    /// The request to send, the same on every attempt.
    pub fn request(&self) -> (r: &R)
        ensures
            *r == self.spec_request(),
    {
        &self.request
    }

    /// The resends made so far.
    pub fn retries(&self) -> (r: u32)
        ensures
            r == self.spec_retries(),
            r <= self.spec_max_retries(),
    {
        proof {
            use_type_invariant(self);
        }
        self.retries
    }

    /// Takes in the status of the response to the latest send. A retryable
    /// status with resends left counts one more resend and asks for it;
    /// anything else stops the loop. The request is never changed.
    pub fn on_status(&mut self, status: u16) -> (d: RetryDecision)
        ensures
            old(self).is_step(&*final(self), status),
            should_resend(old(self).spec_max_retries(), old(self).spec_retries(), status) ==> {
                &&& d == (RetryDecision::Retry { attempt: (old(self).spec_retries() + 1) as u32 })
                &&& final(self).spec_retries() == old(self).spec_retries() + 1
            },
            !should_resend(old(self).spec_max_retries(), old(self).spec_retries(), status) ==> {
                &&& d == RetryDecision::Stop
                &&& final(self).spec_retries() == old(self).spec_retries()
            },
    {
        if is_retryable(status) && self.retries < self.max_retries {
            self.retries = self.retries + 1;
            RetryDecision::Retry { attempt: self.retries }
        } else {
            RetryDecision::Stop
        }
    }
}

} // verus!
