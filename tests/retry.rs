use surf_retry::{
    header_delay_at, is_retryable, parse_seconds, policy_delay_at, retry_to_seconds, Backoff, RetryAttempt,
    RetryDecision, RetryMiddleware, LAST_HTTP_DATE_SECS, MAX_BACKOFF_INTERVAL_MS,
};

const PAST_DATE: &str = "Sun, 06 Nov 1994 08:49:37 GMT";
const PAST_DATE_SECS: u64 = 784111777;

/// Feeds the answers to a fresh attempt until it stops; returns the number of
/// sends and the status handed back.
fn run(max_retries: u32, answers: &[u16]) -> (usize, u16) {
    let mw = RetryMiddleware::new(max_retries, (), 1);
    let mut attempt: RetryAttempt<&str> = mw.start("GET /");
    let mut sends = 0;
    loop {
        let status = answers[sends];
        sends += 1;
        match attempt.on_status(status) {
            RetryDecision::Stop => return (sends, status),
            RetryDecision::Retry { attempt: n } => assert_eq!(n as usize, sends),
        }
    }
}

fn declining_policy() -> Backoff {
    Backoff {
        max_n_retries: 0,
        min_retry_interval_ms: 1000,
        max_retry_interval_ms: 1_800_000,
        backoff_exponent: 3,
    }
}

#[test]
fn classifies_retry_codes() {
    assert!(is_retryable(429));
    assert!(is_retryable(408));
    assert!(!is_retryable(200));
    assert!(!is_retryable(500));
    assert!(!is_retryable(503));
}

#[test]
fn parses_integer_seconds() {
    assert_eq!(parse_seconds("5"), Some(5));
    assert_eq!(parse_seconds("0"), Some(0));
    assert_eq!(parse_seconds("+7"), Some(7));
    assert_eq!(parse_seconds("120"), Some(120));
    assert_eq!(parse_seconds("18446744073709551615"), Some(u64::MAX));
}

#[test]
fn rejects_non_integers() {
    assert_eq!(parse_seconds(""), None);
    assert_eq!(parse_seconds("+"), None);
    assert_eq!(parse_seconds("-1"), None);
    assert_eq!(parse_seconds("1a"), None);
    assert_eq!(parse_seconds(" 5"), None);
    assert_eq!(parse_seconds("18446744073709551616"), None);
    assert_eq!(parse_seconds("not-a-number-or-date"), None);
}

#[test]
fn header_number_is_the_delay() {
    assert_eq!(header_delay_at("5", None, 0), Some(5));
    assert_eq!(header_delay_at("5", Some(PAST_DATE_SECS), 0), Some(5));
}

#[test]
fn header_zero_is_clamped_to_one() {
    assert_eq!(header_delay_at("0", None, 0), Some(1));
}

#[test]
fn header_date_measured_from_now() {
    let due_ms = PAST_DATE_SECS as i64 * 1000;
    assert_eq!(header_delay_at(PAST_DATE, Some(PAST_DATE_SECS), due_ms - 10_500), Some(10));
    assert_eq!(header_delay_at(PAST_DATE, Some(PAST_DATE_SECS), due_ms - 300), Some(1));
    assert_eq!(header_delay_at(PAST_DATE, Some(PAST_DATE_SECS), due_ms), Some(1));
    assert_eq!(header_delay_at(PAST_DATE, Some(PAST_DATE_SECS), due_ms + 1), None);
    assert_eq!(
        header_delay_at("Fri, 31 Dec 9999 23:59:59 GMT", Some(LAST_HTTP_DATE_SECS), -1000),
        Some(LAST_HTTP_DATE_SECS + 1)
    );
}

#[test]
fn header_unusable_without_date() {
    assert_eq!(header_delay_at("not-a-number-or-date", None, 0), None);
}

#[test]
fn retry_to_seconds_reads_numbers() {
    assert_eq!(retry_to_seconds("5"), Some(5));
    assert_eq!(retry_to_seconds("0"), Some(1));
}

#[test]
fn retry_to_seconds_reads_dates() {
    assert_eq!(retry_to_seconds(PAST_DATE), None);
    assert_eq!(retry_to_seconds("Sunday, 06-Nov-94 08:49:37 GMT"), None);
    let far = retry_to_seconds("Fri, 31 Dec 9999 23:59:59 GMT").unwrap();
    assert!(far > 200_000_000_000);
    assert_eq!(retry_to_seconds("not-a-number-or-date"), None);
}

#[test]
fn policy_delay_whole_seconds() {
    assert_eq!(policy_delay_at(Some(10_500), 0, 3), 10);
    assert_eq!(policy_delay_at(Some(1_000_999), 1_000_000, 3), 1);
    assert_eq!(policy_delay_at(Some(500), 500, 3), 1);
    assert_eq!(policy_delay_at(Some(-5), 0, 3), 3);
    assert_eq!(policy_delay_at(None, 0, 3), 3);
}

#[test]
fn constructor_keeps_settings() {
    let mw = RetryMiddleware::new(5, 42u8, 9);
    assert_eq!(mw.max_retries(), 5);
    assert_eq!(*mw.policy(), 42);
    assert_eq!(mw.fallback_interval(), 9);
}

#[test]
fn default_settings() {
    let mw = RetryMiddleware::default();
    assert_eq!(mw.max_retries(), 3);
    assert_eq!(mw.fallback_interval(), 1);
    assert_eq!(
        *mw.policy(),
        Backoff {
            max_n_retries: 3,
            min_retry_interval_ms: 1000,
            max_retry_interval_ms: 1_800_000,
            backoff_exponent: 3,
        }
    );
}

#[test]
fn use_policy_past_policy_limit_gives_fallback() {
    let policy = Backoff { max_n_retries: 2, ..declining_policy() };
    let mw = RetryMiddleware::new(5, policy, 11);
    assert_eq!(mw.use_policy(2), 11);
    assert_eq!(mw.use_policy(4), 11);
    let secs = mw.use_policy(1);
    assert!(secs >= 1 && secs <= 1800);
}

#[test]
fn use_policy_largest_intervals() {
    let policy = Backoff {
        max_n_retries: u32::MAX,
        min_retry_interval_ms: MAX_BACKOFF_INTERVAL_MS,
        max_retry_interval_ms: MAX_BACKOFF_INTERVAL_MS,
        backoff_exponent: u32::MAX,
    };
    let mw = RetryMiddleware::new(5, policy, 1);
    let secs = mw.use_policy(u32::MAX - 1);
    assert!(secs >= 1 && secs <= MAX_BACKOFF_INTERVAL_MS / 1000);
}

#[test]
fn resolve_delay_by_asks_only_without_header() {
    let mw = RetryMiddleware::new(3, (), 4);
    let never = |_: u32| -> Option<i64> { panic!("the policy must not be asked") };
    assert_eq!(mw.resolve_delay_by(Some(6), 1, never), 6);
    assert_eq!(mw.resolve_delay_by(None, 1, |_| None), 4);
    assert_eq!(mw.resolve_delay_by(None, 1, |_| Some(i64::MIN)), 4);
    let far = mw.resolve_delay_by(None, 2, |n| if n == 2 { Some(i64::MAX) } else { None });
    assert!(far > 1_000_000_000);
}

#[test]
fn pick_delay_header_wins() {
    let mw = RetryMiddleware::new(3, (), 2);
    assert_eq!(mw.pick_delay(Some(5), Some(i64::MAX), 0), 5);
    assert_eq!(mw.pick_delay(Some(5), None, 0), 5);
    assert_eq!(mw.pick_delay(None, Some(30_000), 0), 30);
    assert_eq!(mw.pick_delay(None, None, 0), 2);
    assert_eq!(mw.policy_delay(Some(-1), 0), 2);
}

#[test]
fn use_policy_declined_gives_fallback() {
    let mw = RetryMiddleware::new(3, declining_policy(), 7);
    assert_eq!(mw.use_policy(1), 7);
    let dflt = RetryMiddleware::default();
    assert_eq!(dflt.use_policy(3), 1);
}

#[test]
fn use_policy_within_policy_bounds() {
    let mw = RetryMiddleware::default();
    let secs = mw.use_policy(1);
    assert!(secs >= 1);
    assert!(secs <= 30 * 60);
}

#[test]
fn resolve_delay_header_precedence() {
    let mw = RetryMiddleware::new(3, declining_policy(), 7);
    assert_eq!(mw.resolve_delay(Some("5"), 1), 5);
    let dflt = RetryMiddleware::default();
    assert_eq!(dflt.resolve_delay(Some("5"), 1), 5);
}

#[test]
fn resolve_delay_header_clamp() {
    let mw = RetryMiddleware::new(3, declining_policy(), 7);
    assert_eq!(mw.resolve_delay(Some("0"), 1), 1);
}

#[test]
fn resolve_delay_bad_header_falls_back() {
    let mw = RetryMiddleware::new(3, declining_policy(), 7);
    assert_eq!(mw.resolve_delay(Some("not-a-number-or-date"), 1), 7);
    assert_eq!(mw.resolve_delay(Some(PAST_DATE), 1), 7);
    assert_eq!(mw.resolve_delay(None, 1), 7);
}

#[test]
fn bounded_attempts() {
    assert_eq!(run(3, &[429, 429, 429, 429, 429, 429]), (4, 429));
    assert_eq!(run(1, &[408, 408, 408]), (2, 408));
}

#[test]
fn zero_retries_sends_once() {
    assert_eq!(run(0, &[429, 200]), (1, 429));
    assert_eq!(run(0, &[200]), (1, 200));
}

#[test]
fn non_retryable_first_response() {
    assert_eq!(run(3, &[500, 200]), (1, 500));
    assert_eq!(run(3, &[200]), (1, 200));
}

#[test]
fn retries_until_success() {
    assert_eq!(run(3, &[429, 429, 200]), (3, 200));
}

#[test]
fn resend_repeats_request() {
    let mw = RetryMiddleware::new(2, (), 1);
    let first_sent = String::from("POST /items {\"a\":1}");
    let mut attempt = mw.start(first_sent.clone());
    assert_eq!(attempt.on_status(429), RetryDecision::Retry { attempt: 1 });
    assert_eq!(attempt.request(), &first_sent);
    assert_eq!(attempt.on_status(408), RetryDecision::Retry { attempt: 2 });
    assert_eq!(attempt.request(), &first_sent);
    assert_eq!(attempt.on_status(429), RetryDecision::Stop);
    assert_eq!(attempt.retries(), 2);
    assert_eq!(attempt.request(), &first_sent);
}
