//! Reading a `Retry-After` header value: integer seconds first, then an
//! HTTP-date measured against the current time.
use crate::clock::now_millis;
use vstd::prelude::*;

verus! {

/// The value of a single decimal digit.
pub open spec fn digit_value(c: char) -> int {
    c as int - '0' as int
}

pub open spec fn is_digit(c: char) -> bool {
    '0' <= c && c <= '9'
}

/// The number written by a string of decimal digits, most significant first.
pub open spec fn decimal_value(s: Seq<char>) -> int
    decreases s.len(),
{
    if s.len() == 0 {
        0
    } else {
        decimal_value(s.drop_last()) * 10 + digit_value(s.last())
    }
}

/// The digits of an unsigned decimal literal: an optional leading `+` removed.
pub open spec fn unsigned_digits(s: Seq<char>) -> Seq<char> {
    if s.len() > 0 && s[0] == '+' {
        s.drop_first()
    } else {
        s
    }
}

/// What an unsigned 64-bit decimal literal denotes: a non-empty run of digits
/// after an optional `+`, whose value fits in a `u64`; anything else is `None`.
pub open spec fn decimal_u64(s: Seq<char>) -> Option<u64> {
    let d = unsigned_digits(s);
    if d.len() > 0 && (forall|i: int| 0 <= i < d.len() ==> is_digit(#[trigger] d[i]))
        && decimal_value(d) <= u64::MAX {
        Some(decimal_value(d) as u64)
    } else {
        None
    }
}

/// A whole number of seconds raised to at least one.
pub open spec fn at_least_one(n: u64) -> u64 {
    if n < 1 {
        1
    } else {
        n
    }
}

/// The delay that a `Retry-After` value gives, where `date_secs` is the value
/// read as an HTTP-date (seconds since the Unix epoch) and `now_ms` the current
/// time in milliseconds since the epoch. `None` means the header is unusable:
/// neither a number nor a date, or a date already past.
pub open spec fn header_delay(value: Seq<char>, date_secs: Option<u64>, now_ms: int) -> Option<u64> {
    match decimal_u64(value) {
        Some(n) => Some(at_least_one(n)),
        None => match date_secs {
            Some(d) => if d * 1000 >= now_ms {
                Some(at_least_one(((d * 1000 - now_ms) / 1000) as u64))
            } else {
                None
            },
            None => None,
        },
    }
}

proof fn lemma_decimal_prefix_le(s: Seq<char>, k: int)
    requires
        0 <= k <= s.len(),
        forall|i: int| 0 <= i < s.len() ==> is_digit(#[trigger] s[i]),
    ensures
        decimal_value(s.subrange(0, k)) <= decimal_value(s),
        0 <= decimal_value(s.subrange(0, k)),
    decreases s.len() - k,
{
    if k < s.len() {
        let p = s.subrange(0, k + 1);
        assert(p.drop_last() =~= s.subrange(0, k));
        assert(is_digit(s[k]));
        assert(p.last() == s[k]);
        lemma_decimal_prefix_le(s, k + 1);
    } else {
        assert(s.subrange(0, k) =~= s);
        lemma_decimal_nonneg(s);
    }
}

proof fn lemma_decimal_nonneg(s: Seq<char>)
    requires
        forall|i: int| 0 <= i < s.len() ==> is_digit(#[trigger] s[i]),
    ensures
        0 <= decimal_value(s),
    decreases s.len(),
{
    if s.len() > 0 {
        let p = s.drop_last();
        assert forall|i: int| 0 <= i < p.len() implies is_digit(#[trigger] p[i]) by {
            assert(p[i] == s[i]);
        }
        lemma_decimal_nonneg(p);
        assert(is_digit(s[s.len() - 1]));
    }
}

/// Reads an unsigned decimal integer as Rust's `u64` parsing does.
pub fn parse_seconds(s: &str) -> (r: Option<u64>)
    ensures
        r == decimal_u64(s@),
{
    let n = s.unicode_len();
    let mut start: usize = 0;
    if n > 0 && s.get_char(0) == '+' {
        start = 1;
    }
    let ghost d = unsigned_digits(s@);
    assert(d =~= s@.subrange(start as int, n as int));
    if start == n {
        return None;
    }
    let mut acc: u64 = 0;
    let mut i: usize = start;
    while i < n
        invariant
            start <= i <= n,
            n == s@.len(),
            d =~= s@.subrange(start as int, n as int),
            d == unsigned_digits(s@),
            d.len() > 0,
            forall|j: int| 0 <= j < i - start ==> is_digit(#[trigger] d[j]),
            acc as int == decimal_value(d.subrange(0, i - start)),
        decreases n - i,
    {
        let c = s.get_char(i);
        assert(c == d[i - start]);
        if !('0' <= c && c <= '9') {
            assert(!is_digit(d[i - start]));
            assert(decimal_u64(s@) is None);
            return None;
        }
        let v = (c as u32 - '0' as u32) as u64;
        let ghost p = d.subrange(0, i - start + 1);
        assert(p.drop_last() =~= d.subrange(0, i - start));
        assert(p.last() == c);
        if acc > (u64::MAX - v) / 10 {
            proof {
                assert(acc * 10 + v > u64::MAX) by (nonlinear_arith)
                    requires acc > (u64::MAX - v) / 10, v <= 9;
                assert forall|j: int| 0 <= j < p.len() implies is_digit(#[trigger] p[j]) by {
                    if j < i - start {
                        assert(p[j] == d[j]);
                    }
                }
                assert(digit_value(c) == v as int);
                assert(decimal_value(p) == acc * 10 + v);
                if forall|j: int| 0 <= j < d.len() ==> is_digit(#[trigger] d[j]) {
                    lemma_decimal_prefix_le(d, i - start + 1);
                    assert(p =~= d.subrange(0, i - start + 1));
                }
                assert(decimal_u64(s@) is None);
            }
            return None;
        }
        assert(acc * 10 + v <= u64::MAX) by (nonlinear_arith)
            requires acc <= (u64::MAX - v) / 10, v <= 9;
        acc = acc * 10 + v;
        i = i + 1;
    }
    assert(d.subrange(0, n - start) =~= d);
    Some(acc)
}

/// The delay given by a `Retry-After` value, from the value read as an
/// HTTP-date and the current time: the value as whole seconds when it is a
/// number; else the whole seconds from now to the date when the date is not
/// past; else `None`. A delay is at least one second.
pub fn header_delay_at(value: &str, date_secs: Option<u64>, now_ms: i64) -> (r: Option<u64>)
    requires
        date_secs is Some ==> date_secs->0 <= LAST_HTTP_DATE_SECS,
    ensures
        r == header_delay(value@, date_secs, now_ms as int),
{
    match parse_seconds(value) {
        Some(n) => Some(if n < 1 { 1 } else { n }),
        None => match date_secs {
            Some(d) => {
                let due: i128 = d as i128 * 1000;
                if due >= now_ms as i128 {
                    let secs = ((due - now_ms as i128) / 1000) as u64;
                    Some(if secs < 1 { 1 } else { secs })
                } else {
                    None
                }
            },
            None => None,
        },
    }
}

/// The last second that an HTTP-date can name: 9999-12-31 23:59:59 UTC.
pub const LAST_HTTP_DATE_SECS: u64 = 253402300799;

/// What `httpdate::parse_http_date` makes of a string, as seconds since the
/// Unix epoch; `None` where it refuses the string.
pub uninterp spec fn http_date_secs(s: Seq<char>) -> Option<u64>;

/// Relies on `httpdate::parse_http_date`: it reads an IMF-fixdate, RFC 850 or
/// asctime date, or refuses the string; the result depends on the string alone.
/// Its dates lie in the years 1970 to 9999, so never before the epoch and
/// never after the last second of 9999.
#[verifier::external_body]
fn parse_http_date(s: &str) -> (r: Option<u64>)
    ensures
        r == http_date_secs(s@),
        r is Some ==> r->0 <= LAST_HTTP_DATE_SECS,
{
    httpdate::parse_http_date(s)
        .ok()
        .and_then(|t| t.duration_since(std::time::UNIX_EPOCH).ok())
        .map(|d| d.as_secs())
}

/// The delay that a `Retry-After` value asks for, in whole seconds, or `None`
/// when the value is neither a number nor a date still to come. A number wins
/// over a date; zero is raised to one second.
pub fn retry_to_seconds(value: &str) -> (r: Option<u64>)
    ensures
        exists|now_ms: i64| r == header_delay(value@, http_date_secs(value@), now_ms as int),
        decimal_u64(value@) is Some ==> r == Some(at_least_one(decimal_u64(value@)->0)),
        decimal_u64(value@) is None && http_date_secs(value@) is None ==> r is None,
        r is Some ==> r->0 >= 1,
{
    match parse_seconds(value) {
        Some(n) => {
            let r = Some(if n < 1 { 1 } else { n });
            assert(r == header_delay(value@, http_date_secs(value@), 0));
            r
        },
        None => {
            let date = parse_http_date(value);
            let now = now_millis();
            let r = header_delay_at(value, date, now);
            assert(r == header_delay(value@, http_date_secs(value@), now as int));
            r
        },
    }
}

} // verus!
