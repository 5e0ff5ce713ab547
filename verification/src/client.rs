//! Request policy of the HTTP client.
//!
//! The client itself (sockets, cookies, the crumb cache) lives with the
//! application; what it decides lives here: which failures are retried and
//! how the backoff grows, what a failed HTTP status becomes, how the crumb is
//! read from its endpoint, how long a crumb is trusted, and which browser
//! identity a session presents.

use vstd::prelude::*;

use crate::error::YfError;
use crate::fundamentals::strs_view;
use crate::text::{chars_of, string_of, sub_chars, trim, trim_chars};

verus! {

/// Yahoo Finance host for primary data endpoints.
pub const QUERY1_HOST: &'static str = "https://query1.finance.yahoo.com";

/// Alternate data host; the default base host of a client.
pub const QUERY2_HOST: &'static str = "https://query2.finance.yahoo.com";

/// Characters of an error body kept in [`YfError::Status`].
pub const STATUS_SNIPPET_CHARS: usize = 200;

/// Milliseconds a fetched crumb stays in use (half an hour).
pub const CRUMB_TTL_MILLIS: u128 = 1_800_000;

/// The desktop browser User-Agent strings a session picks from.
pub open spec fn browser_agents() -> Seq<Seq<char>> {
    seq![
        "Mozilla/5.0 (Windows NT 10.0; Win64; x64) AppleWebKit/537.36 (KHTML, like Gecko) Chrome/133.0.0.0 Safari/537.36"@,
        "Mozilla/5.0 (Macintosh; Intel Mac OS X 10_15_7) AppleWebKit/537.36 (KHTML, like Gecko) Chrome/133.0.0.0 Safari/537.36"@,
        "Mozilla/5.0 (Windows NT 10.0; Win64; x64; rv:128.0) Gecko/20100101 Firefox/128.0"@,
        "Mozilla/5.0 (Macintosh; Intel Mac OS X 10_15_7) AppleWebKit/605.1.15 (KHTML, like Gecko) Version/17.5 Safari/605.1.15"@,
    ]
}

/// The User-Agent strings of [`browser_agents`].
pub fn user_agents() -> (r: &'static [&'static str])
    ensures
        strs_view(r@) == browser_agents(),
{
    let r: &'static [&'static str] = &[
        "Mozilla/5.0 (Windows NT 10.0; Win64; x64) AppleWebKit/537.36 (KHTML, like Gecko) Chrome/133.0.0.0 Safari/537.36",
        "Mozilla/5.0 (Macintosh; Intel Mac OS X 10_15_7) AppleWebKit/537.36 (KHTML, like Gecko) Chrome/133.0.0.0 Safari/537.36",
        "Mozilla/5.0 (Windows NT 10.0; Win64; x64; rv:128.0) Gecko/20100101 Firefox/128.0",
        "Mozilla/5.0 (Macintosh; Intel Mac OS X 10_15_7) AppleWebKit/605.1.15 (KHTML, like Gecko) Version/17.5 Safari/605.1.15",
    ];
    assert(strs_view(r@) =~= browser_agents());
    r
}

/// `SliceRandom::choose` of rand with the thread-local generator: `None` on
/// an empty slice, otherwise one of its elements, picked at random.
#[verifier::external_body]
fn choose_str(items: &[&'static str]) -> (r: Option<&'static str>)
    ensures
        r is None <==> items@.len() == 0,
        r matches Some(s) ==> exists|i: int| 0 <= i < items@.len() && items@[i] == s,
{
    rand::seq::SliceRandom::choose(items, &mut rand::thread_rng()).copied()
}

/// The User-Agent a session sends: the caller's, or one of
/// [`browser_agents`] picked at random.
pub fn session_user_agent(user_agent: Option<String>) -> (r: String)
    ensures
        user_agent matches Some(u) ==> r@ == u@,
        user_agent is None ==> browser_agents().contains(r@),
{
    match user_agent {
        Some(u) => u,
        None => {
            let agents = user_agents();
            assert(agents@.len() == 4) by {
                assert(strs_view(agents@).len() == 4);
            }
            let picked = choose_str(agents);
            let s: &str = match picked {
                Some(s) => s,
                None => agents[0],
            };
            proof {
                let i = choose|i: int| 0 <= i < agents@.len() && agents@[i] == s;
                assert(strs_view(agents@)[i] == s@);
            }
            s.to_string()
        },
    }
}

/// Whether a crumb fetched `elapsed_millis` ago is still used.
pub fn crumb_is_fresh(elapsed_millis: u128) -> (r: bool)
    ensures
        r == (elapsed_millis < CRUMB_TTL_MILLIS),
{
    elapsed_millis < CRUMB_TTL_MILLIS
}

/// `s` without the leading `c`s.
pub open spec fn strip_leading(s: Seq<char>, c: char) -> Seq<char>
    decreases s.len(),
{
    if s.len() > 0 && s[0] == c {
        strip_leading(s.drop_first(), c)
    } else {
        s
    }
}

/// `s` without the trailing `c`s.
pub open spec fn strip_trailing(s: Seq<char>, c: char) -> Seq<char>
    decreases s.len(),
{
    if s.len() > 0 && s.last() == c {
        strip_trailing(s.drop_last(), c)
    } else {
        s
    }
}

/// The crumb candidate in a `getcrumb` body: trimmed, then stripped of
/// surrounding double quotes (`trim().trim_matches('"')`).
pub open spec fn crumb_text(body: Seq<char>) -> Seq<char> {
    strip_trailing(strip_leading(trim(body), '"'), '"')
}

/// A crumb is usable when it is non-empty and holds no `<` (an HTML page is
/// not a crumb).
pub open spec fn crumb_usable(c: Seq<char>) -> bool {
    c.len() > 0 && !c.contains('<')
}

/// The crumb carried by a successful `getcrumb` response body, if it holds one.
pub fn crumb_from_body(body: &str) -> (r: Option<String>)
    ensures
        r is Some <==> crumb_usable(crumb_text(body@)),
        r matches Some(c) ==> c@ == crumb_text(body@),
{
    let all = chars_of(body);
    let t = trim_chars(&all);
    let ghost ts = t@;
    assert(ts.subrange(0, ts.len() as int) =~= ts);
    let mut lo: usize = 0;
    while lo < t.len() && t[lo] == '"'
        invariant
            lo <= ts.len(),
            t@ == ts,
            strip_leading(ts.subrange(lo as int, ts.len() as int), '"') == strip_leading(ts, '"'),
        decreases ts.len() - lo,
    {
        assert(ts.subrange(lo as int, ts.len() as int).drop_first() =~= ts.subrange(
            lo + 1,
            ts.len() as int,
        ));
        lo += 1;
    }
    let ghost us = ts.subrange(lo as int, ts.len() as int);
    assert(strip_leading(us, '"') == us);
    let mut hi: usize = t.len();
    while hi > lo && t[hi - 1] == '"'
        invariant
            lo <= hi <= ts.len(),
            t@ == ts,
            us == ts.subrange(lo as int, ts.len() as int),
            strip_trailing(ts.subrange(lo as int, hi as int), '"') == strip_trailing(us, '"'),
        decreases hi,
    {
        assert(ts.subrange(lo as int, hi as int).drop_last() =~= ts.subrange(
            lo as int,
            hi - 1,
        ));
        hi -= 1;
    }
    let c = sub_chars(&t, lo, hi);
    assert(c@ == crumb_text(body@));
    if c.len() == 0 {
        return None;
    }
    let mut k: usize = 0;
    while k < c.len()
        invariant
            k <= c@.len(),
            c@ == crumb_text(body@),
            forall|j: int| 0 <= j < k ==> c@[j] != '<',
        decreases c@.len() - k,
    {
        if c[k] == '<' {
            assert(c@[k as int] == '<');
            assert(c@.contains('<'));
            return None;
        }
        k += 1;
    }
    Some(string_of(&c))
}

/// How a data request treats an HTTP status.
#[derive(Debug, Clone, Copy, PartialEq, Eq, Structural)]
pub enum StatusClass {
    /// `2xx`: the body is the answer.
    Success,
    /// `429 Too Many Requests`: [`YfError::RateLimited`].
    RateLimited,
    /// Anything else: [`YfError::Status`] with the start of the body.
    Failed,
}

/// The class of an HTTP status code.
pub fn classify_status(status: u16) -> (r: StatusClass)
    ensures
        r == StatusClass::Success <==> 200 <= status <= 299,
        r == StatusClass::RateLimited <==> status == 429,
        r == StatusClass::Failed <==> !(200 <= status <= 299) && status != 429,
{
    if 200 <= status && status <= 299 {
        StatusClass::Success
    } else if status == 429 {
        StatusClass::RateLimited
    } else {
        StatusClass::Failed
    }
}

/// The first [`STATUS_SNIPPET_CHARS`] characters of `body`.
pub open spec fn snippet(body: Seq<char>) -> Seq<char> {
    if body.len() <= STATUS_SNIPPET_CHARS {
        body
    } else {
        body.take(STATUS_SNIPPET_CHARS as int)
    }
}

/// The error for a failed status, carrying the start of the response body.
pub fn status_failure(status: u16, body: &str) -> (r: YfError)
    ensures
        r matches YfError::Status { status: s, message } && s == status && message@ == snippet(
            body@,
        ),
{
    let all = chars_of(body);
    let n = if all.len() <= STATUS_SNIPPET_CHARS {
        all.len()
    } else {
        STATUS_SNIPPET_CHARS
    };
    let kept = sub_chars(&all, 0, n);
    assert(all@.subrange(0, all@.len() as int) =~= all@);
    YfError::Status { status, message: string_of(&kept) }
}

/// `reqwest::Error::is_timeout`.
#[verifier::external_body]
fn http_is_timeout(e: &reqwest::Error) -> bool {
    e.is_timeout()
}

/// `reqwest::Error::is_connect`.
#[verifier::external_body]
fn http_is_connect(e: &reqwest::Error) -> bool {
    e.is_connect()
}

/// `reqwest::Error::status`, as the numeric code.
#[verifier::external_body]
fn http_status(e: &reqwest::Error) -> Option<u16> {
    match e.status() {
        Some(s) => Some(s.as_u16()),
        None => None,
    }
}

/// Whether a transport failure is worth another attempt, from what the
/// failure reports: it timed out, it could not connect, or it carried a
/// server-error status (500 to 599).
pub fn transport_retryable(timed_out: bool, connect_failed: bool, status: Option<u16>) -> (r: bool)
    ensures
        r == (timed_out || connect_failed || (status matches Some(s) && 500 <= s && s <= 599)),
{
    let server = match status {
        Some(s) => 500 <= s && s <= 599,
        None => false,
    };
    timed_out || connect_failed || server
}

/// Whether a failed request is worth another attempt: a 429, a status of
/// 500 or more, or a transport failure that timed out, could not connect or
/// carried a server-error status (see [`transport_retryable`]).
pub fn is_retryable(err: &YfError) -> (r: bool)
    ensures
        err is RateLimited ==> r,
        err matches YfError::Status { status, .. } ==> r == (status >= 500),
        !(err is Http || err is Status || err is RateLimited) ==> !r,
{
    match err {
        YfError::Http(e) => transport_retryable(http_is_timeout(e), http_is_connect(e), http_status(e)),
        YfError::Status { status, .. } => *status >= 500,
        YfError::RateLimited => true,
        _ => false,
    }
}

/// Nanoseconds in the longest `std::time::Duration` (`Duration::MAX`:
/// `u64::MAX` seconds and 999 999 999 nanoseconds).
pub const DURATION_MAX_NANOS: u128 = 18_446_744_073_709_551_615_999_999_999;

/// `Duration::saturating_mul(2)` in nanoseconds: twice the pause, or the
/// longest duration when twice would not fit.
pub open spec fn doubled(nanos: int) -> int {
    if 2 * nanos <= DURATION_MAX_NANOS {
        2 * nanos
    } else {
        DURATION_MAX_NANOS as int
    }
}

/// The state after a failed attempt from `s` (see [`RetryState::after_failure`]):
/// one more attempt and a doubled pause while fewer than `max_retries`
/// retries were made and the failure is retryable; otherwise none.
pub open spec fn retry_step(s: RetryState, max_retries: u32, retryable: bool) -> Option<RetryState> {
    if s.attempt < max_retries && retryable {
        Some(RetryState {
            attempt: (s.attempt + 1) as u32,
            backoff_nanos: doubled(s.backoff_nanos as int) as u128,
        })
    } else {
        None
    }
}

/// The state after `n` failed attempts in a row, each retryable, of a request
/// that started with pause `backoff_nanos`; `None` once the request gave up.
pub open spec fn retry_after(backoff_nanos: u128, max_retries: u32, n: nat) -> Option<RetryState>
    decreases n,
{
    if n == 0 {
        Some(RetryState { attempt: 0, backoff_nanos })
    } else {
        match retry_after(backoff_nanos, max_retries, (n - 1) as nat) {
            Some(s) => retry_step(s, max_retries, true),
            None => None,
        }
    }
}

/// `b * 2^k`.
pub open spec fn scaled(b: int, k: nat) -> int
    decreases k,
{
    if k == 0 {
        b
    } else {
        2 * scaled(b, (k - 1) as nat)
    }
}

/// `b * 2^k`, or the longest duration when that is longer.
pub open spec fn capped_backoff(b: int, k: nat) -> int {
    if scaled(b, k) <= DURATION_MAX_NANOS {
        scaled(b, k)
    } else {
        DURATION_MAX_NANOS as int
    }
}

/// Where a request stands between attempts.
#[derive(Debug)]
pub struct RetryState {
    /// Attempts that failed so far.
    pub attempt: u32,
    /// Pause before the next attempt, in nanoseconds.
    pub backoff_nanos: u128,
}

impl RetryState {
    pub open spec fn wf(&self) -> bool {
        self.backoff_nanos <= DURATION_MAX_NANOS
    }

    /// The state before the first attempt, pausing `backoff_nanos` before the
    /// first retry.
    pub fn new(backoff_nanos: u128) -> (r: RetryState)
        ensures
            r.attempt == 0,
            r.backoff_nanos == backoff_nanos,
    {
        RetryState { attempt: 0, backoff_nanos }
    }

    /// After a failed attempt: `Some(next)` means pause for this state's
    /// backoff and try again from `next`, whose backoff is twice as long
    /// (saturating); `None` means give up and return the error. A failure is
    /// retried while fewer than `max_retries` retries were made and the
    /// failure is `retryable`.
    pub fn after_failure(&self, max_retries: u32, retryable: bool) -> (r: Option<RetryState>)
        ensures
            r == retry_step(*self, max_retries, retryable),
            r is Some <==> (self.attempt < max_retries && retryable),
            r matches Some(n) ==> {
                &&& n.attempt == self.attempt + 1
                &&& n.backoff_nanos == doubled(self.backoff_nanos as int)
                &&& n.wf()
            },
    {
        if self.attempt < max_retries && retryable {
            let next = if self.backoff_nanos <= DURATION_MAX_NANOS / 2 {
                self.backoff_nanos * 2
            } else {
                DURATION_MAX_NANOS
            };
            Some(RetryState { attempt: self.attempt + 1, backoff_nanos: next })
        } else {
            None
        }
    }

    /// The backoff as whole seconds and the nanoseconds beyond them, the
    /// parts of `Duration::new`.
    pub fn backoff_parts(&self) -> (r: (u64, u32))
        requires
            self.wf(),
        ensures
            r.0 * 1_000_000_000 + r.1 == self.backoff_nanos,
            r.1 < 1_000_000_000,
    {
        let n = self.backoff_nanos;
        let secs = n / 1_000_000_000;
        let sub = n % 1_000_000_000;
        assert(secs <= u64::MAX) by (nonlinear_arith)
            requires
                n <= DURATION_MAX_NANOS,
                secs == n / 1_000_000_000,
        ;
        assert(secs * 1_000_000_000 + sub == n) by (nonlinear_arith)
            requires
                secs == n / 1_000_000_000,
                sub == n % 1_000_000_000,
        ;
        (secs as u64, sub as u32)
    }
}

/// The pause before each retry is twice the one before it until it reaches
/// the longest duration, and it never shrinks or exceeds that bound.
pub proof fn backoff_doubles_until_cap(nanos: u128)
    requires
        nanos <= DURATION_MAX_NANOS,
    ensures
        nanos <= doubled(nanos as int) <= DURATION_MAX_NANOS,
        2 * nanos <= DURATION_MAX_NANOS ==> doubled(nanos as int) == 2 * nanos,
{
}

proof fn lemma_scaled_nonneg(b: int, k: nat)
    requires
        b >= 0,
    ensures
        scaled(b, k) >= 0,
    decreases k,
{
    if k > 0 {
        lemma_scaled_nonneg(b, (k - 1) as nat);
    }
}

/// A request whose attempts all fail retryably is sent `max_retries + 1`
/// times: after `n <= max_retries` failures it waits `b * 2^n` (capped at the
/// longest duration) and tries again, so the waits are `b, 2b, 4b, ...`; after
/// failure `max_retries + 1` it gives up. A failure that is not retryable
/// ends the request at once.
pub proof fn retry_schedule(backoff_nanos: u128, max_retries: u32, n: nat)
    requires
        backoff_nanos <= DURATION_MAX_NANOS,
    ensures
        n <= max_retries ==> retry_after(backoff_nanos, max_retries, n) == Some(
            RetryState {
                attempt: n as u32,
                backoff_nanos: capped_backoff(backoff_nanos as int, n) as u128,
            },
        ),
        n == max_retries + 1 ==> retry_after(backoff_nanos, max_retries, n) is None,
        forall|s: RetryState| #[trigger] retry_step(s, max_retries, false) is None,
    decreases n,
{
    if n > 0 {
        retry_schedule(backoff_nanos, max_retries, (n - 1) as nat);
        let k = (n - 1) as nat;
        lemma_scaled_nonneg(backoff_nanos as int, k);
        assert(scaled(backoff_nanos as int, n) == 2 * scaled(backoff_nanos as int, k));
        assert(doubled(capped_backoff(backoff_nanos as int, k)) == capped_backoff(
            backoff_nanos as int,
            n,
        ));
    }
}

} // verus!
