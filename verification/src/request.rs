//! Query strings, paths and fixture labels of the data endpoints.
//!
//! Every request the client sends is described here as plain text: the
//! ordered `(name, value)` pairs of its query string and the labels its
//! recorded responses are filed under. Numbers are written in decimal, as
//! `to_string` writes them, and flags as `true` / `false`.

use vstd::prelude::*;
use vstd::string::StringSliceAdditionalSpecFns;

use crate::fundamentals::{kind_keys, strs_view, FundamentalsKind};
use crate::lookup::{lookup_type_text, LookupType};
use crate::news::{tab_query_ref, NewsTab};
use crate::test_fixtures::{safe_label, spec_safe_label};
use crate::text::{chars_of, string_of};

verus! {

/// The decimal digit character for `d < 10`.
pub open spec fn digit_char(d: nat) -> char {
    (d + 48) as char
}

/// Decimal representation of `n`, without leading zeros.
pub open spec fn decimal(n: nat) -> Seq<char>
    decreases n,
{
    if n < 10 {
        seq![digit_char(n)]
    } else {
        decimal(n / 10).push(digit_char(n % 10))
    }
}

/// Decimal representation of a signed integer: a `-` before the digits of a
/// negative number.
pub open spec fn signed_decimal(n: int) -> Seq<char> {
    if n < 0 {
        seq!['-'] + decimal((-n) as nat)
    } else {
        decimal(n as nat)
    }
}

/// Appends the decimal digits of `m` to `out`.
fn push_decimal(m: u64, out: &mut Vec<char>)
    ensures
        final(out)@ == old(out)@ + decimal(m as nat),
    decreases m,
{
    if m >= 10 {
        push_decimal(m / 10, out);
    }
    let d: u8 = (m % 10) as u8;
    out.push((48u8 + d) as char);
    assert(out@ =~= old(out)@ + decimal(m as nat));
}

/// `n.to_string()` for an unsigned integer.
pub fn u64_text(n: u64) -> (r: String)
    ensures
        r@ == decimal(n as nat),
{
    let mut v: Vec<char> = Vec::new();
    push_decimal(n, &mut v);
    assert(v@ =~= decimal(n as nat));
    string_of(&v)
}

/// `n.to_string()` for a signed integer.
pub fn i64_text(n: i64) -> (r: String)
    ensures
        r@ == signed_decimal(n as int),
{
    let mut v: Vec<char> = Vec::new();
    if n < 0 {
        v.push('-');
        let m: u64 = if n == i64::MIN {
            9_223_372_036_854_775_808u64
        } else {
            (-n) as u64
        };
        push_decimal(m, &mut v);
        assert(v@ =~= signed_decimal(n as int));
    } else {
        push_decimal(n as u64, &mut v);
        assert(v@ =~= signed_decimal(n as int));
    }
    string_of(&v)
}

/// `b.to_string()`.
pub open spec fn bool_text(b: bool) -> Seq<char> {
    if b {
        "true"@
    } else {
        "false"@
    }
}

/// `b.to_string()`.
pub fn bool_str(b: bool) -> (r: &'static str)
    ensures
        r@ == bool_text(b),
{
    if b {
        "true"
    } else {
        "false"
    }
}

/// A query parameter by its text.
pub open spec fn pair_view(p: (String, String)) -> (Seq<char>, Seq<char>) {
    (p.0@, p.1@)
}

/// A query string by its text.
pub open spec fn query_view(q: Seq<(String, String)>) -> Seq<(Seq<char>, Seq<char>)> {
    q.map_values(|p: (String, String)| pair_view(p))
}

/// Appends the parameter `name=value` to `q`.
pub fn push_param(q: &mut Vec<(String, String)>, name: &str, value: String)
    ensures
        query_view(final(q)@) == query_view(old(q)@).push((name@, value@)),
{
    q.push((name.to_string(), value));
    assert(query_view(q@) =~= query_view(old(q)@).push((name@, value@)));
}

/// `parts` joined with `sep` between neighbours.
pub open spec fn join_with(parts: Seq<Seq<char>>, sep: char) -> Seq<char>
    decreases parts.len(),
{
    if parts.len() == 0 {
        Seq::empty()
    } else if parts.len() == 1 {
        parts[0]
    } else {
        join_with(parts.drop_last(), sep).push(sep) + parts.last()
    }
}

/// `parts.join(",")` (with any one-character separator).
pub fn join_strs(parts: &[&str], sep: char) -> (r: String)
    ensures
        r@ == join_with(strs_view(parts@), sep),
{
    let mut out: Vec<char> = Vec::new();
    let mut i: usize = 0;
    while i < parts.len()
        invariant
            i <= parts@.len(),
            out@ == join_with(strs_view(parts@.take(i as int)), sep),
        decreases parts@.len() - i,
    {
        let ghost before = out@;
        if i > 0 {
            out.push(sep);
        }
        let ghost start = out@;
        let part: &str = parts[i];
        for c in it: part.chars()
            invariant
                it.seq() == parts@[i as int]@,
                out@ == start + it.seq().take(it.index() as int),
        {
            out.push(c);
            assert(out@ =~= start + it.seq().take(it.index() + 1));
        }
        assert(out@ =~= start + parts@[i as int]@);
        let ghost t1 = strs_view(parts@.take(i + 1));
        assert(t1.drop_last() =~= strs_view(parts@.take(i as int)));
        assert(t1.last() == parts@[i as int]@);
        if i == 0 {
            assert(t1.len() == 1);
            assert(out@ =~= t1[0]);
        }
        i += 1;
    }
    assert(parts@.take(parts@.len() as int) =~= parts@);
    string_of(&out)
}

/// Query of a lookup request.
pub open spec fn lookup_params(
    query: Seq<char>,
    kind: LookupType,
    count: nat,
    fetch_pricing_data: bool,
) -> Seq<(Seq<char>, Seq<char>)> {
    seq![
        ("query"@, query),
        ("type"@, lookup_type_text(kind)),
        ("count"@, decimal(count)),
        ("formatted"@, "false"@),
        ("lang"@, "en-US"@),
        ("region"@, "US"@),
        ("fetchPricingData"@, bool_text(fetch_pricing_data)),
    ]
}

/// The query string of `v1/finance/lookup`.
pub fn lookup_query(query: &str, kind: LookupType, count: usize, fetch_pricing_data: bool) -> (r:
    Vec<(String, String)>)
    ensures
        query_view(r@) == lookup_params(query@, kind, count as nat, fetch_pricing_data),
{
    let mut q: Vec<(String, String)> = Vec::new();
    push_param(&mut q, "query", query.to_string());
    push_param(&mut q, "type", kind.as_str().to_string());
    push_param(&mut q, "count", u64_text(count as u64));
    push_param(&mut q, "formatted", "false".to_string());
    push_param(&mut q, "lang", "en-US".to_string());
    push_param(&mut q, "region", "US".to_string());
    push_param(&mut q, "fetchPricingData", bool_str(fetch_pricing_data).to_string());
    assert(query_view(q@) =~= lookup_params(query@, kind, count as nat, fetch_pricing_data));
    q
}

/// Label of a recorded lookup response: the category, `_`, and the query
/// made filename-safe.
pub fn lookup_label(kind: LookupType, query: &str) -> (r: String)
    ensures
        r@ == lookup_type_text(kind) + "_"@ + spec_safe_label(query@),
{
    let mut s = kind.as_str().to_string();
    s.append("_");
    let l = safe_label(query);
    s.append(l.as_str());
    s
}

/// Query of a search request.
pub open spec fn search_params(
    query: Seq<char>,
    max_results: nat,
    news_count: nat,
    fuzzy: bool,
) -> Seq<(Seq<char>, Seq<char>)> {
    seq![
        ("q"@, query),
        ("quotesCount"@, decimal(max_results)),
        ("newsCount"@, decimal(news_count)),
        ("enableFuzzyQuery"@, bool_text(fuzzy)),
        ("lang"@, "en-US"@),
        ("region"@, "US"@),
    ]
}

/// The query string of `v1/finance/search`.
pub fn search_query(query: &str, max_results: usize, news_count: usize, fuzzy: bool) -> (r: Vec<
    (String, String),
>)
    ensures
        query_view(r@) == search_params(query@, max_results as nat, news_count as nat, fuzzy),
{
    let mut q: Vec<(String, String)> = Vec::new();
    push_param(&mut q, "q", query.to_string());
    push_param(&mut q, "quotesCount", u64_text(max_results as u64));
    push_param(&mut q, "newsCount", u64_text(news_count as u64));
    push_param(&mut q, "enableFuzzyQuery", bool_str(fuzzy).to_string());
    push_param(&mut q, "lang", "en-US".to_string());
    push_param(&mut q, "region", "US".to_string());
    assert(query_view(q@) =~= search_params(query@, max_results as nat, news_count as nat, fuzzy));
    q
}

/// Settings of a search request.
#[derive(Debug, Clone)]
pub struct SearchParams {
    /// The text searched for.
    pub query: String,
    /// Quote matches to return.
    pub max_results: usize,
    /// News articles to return.
    pub news_count: usize,
    /// Fuzzy matching.
    pub enable_fuzzy: bool,
}

impl SearchParams {
    /// A search for `query`: 10 quotes, 5 articles, fuzzy matching on.
    pub fn new(query: String) -> (r: SearchParams)
        ensures
            r.query == query,
            r.max_results == 10,
            r.news_count == 5,
            r.enable_fuzzy,
    {
        SearchParams { query, max_results: 10, news_count: 5, enable_fuzzy: true }
    }

    /// The query string of the search.
    pub fn query_string(&self) -> (r: Vec<(String, String)>)
        ensures
            query_view(r@) == search_params(
                self.query@,
                self.max_results as nat,
                self.news_count as nat,
                self.enable_fuzzy,
            ),
    {
        search_query(self.query.as_str(), self.max_results, self.news_count, self.enable_fuzzy)
    }
}

/// Settings of a lookup request.
#[derive(Debug, Clone)]
pub struct LookupParams {
    /// The text looked up.
    pub query: String,
    /// Category of records.
    pub kind: LookupType,
    /// Rows to return.
    pub count: usize,
    /// Attach last prices.
    pub fetch_pricing_data: bool,
}

impl LookupParams {
    /// A lookup of `query`: all categories, 25 rows, with prices.
    pub fn new(query: String) -> (r: LookupParams)
        ensures
            r.query == query,
            r.kind == LookupType::All,
            r.count == 25,
            r.fetch_pricing_data,
    {
        LookupParams { query, kind: LookupType::All, count: 25, fetch_pricing_data: true }
    }

    /// The query string of the lookup.
    pub fn query_string(&self) -> (r: Vec<(String, String)>)
        ensures
            query_view(r@) == lookup_params(
                self.query@,
                self.kind,
                self.count as nat,
                self.fetch_pricing_data,
            ),
    {
        lookup_query(self.query.as_str(), self.kind, self.count, self.fetch_pricing_data)
    }

    /// The label its recorded response is filed under.
    pub fn label(&self) -> (r: String)
        ensures
            r@ == lookup_type_text(self.kind) + "_"@ + spec_safe_label(self.query@),
    {
        lookup_label(self.kind, self.query.as_str())
    }
}

/// Settings of a news request.
#[derive(Debug, Clone)]
pub struct NewsParams {
    /// The symbol whose news is asked for.
    pub symbol: String,
    /// Articles to request.
    pub count: u32,
    /// News category.
    pub tab: NewsTab,
}

impl NewsParams {
    /// News of `symbol`: 10 articles of the latest-news tab.
    pub fn new(symbol: String) -> (r: NewsParams)
        ensures
            r.symbol == symbol,
            r.count == 10,
            r.tab == NewsTab::LatestNews,
    {
        NewsParams { symbol, count: 10, tab: NewsTab::LatestNews }
    }
}

/// Path of the news request for a tab.
pub fn news_path(tab: NewsTab) -> (r: String)
    ensures
        r@ == "/xhr/ncp?queryRef="@ + tab_query_ref(tab) + "&serviceKey=ncp_fin"@,
{
    let mut s = "/xhr/ncp?queryRef=".to_string();
    s.append(tab.as_query_ref());
    s.append("&serviceKey=ncp_fin");
    s
}

/// Label of a recorded news response.
pub fn news_label(tab: NewsTab) -> (r: String)
    ensures
        r@ == "news_"@ + tab_query_ref(tab),
{
    let mut s = "news_".to_string();
    s.append(tab.as_query_ref());
    s
}

/// Label of a recorded batch-quote response: the symbol itself for one
/// symbol, `MULTI_` and the count otherwise.
pub open spec fn batch_label_text(symbols: Seq<Seq<char>>) -> Seq<char> {
    if symbols.len() == 1 {
        symbols[0]
    } else {
        "MULTI_"@ + decimal(symbols.len())
    }
}

/// The `symbols` parameter and the fixture label of a batch quote request.
pub fn batch_quote_query(symbols: &[&str]) -> (r: (Vec<(String, String)>, String))
    ensures
        query_view(r.0@) == seq![("symbols"@, join_with(strs_view(symbols@), ','))],
        r.1@ == batch_label_text(strs_view(symbols@)),
{
    let mut q: Vec<(String, String)> = Vec::new();
    push_param(&mut q, "symbols", join_strs(symbols, ','));
    let label = if symbols.len() == 1 {
        symbols[0].to_string()
    } else {
        let mut s = "MULTI_".to_string();
        let n = u64_text(symbols.len() as u64);
        s.append(n.as_str());
        s
    };
    assert(query_view(q@) =~= seq![("symbols"@, join_with(strs_view(symbols@), ','))]);
    (q, label)
}

/// Query of a `quoteSummary` request for the comma-separated `modules`.
pub open spec fn quote_summary_params(modules: Seq<char>) -> Seq<(Seq<char>, Seq<char>)> {
    seq![
        ("modules"@, modules),
        ("formatted"@, "false"@),
        ("lang"@, "en-US"@),
        ("region"@, "US"@),
    ]
}

/// The query string of `v10/finance/quoteSummary` for `modules`.
pub fn quote_summary_query(modules: &[&str]) -> (r: Vec<(String, String)>)
    ensures
        query_view(r@) == quote_summary_params(join_with(strs_view(modules@), ',')),
{
    let mut q: Vec<(String, String)> = Vec::new();
    push_param(&mut q, "modules", join_strs(modules, ','));
    push_param(&mut q, "formatted", "false".to_string());
    push_param(&mut q, "lang", "en-US".to_string());
    push_param(&mut q, "region", "US".to_string());
    assert(query_view(q@) =~= quote_summary_params(join_with(strs_view(modules@), ',')));
    q
}

/// Seconds in the 548-day (about 18-month) window of a share-count request.
pub const SHARES_WINDOW_SECS: i64 = 47_347_200;

/// The metric of a share-count request.
pub open spec fn shares_type_text(quarterly: bool) -> Seq<char> {
    if quarterly {
        "quarterlyBasicAverageShares"@
    } else {
        "annualBasicAverageShares"@
    }
}

/// The metric of a share-count request.
pub fn shares_type(quarterly: bool) -> (r: &'static str)
    ensures
        r@ == shares_type_text(quarterly),
{
    if quarterly {
        "quarterlyBasicAverageShares"
    } else {
        "annualBasicAverageShares"
    }
}

/// Query of a share-count request for the window ending at `now`.
pub open spec fn shares_params(symbol: Seq<char>, quarterly: bool, now: int) -> Seq<
    (Seq<char>, Seq<char>),
> {
    seq![
        ("symbol"@, symbol),
        ("type"@, shares_type_text(quarterly)),
        ("period1"@, signed_decimal(now - SHARES_WINDOW_SECS)),
        ("period2"@, signed_decimal(now)),
    ]
}

/// The query string of a share-count timeseries request whose window ends
/// at `now` (UNIX seconds).
pub fn shares_query_at(symbol: &str, quarterly: bool, now: i64) -> (r: Vec<(String, String)>)
    requires
        now >= i64::MIN + SHARES_WINDOW_SECS,
    ensures
        query_view(r@) == shares_params(symbol@, quarterly, now as int),
{
    let start = now - SHARES_WINDOW_SECS;
    let mut q: Vec<(String, String)> = Vec::new();
    push_param(&mut q, "symbol", symbol.to_string());
    push_param(&mut q, "type", shares_type(quarterly).to_string());
    push_param(&mut q, "period1", i64_text(start));
    push_param(&mut q, "period2", i64_text(now));
    assert(query_view(q@) =~= shares_params(symbol@, quarterly, now as int));
    q
}

/// The query string of a share-count request whose window ends at `now`;
/// `None` when `now` is so early that the window's start is not a
/// representable time.
pub fn shares_query_checked(symbol: &str, quarterly: bool, now: i64) -> (r: Option<
    Vec<(String, String)>,
>)
    ensures
        r is Some <==> now >= i64::MIN + SHARES_WINDOW_SECS,
        r matches Some(q) ==> query_view(q@) == shares_params(symbol@, quarterly, now as int),
{
    if now >= i64::MIN + SHARES_WINDOW_SECS {
        Some(shares_query_at(symbol, quarterly, now))
    } else {
        None
    }
}

/// The query string of a share-count request whose window ends now;
/// `None` when the clock reads so early that the window's start is not a
/// representable time.
pub fn shares_query(symbol: &str, quarterly: bool) -> (r: Option<Vec<(String, String)>>)
    ensures
        exists|now: i64|
            #![trigger shares_params(symbol@, quarterly, now as int)]
            if now >= i64::MIN + SHARES_WINDOW_SECS {
                r matches Some(q) && query_view(q@) == shares_params(symbol@, quarterly, now as int)
            } else {
                r is None
            },
{
    let now = unix_now();
    let r = shares_query_checked(symbol, quarterly, now);
    assert(shares_params(symbol@, quarterly, now as int).len() == 4);
    r
}

/// Prefix of the metric names of a period: `quarterly` or `annual`.
pub open spec fn period_prefix(quarterly: bool) -> Seq<char> {
    if quarterly {
        "quarterly"@
    } else {
        "annual"@
    }
}

/// Each key behind the prefix.
pub open spec fn prefixed(prefix: Seq<char>, keys: Seq<Seq<char>>) -> Seq<Seq<char>> {
    keys.map_values(|k: Seq<char>| prefix + k)
}

/// The `type` parameter of a timeseries request: every metric of the
/// statement, prefixed by its period, separated by commas.
pub fn timeseries_types(kind: FundamentalsKind, quarterly: bool) -> (r: String)
    ensures
        r@ == join_with(prefixed(period_prefix(quarterly), kind_keys(kind)), ','),
{
    let prefix: &str = if quarterly {
        "quarterly"
    } else {
        "annual"
    };
    let keys = kind.keys();
    let ghost ks = strs_view(keys@);
    let ghost parts = prefixed(prefix@, ks);
    let mut out: Vec<char> = Vec::new();
    let mut i: usize = 0;
    while i < keys.len()
        invariant
            i <= keys@.len(),
            ks == strs_view(keys@),
            parts == prefixed(prefix@, ks),
            out@ == join_with(parts.take(i as int), ','),
        decreases keys@.len() - i,
    {
        if i > 0 {
            out.push(',');
        }
        let ghost start = out@;
        let mut piece = prefix.to_string();
        piece.append(keys[i]);
        for c in it: piece.as_str().chars()
            invariant
                it.seq() == piece@,
                out@ == start + it.seq().take(it.index() as int),
        {
            out.push(c);
            assert(out@ =~= start + it.seq().take(it.index() + 1));
        }
        assert(out@ =~= start + piece@);
        assert(parts.take(i + 1).drop_last() =~= parts.take(i as int));
        assert(parts[i as int] == prefix@ + ks[i as int]);
        if i == 0 {
            assert(out@ =~= parts.take(1)[0]);
        }
        i += 1;
    }
    assert(parts.take(keys@.len() as int) =~= parts);
    string_of(&out)
}

/// Query of a timeseries request ending at `now`.
pub open spec fn timeseries_params(
    symbol: Seq<char>,
    kind: FundamentalsKind,
    quarterly: bool,
    now: int,
) -> Seq<(Seq<char>, Seq<char>)> {
    seq![
        ("symbol"@, symbol),
        ("type"@, join_with(prefixed(period_prefix(quarterly), kind_keys(kind)), ',')),
        ("period1"@, "493590046"@),
        ("period2"@, signed_decimal(now)),
        ("merge"@, "false"@),
        ("padTimeSeries"@, "true"@),
        ("lang"@, "en-US"@),
        ("region"@, "US"@),
    ]
}

/// The query string of the fundamentals timeseries request, for a window
/// ending at `now` (UNIX seconds).
pub fn timeseries_query_at(symbol: &str, kind: FundamentalsKind, quarterly: bool, now: i64) -> (r:
    Vec<(String, String)>)
    ensures
        query_view(r@) == timeseries_params(symbol@, kind, quarterly, now as int),
{
    let mut q: Vec<(String, String)> = Vec::new();
    push_param(&mut q, "symbol", symbol.to_string());
    push_param(&mut q, "type", timeseries_types(kind, quarterly));
    // The window starts on 1985-08-14.
    push_param(&mut q, "period1", "493590046".to_string());
    push_param(&mut q, "period2", i64_text(now));
    push_param(&mut q, "merge", "false".to_string());
    push_param(&mut q, "padTimeSeries", "true".to_string());
    push_param(&mut q, "lang", "en-US".to_string());
    push_param(&mut q, "region", "US".to_string());
    assert(query_view(q@) =~= timeseries_params(symbol@, kind, quarterly, now as int));
    q
}

/// `Utc::now().timestamp()` of chrono: the current UNIX time in seconds.
#[verifier::external_body]
pub(crate) fn unix_now() -> i64 {
    chrono::Utc::now().timestamp()
}

/// The query string of the fundamentals timeseries request, for a window
/// ending now.
pub fn timeseries_query(symbol: &str, kind: FundamentalsKind, quarterly: bool) -> (r: Vec<
    (String, String),
>)
    ensures
        exists|now: i64| query_view(r@) == timeseries_params(symbol@, kind, quarterly, now as int),
{
    let now = unix_now();
    timeseries_query_at(symbol, kind, quarterly, now)
}

} // verus!

verus! {

// ------------------------------------------------------------------
// Paths and JSON bodies
// ------------------------------------------------------------------

/// Bytes left as they are in a path segment (RFC 3986 unreserved).
pub open spec fn unreserved(b: u8) -> bool {
    (0x30 <= b <= 0x39) || (0x41 <= b <= 0x5a) || (0x61 <= b <= 0x7a) || b == 0x2d || b == 0x2e
        || b == 0x5f || b == 0x7e
}

/// Upper-case hexadecimal digit of `d < 16`.
pub open spec fn hex_upper(d: int) -> char {
    if d < 10 {
        (d + 48) as char
    } else {
        (d + 55) as char
    }
}

/// One byte of a path segment: itself when unreserved, `%XX` otherwise.
pub open spec fn encode_byte(b: u8) -> Seq<char> {
    if unreserved(b) {
        seq![b as char]
    } else {
        seq!['%', hex_upper(b as int / 16), hex_upper(b as int % 16)]
    }
}

/// The percent-encoding of a byte string.
pub open spec fn percent_encoded(bs: Seq<u8>) -> Seq<char>
    decreases bs.len(),
{
    if bs.len() == 0 {
        Seq::empty()
    } else {
        percent_encoded(bs.drop_last()) + encode_byte(bs.last())
    }
}

fn hex_digit_upper(d: u8) -> (r: char)
    requires
        d < 16,
    ensures
        r == hex_upper(d as int),
{
    if d < 10 {
        (48u8 + d) as char
    } else {
        (55u8 + d) as char
    }
}

/// A symbol as one path segment: its UTF-8 bytes, each unreserved byte kept
/// and every other written `%XX`.
pub fn path_segment(s: &str) -> (r: String)
    ensures
        r@ == percent_encoded(s.spec_bytes()),
{
    let bytes = s.as_bytes();
    let mut out: Vec<char> = Vec::new();
    let mut i: usize = 0;
    while i < bytes.len()
        invariant
            i <= bytes@.len(),
            bytes@ == s.spec_bytes(),
            out@ == percent_encoded(bytes@.take(i as int)),
        decreases bytes@.len() - i,
    {
        let b = bytes[i];
        let ghost before = out@;
        if (0x30 <= b && b <= 0x39) || (0x41 <= b && b <= 0x5a) || (0x61 <= b && b <= 0x7a)
            || b == 0x2d || b == 0x2e || b == 0x5f || b == 0x7e {
            out.push(b as char);
        } else {
            out.push('%');
            out.push(hex_digit_upper(b / 16));
            out.push(hex_digit_upper(b % 16));
        }
        assert(bytes@.take(i + 1).drop_last() =~= bytes@.take(i as int));
        assert(out@ =~= before + encode_byte(bytes@[i as int]));
        i += 1;
    }
    assert(bytes@.take(bytes@.len() as int) =~= bytes@);
    string_of(&out)
}

/// `prefix` followed by the symbol as a path segment.
pub fn symbol_path(prefix: &str, symbol: &str) -> (r: String)
    ensures
        r@ == prefix@ + percent_encoded(symbol.spec_bytes()),
{
    let mut p = prefix.to_string();
    let seg = path_segment(symbol);
    p.append(seg.as_str());
    p
}

/// Path of the chart (price history) request of a symbol.
pub fn chart_path(symbol: &str) -> (r: String)
    ensures
        r@ == "/v8/finance/chart/"@ + percent_encoded(symbol.spec_bytes()),
{
    symbol_path("/v8/finance/chart/", symbol)
}

/// Path of the `quoteSummary` request of a symbol.
pub fn quote_summary_path(symbol: &str) -> (r: String)
    ensures
        r@ == "/v10/finance/quoteSummary/"@ + percent_encoded(symbol.spec_bytes()),
{
    symbol_path("/v10/finance/quoteSummary/", symbol)
}

/// Path of the options request of a symbol.
pub fn options_path(symbol: &str) -> (r: String)
    ensures
        r@ == "/v7/finance/options/"@ + percent_encoded(symbol.spec_bytes()),
{
    symbol_path("/v7/finance/options/", symbol)
}

/// Path of the fundamentals timeseries request of a symbol.
pub fn timeseries_path(symbol: &str) -> (r: String)
    ensures
        r@ == "/ws/fundamentals-timeseries/v1/finance/timeseries/"@ + percent_encoded(
            symbol.spec_bytes(),
        ),
{
    symbol_path("/ws/fundamentals-timeseries/v1/finance/timeseries/", symbol)
}

/// Lower-case hexadecimal digit of `d < 16`.
pub open spec fn hex_lower(d: int) -> char {
    if d < 10 {
        (d + 48) as char
    } else {
        (d + 87) as char
    }
}

/// One character of a JSON string literal as `serde_json` writes it: `"`
/// and `\\` escaped, the short escapes of backspace, tab, line feed, form
/// feed and carriage return, `\\u00XX` for the other control characters, any
/// other character as itself.
pub open spec fn json_escape(c: char) -> Seq<char> {
    let u = c as u32;
    if c == '"' {
        seq!['\\', '"']
    } else if c == '\\' {
        seq!['\\', '\\']
    } else if u == 8 {
        seq!['\\', 'b']
    } else if u == 9 {
        seq!['\\', 't']
    } else if u == 10 {
        seq!['\\', 'n']
    } else if u == 12 {
        seq!['\\', 'f']
    } else if u == 13 {
        seq!['\\', 'r']
    } else if u < 32 {
        seq!['\\', 'u', '0', '0', hex_lower((u / 16) as int), hex_lower((u % 16) as int)]
    } else {
        seq![c]
    }
}

/// The escaped characters of `s`.
pub open spec fn json_escaped(s: Seq<char>) -> Seq<char>
    decreases s.len(),
{
    if s.len() == 0 {
        Seq::empty()
    } else {
        json_escaped(s.drop_last()) + json_escape(s.last())
    }
}

/// `s` as a JSON string literal.
pub open spec fn json_quoted(s: Seq<char>) -> Seq<char> {
    seq!['"'] + json_escaped(s) + seq!['"']
}

fn hex_digit_lower(d: u32) -> (r: char)
    requires
        d < 16,
    ensures
        r == hex_lower(d as int),
{
    let b: u8 = d as u8;
    if b < 10 {
        (48u8 + b) as char
    } else {
        (87u8 + b) as char
    }
}

/// `s` written as a JSON string literal (`serde_json::to_string` of a `str`).
pub fn json_string(s: &str) -> (r: String)
    ensures
        r@ == json_quoted(s@),
{
    let v = chars_of(s);
    let mut out: Vec<char> = Vec::new();
    out.push('"');
    let mut i: usize = 0;
    while i < v.len()
        invariant
            i <= v@.len(),
            out@ == seq!['"'] + json_escaped(v@.take(i as int)),
        decreases v@.len() - i,
    {
        let c = v[i];
        let u = c as u32;
        let ghost before = out@;
        if c == '"' {
            out.push('\\');
            out.push('"');
        } else if c == '\\' {
            out.push('\\');
            out.push('\\');
        } else if u == 8 {
            out.push('\\');
            out.push('b');
        } else if u == 9 {
            out.push('\\');
            out.push('t');
        } else if u == 10 {
            out.push('\\');
            out.push('n');
        } else if u == 12 {
            out.push('\\');
            out.push('f');
        } else if u == 13 {
            out.push('\\');
            out.push('r');
        } else if u < 32 {
            out.push('\\');
            out.push('u');
            out.push('0');
            out.push('0');
            out.push(hex_digit_lower(u / 16));
            out.push(hex_digit_lower(u % 16));
        } else {
            out.push(c);
        }
        assert(v@.take(i + 1).drop_last() =~= v@.take(i as int));
        assert(v@[i as int] == c);
        assert(out@ =~= before + json_escape(c));
        i += 1;
    }
    out.push('"');
    assert(v@.take(v@.len() as int) =~= v@);
    assert(out@ =~= json_quoted(s@));
    string_of(&out)
}

/// The body of a news request: `count` articles of `symbol`.
pub open spec fn news_payload_text(count: nat, symbol: Seq<char>) -> Seq<char> {
    "{\"serviceConfig\":{\"snippetCount\":"@ + decimal(count) + ",\"s\":["@ + json_quoted(symbol)
        + "]}}"@
}

/// The JSON body of a news request.
pub fn news_payload(count: u32, symbol: &str) -> (r: String)
    ensures
        r@ == news_payload_text(count as nat, symbol@),
{
    let mut s = "{\"serviceConfig\":{\"snippetCount\":".to_string();
    let n = u64_text(count as u64);
    s.append(n.as_str());
    s.append(",\"s\":[");
    let q = json_string(symbol);
    s.append(q.as_str());
    s.append("]}}");
    s
}

} // verus!
