//! Company / fund profile from the `quoteSummary` modules `assetProfile`,
//! `quoteType` and `fundProfile`, with the quote-page scrape as fallback.
//!
//! Yahoo splits profile data across two modules — `assetProfile` for equities,
//! `fundProfile` for ETFs and mutual funds — discriminated by `quoteType`.
//! [`Profile`] is the union.

use vstd::prelude::*;
use vstd::string::StringSliceAdditionalSpecFns;

use crate::error::YfError;
use crate::text::{
    chars_eq, chars_of, find, find_chars_from, rfind_char, rfind_char_below, skip_ws,
    string_of, sub_chars, trim, trim_bounds, trim_chars,
};

verus! {

/// Mailing address fields from `assetProfile`.
#[derive(Debug, Clone, Default, PartialEq, Eq)]
pub struct Address {
    /// First street line.
    pub street1: Option<String>,
    /// Second street line.
    pub street2: Option<String>,
    /// City.
    pub city: Option<String>,
    /// State / region code.
    pub state: Option<String>,
    /// Country.
    pub country: Option<String>,
    /// ZIP / postal code.
    pub zip: Option<String>,
}

/// Profile of a publicly traded company (`quoteType == "EQUITY"`).
#[derive(Debug, Clone, PartialEq, Eq)]
pub struct CompanyProfile {
    /// Display name (long, falling back to short).
    pub name: String,
    /// Industry sector.
    pub sector: Option<String>,
    /// Industry within the sector.
    pub industry: Option<String>,
    /// Investor-relations website.
    pub website: Option<String>,
    /// Long-form business description.
    pub summary: Option<String>,
    /// Headquarters address.
    pub address: Address,
    /// ISIN as reported by `assetProfile`. Not all equities expose it here.
    pub isin: Option<String>,
}

/// Profile of a fund (`quoteType` ∈ {`"ETF"`, `"MUTUALFUND"`}).
#[derive(Debug, Clone, PartialEq, Eq)]
pub struct FundProfile {
    /// Display name.
    pub name: String,
    /// Fund family / sponsor.
    pub family: Option<String>,
    /// Legal type (`"Open End Fund"`, `"Exchange Traded Fund"`, …).
    pub legal_type: Option<String>,
    /// ISIN as reported by `fundProfile`.
    pub isin: Option<String>,
}

/// Profile of a ticker.
///
/// `Other` covers the long tail (`INDEX`, `CURRENCY`, `FUTURE`, …) where
/// neither the company nor the fund modules carry useful data.
#[derive(Debug, Clone, PartialEq, Eq)]
pub enum Profile {
    /// Equity / company.
    Company(CompanyProfile),
    /// ETF / mutual fund.
    Fund(FundProfile),
    /// Anything else Yahoo classifies the symbol as.
    Other {
        /// Display name.
        name: String,
        /// Quote type (`"INDEX"`, `"CURRENCY"`, …).
        quote_type: String,
    },
}

/// The display name of a profile, whatever its kind.
pub open spec fn profile_name(p: Profile) -> Seq<char> {
    match p {
        Profile::Company(c) => c.name@,
        Profile::Fund(f) => f.name@,
        Profile::Other { name, .. } => name@,
    }
}

impl Profile {
    /// Display name regardless of variant.
    pub fn name(&self) -> (r: &str)
        ensures
            r@ == profile_name(*self),
    {
        match self {
            Profile::Company(c) => c.name.as_str(),
            Profile::Fund(f) => f.name.as_str(),
            Profile::Other { name, .. } => name.as_str(),
        }
    }
}

/// The `assetProfile` (or scraped `summaryProfile`) module.
#[derive(Debug, Clone, PartialEq, Eq)]
pub struct AssetProfileNode {
    pub address1: Option<String>,
    pub address2: Option<String>,
    pub city: Option<String>,
    pub state: Option<String>,
    pub country: Option<String>,
    pub zip: Option<String>,
    pub sector: Option<String>,
    pub industry: Option<String>,
    pub website: Option<String>,
    /// `longBusinessSummary`.
    pub long_business_summary: Option<String>,
    pub isin: Option<String>,
}

/// The `fundProfile` module.
#[derive(Debug, Clone, PartialEq, Eq)]
pub struct FundProfileNode {
    /// `legalType`.
    pub legal_type: Option<String>,
    pub family: Option<String>,
    pub isin: Option<String>,
}

/// The `quoteType` module (also the scraped `quoteType` object).
#[derive(Debug, Clone, PartialEq, Eq)]
pub struct QuoteTypeNode {
    /// `quoteType` (`EQUITY`, `ETF`, …).
    pub quote_type: Option<String>,
    /// `longName`.
    pub long_name: Option<String>,
    /// `shortName`.
    pub short_name: Option<String>,
}

/// The modules of a `quoteSummary` profile reply.
#[derive(Debug, Clone, PartialEq, Eq)]
pub struct ProfileModules {
    /// `assetProfile`.
    pub asset_profile: Option<AssetProfileNode>,
    /// `fundProfile`.
    pub fund_profile: Option<FundProfileNode>,
    /// `quoteType`.
    pub quote_type: Option<QuoteTypeNode>,
}

/// `QuoteSummaryStore` of the JSON embedded in the quote page.
#[derive(Debug, Clone, PartialEq, Eq)]
pub struct QuoteSummaryStore {
    /// `quoteType`.
    pub quote_type: Option<QuoteTypeNode>,
    /// `summaryProfile`.
    pub summary_profile: Option<AssetProfileNode>,
    /// `fundProfile`.
    pub fund_profile: Option<FundProfileNode>,
}

/// `stores` of the embedded JSON.
#[derive(Debug, Clone, PartialEq, Eq)]
pub struct Stores {
    /// `QuoteSummaryStore`.
    pub quote_summary_store: Option<QuoteSummaryStore>,
}

/// `dispatcher` of the embedded JSON.
#[derive(Debug, Clone, PartialEq, Eq)]
pub struct Dispatch {
    pub stores: Option<Stores>,
}

/// `context` of the embedded JSON.
#[derive(Debug, Clone, PartialEq, Eq)]
pub struct Ctx {
    pub dispatcher: Option<Dispatch>,
}

/// The JSON embedded in the quote page.
#[derive(Debug, Clone, PartialEq, Eq)]
pub struct Bootstrap {
    pub context: Option<Ctx>,
}

/// `context.dispatcher.stores.QuoteSummaryStore`, when every level is present.
pub open spec fn boot_store(b: Bootstrap) -> Option<QuoteSummaryStore> {
    match b.context {
        Some(Ctx { dispatcher: Some(Dispatch { stores: Some(Stores { quote_summary_store: s }) }) }) => s,
        _ => None,
    }
}

/// An asset profile with every field absent (`Default`).
pub fn empty_asset_profile() -> (r: AssetProfileNode)
    ensures
        r == (AssetProfileNode {
            address1: None,
            address2: None,
            city: None,
            state: None,
            country: None,
            zip: None,
            sector: None,
            industry: None,
            website: None,
            long_business_summary: None,
            isin: None,
        }),
{
    AssetProfileNode {
        address1: None,
        address2: None,
        city: None,
        state: None,
        country: None,
        zip: None,
        sector: None,
        industry: None,
        website: None,
        long_business_summary: None,
        isin: None,
    }
}

/// A fund profile with every field absent (`Default`).
pub fn empty_fund_profile() -> (r: FundProfileNode)
    ensures
        r == (FundProfileNode { legal_type: None, family: None, isin: None }),
{
    FundProfileNode { legal_type: None, family: None, isin: None }
}

/// Display name: the long name, else the short name, else the symbol.
pub open spec fn display_name(q: Option<QuoteTypeNode>, symbol: Seq<char>) -> Seq<char> {
    match q {
        Some(q) => match q.long_name {
            Some(n) => n@,
            None => match q.short_name {
                Some(n) => n@,
                None => symbol,
            },
        },
        None => symbol,
    }
}

/// The company profile built from an asset-profile module.
pub open spec fn company_from(name: Seq<char>, p: AssetProfileNode, c: CompanyProfile) -> bool {
    &&& c.name@ == name
    &&& c.sector == p.sector
    &&& c.industry == p.industry
    &&& c.website == p.website
    &&& c.summary == p.long_business_summary
    &&& c.address == (Address {
        street1: p.address1,
        street2: p.address2,
        city: p.city,
        state: p.state,
        country: p.country,
        zip: p.zip,
    })
    &&& c.isin == p.isin
}

/// The fund profile built from a fund-profile module.
pub open spec fn fund_from(name: Seq<char>, p: FundProfileNode, f: FundProfile) -> bool {
    &&& f.name@ == name
    &&& f.family == p.family
    &&& f.legal_type == p.legal_type
    &&& f.isin == p.isin
}

/// A company profile (from [`profile_from_v10`] or [`profile_from_scrape`])
/// carries each field of the asset profile into the field of the same name:
/// street lines, city, state, country and zip into its address, and sector,
/// industry, website, business summary and ISIN as they are.
pub proof fn company_keeps_asset_fields(name: Seq<char>, p: AssetProfileNode, c: CompanyProfile)
    requires
        company_from(name, p, c),
    ensures
        c.name@ == name,
        c.address.street1 == p.address1,
        c.address.street2 == p.address2,
        c.address.city == p.city,
        c.address.state == p.state,
        c.address.country == p.country,
        c.address.zip == p.zip,
        c.sector == p.sector,
        c.industry == p.industry,
        c.website == p.website,
        c.summary == p.long_business_summary,
        c.isin == p.isin,
{
}

/// A fund profile carries the fund profile's family, legal type and ISIN
/// into the fields of the same name.
pub proof fn fund_keeps_profile_fields(name: Seq<char>, p: FundProfileNode, f: FundProfile)
    requires
        fund_from(name, p, f),
    ensures
        f.name@ == name,
        f.family == p.family,
        f.legal_type == p.legal_type,
        f.isin == p.isin,
{
}

fn name_of(q: &Option<QuoteTypeNode>, symbol: &str) -> (r: String)
    ensures
        r@ == display_name(*q, symbol@),
{
    match q {
        Some(q) => match &q.long_name {
            Some(n) => n.clone(),
            None => match &q.short_name {
                Some(n) => n.clone(),
                None => symbol.to_string(),
            },
        },
        None => symbol.to_string(),
    }
}

fn company(name: String, p: AssetProfileNode) -> (r: CompanyProfile)
    ensures
        company_from(name@, p, r),
{
    CompanyProfile {
        name,
        sector: p.sector,
        industry: p.industry,
        website: p.website,
        summary: p.long_business_summary,
        address: Address {
            street1: p.address1,
            street2: p.address2,
            city: p.city,
            state: p.state,
            country: p.country,
            zip: p.zip,
        },
        isin: p.isin,
    }
}

fn fund(name: String, p: FundProfileNode) -> (r: FundProfile)
    ensures
        fund_from(name@, p, r),
{
    FundProfile { name, family: p.family, legal_type: p.legal_type, isin: p.isin }
}

fn is_fund_kind(k: &Vec<char>) -> (r: bool)
    ensures
        r == (k@ == "ETF"@ || k@ == "MUTUALFUND"@),
{
    chars_eq(k, &chars_of("ETF")) || chars_eq(k, &chars_of("MUTUALFUND"))
}

/// The quote type a `quoteType` module reports (empty when absent).
pub open spec fn reported_kind(q: Option<QuoteTypeNode>) -> Seq<char> {
    match q {
        Some(q) => match q.quote_type {
            Some(k) => k@,
            None => Seq::empty(),
        },
        None => Seq::empty(),
    }
}

/// The profile that `quoteSummary` modules give: a company for an equity with
/// an asset profile, a fund for an ETF or mutual fund with a fund profile,
/// another kind by its name; none without a quote type or the profile its
/// kind needs.
pub open spec fn v10_profile(symbol: Seq<char>, result: ProfileModules, r: Option<Profile>) -> bool {
    let kind = reported_kind(result.quote_type);
    let name = display_name(result.quote_type, symbol);
    if kind == "EQUITY"@ {
        match result.asset_profile {
            Some(p) => r matches Some(Profile::Company(c)) && company_from(name, p, c),
            None => r is None,
        }
    } else if kind == "ETF"@ || kind == "MUTUALFUND"@ {
        match result.fund_profile {
            Some(p) => r matches Some(Profile::Fund(f)) && fund_from(name, p, f),
            None => r is None,
        }
    } else if kind.len() == 0 {
        r is None
    } else {
        r matches Some(Profile::Other { name: n, quote_type: k }) && n@ == name && k@ == kind
    }
}

/// An equity's profile built from `quoteSummary` modules is a company whose
/// address holds the asset profile's street lines, city, state, country and
/// zip, each in the field of the same name.
pub proof fn equity_profile_keeps_address(
    symbol: Seq<char>,
    result: ProfileModules,
    r: Option<Profile>,
    p: AssetProfileNode,
)
    requires
        v10_profile(symbol, result, r),
        reported_kind(result.quote_type) == "EQUITY"@,
        result.asset_profile == Some(p),
    ensures
        r matches Some(Profile::Company(c)) && {
            &&& c.address.street1 == p.address1
            &&& c.address.street2 == p.address2
            &&& c.address.city == p.city
            &&& c.address.state == p.state
            &&& c.address.country == p.country
            &&& c.address.zip == p.zip
        },
{
}

/// Build a [`Profile`] from the `quoteSummary` modules.
///
/// `None` when the reply names no quote type, or names an equity without an
/// asset profile, or a fund without a fund profile.
pub fn profile_from_v10(symbol: &str, result: ProfileModules) -> (r: Option<Profile>)
    ensures
        v10_profile(symbol@, result, r),
{
    let kind: Vec<char> = match &result.quote_type {
        Some(q) => match &q.quote_type {
            Some(k) => chars_of(k.as_str()),
            None => Vec::new(),
        },
        None => Vec::new(),
    };
    let name = name_of(&result.quote_type, symbol);
    if chars_eq(&kind, &chars_of("EQUITY")) {
        match result.asset_profile {
            Some(p) => Some(Profile::Company(company(name, p))),
            None => None,
        }
    } else if is_fund_kind(&kind) {
        match result.fund_profile {
            Some(p) => Some(Profile::Fund(fund(name, p))),
            None => None,
        }
    } else if kind.len() == 0 {
        None
    } else {
        Some(Profile::Other { name, quote_type: string_of(&kind) })
    }
}

/// The quote type of a scraped store: the reported one, else `EQUITY` when a
/// summary profile is present, else `ETF` when a fund profile is, else empty.
pub open spec fn scraped_kind(s: QuoteSummaryStore) -> Seq<char> {
    match s.quote_type {
        Some(QuoteTypeNode { quote_type: Some(k), .. }) => k@,
        _ => if s.summary_profile is Some {
            "EQUITY"@
        } else if s.fund_profile is Some {
            "ETF"@
        } else {
            Seq::empty()
        },
    }
}

/// Build a [`Profile`] from the JSON embedded in the quote page.
///
/// Fails with [`YfError::TickerMissing`] when the JSON has no
/// `QuoteSummaryStore`. A missing module reads as one with every field absent.
pub fn profile_from_scrape(symbol: &str, boot: Bootstrap) -> (r: Result<Profile, YfError>)
    ensures
        match boot_store(boot) {
            None => r matches Err(YfError::TickerMissing { ticker, reason }) && ticker@ == symbol@
                && reason@ == "scrape JSON missing QuoteSummaryStore"@,
            Some(store) => {
                let kind = scraped_kind(store);
                let name = display_name(store.quote_type, symbol@);
                if kind == "EQUITY"@ {
                    r matches Ok(Profile::Company(c)) && company_from(
                        name,
                        match store.summary_profile {
                            Some(p) => p,
                            None => AssetProfileNode {
                                address1: None,
                                address2: None,
                                city: None,
                                state: None,
                                country: None,
                                zip: None,
                                sector: None,
                                industry: None,
                                website: None,
                                long_business_summary: None,
                                isin: None,
                            },
                        },
                        c,
                    )
                } else if kind == "ETF"@ || kind == "MUTUALFUND"@ {
                    r matches Ok(Profile::Fund(f)) && fund_from(
                        name,
                        match store.fund_profile {
                            Some(p) => p,
                            None => FundProfileNode { legal_type: None, family: None, isin: None },
                        },
                        f,
                    )
                } else {
                    r matches Ok(Profile::Other { name: n, quote_type: k }) && n@ == name && k@
                        == kind
                }
            },
        },
{
    let found = match boot.context {
        Some(Ctx { dispatcher: Some(Dispatch { stores: Some(Stores { quote_summary_store: s }) }) }) => s,
        _ => None,
    };
    let store = match found {
        Some(s) => s,
        None => {
            return Err(
                YfError::TickerMissing {
                    ticker: symbol.to_string(),
                    reason: String::from_str("scrape JSON missing QuoteSummaryStore"),
                },
            );
        },
    };
    let name = name_of(&store.quote_type, symbol);
    let kind: Vec<char> = match &store.quote_type {
        Some(QuoteTypeNode { quote_type: Some(k), .. }) => chars_of(k.as_str()),
        _ => if store.summary_profile.is_some() {
            chars_of("EQUITY")
        } else if store.fund_profile.is_some() {
            chars_of("ETF")
        } else {
            Vec::new()
        },
    };
    if chars_eq(&kind, &chars_of("EQUITY")) {
        let p = match store.summary_profile {
            Some(p) => p,
            None => empty_asset_profile(),
        };
        Ok(Profile::Company(company(name, p)))
    } else if is_fund_kind(&kind) {
        let p = match store.fund_profile {
            Some(p) => p,
            None => empty_fund_profile(),
        };
        Ok(Profile::Fund(fund(name, p)))
    } else {
        Ok(Profile::Other { name, quote_type: string_of(&kind) })
    }
}

} // verus!

verus! {

// ------------------------------------------------------------------
// Locating the JSON embedded in the quote page
// ------------------------------------------------------------------

/// Scan for the brace that closes an object, from position `i` with `depth`
/// braces open, inside a JSON string or not, after a backslash in a string
/// or not. Codes are those of `"` (34), `\` (92), `{` (123) and `}` (125).
pub open spec fn brace_scan(s: Seq<int>, i: int, depth: int, in_str: bool, escape: bool) -> Option<int>
    decreases s.len() - i,
{
    if i < 0 || i >= s.len() {
        None
    } else if in_str {
        if escape {
            brace_scan(s, i + 1, depth, true, false)
        } else if s[i] == 92 {
            brace_scan(s, i + 1, depth, true, true)
        } else if s[i] == 34 {
            brace_scan(s, i + 1, depth, false, false)
        } else {
            brace_scan(s, i + 1, depth, true, false)
        }
    } else if s[i] == 34 {
        brace_scan(s, i + 1, depth, true, escape)
    } else if s[i] == 123 {
        brace_scan(s, i + 1, depth + 1, false, escape)
    } else if s[i] == 125 {
        if depth - 1 == 0 {
            Some(i)
        } else {
            brace_scan(s, i + 1, depth - 1, false, escape)
        }
    } else {
        brace_scan(s, i + 1, depth, false, escape)
    }
}

/// Position of the `}` that closes the `{` at `start`, string contents and
/// escapes inside strings skipped; `None` when `start` holds no `{` or the
/// object is not closed.
pub open spec fn matching_brace(s: Seq<int>, start: int) -> Option<int> {
    if start < 0 || start >= s.len() || s[start] != 123 {
        None
    } else {
        brace_scan(s, start, 0, false, false)
    }
}

/// Scanner state after reading code `c` in state `st` (open braces, inside a
/// string, after a backslash in a string), where `c` does not close the object.
pub open spec fn brace_step(st: (int, bool, bool), c: int) -> (int, bool, bool) {
    let (depth, in_str, escape) = st;
    if in_str {
        if escape {
            (depth, true, false)
        } else if c == 92 {
            (depth, true, true)
        } else if c == 34 {
            (depth, false, false)
        } else {
            (depth, true, false)
        }
    } else if c == 34 {
        (depth, true, escape)
    } else if c == 123 {
        (depth + 1, false, escape)
    } else if c == 125 {
        (depth - 1, false, escape)
    } else {
        (depth, false, escape)
    }
}

/// Scanner state after reading `s[start..k]`.
pub open spec fn brace_state(s: Seq<int>, start: int, k: int) -> (int, bool, bool)
    decreases k - start,
{
    if k <= start {
        (0, false, false)
    } else {
        brace_step(brace_state(s, start, k - 1), s[k - 1])
    }
}

/// Position `j` holds a `}` outside any string that brings the count of open
/// braces, counted from `start`, back to zero.
pub open spec fn closes_at(s: Seq<int>, start: int, j: int) -> bool {
    &&& s[j] == 125
    &&& !brace_state(s, start, j).1
    &&& brace_state(s, start, j).0 == 1
}

/// The least position from `k` on that closes the object opened at `start`.
pub open spec fn first_close(s: Seq<int>, start: int, k: int) -> Option<int>
    decreases s.len() - k,
{
    if k < 0 || k >= s.len() {
        None
    } else if closes_at(s, start, k) {
        Some(k)
    } else {
        first_close(s, start, k + 1)
    }
}

proof fn lemma_scan_is_first_close(s: Seq<int>, start: int, k: int)
    requires
        0 <= start <= k,
    ensures
        brace_scan(s, k, brace_state(s, start, k).0, brace_state(s, start, k).1, brace_state(s, start, k).2)
            == first_close(s, start, k),
    decreases s.len() - k,
{
    if k < s.len() {
        lemma_scan_is_first_close(s, start, k + 1);
        assert(brace_state(s, start, k + 1) == brace_step(brace_state(s, start, k), s[k]));
    }
}

proof fn lemma_first_close_least(s: Seq<int>, start: int, k: int)
    requires
        0 <= k,
    ensures
        first_close(s, start, k) matches Some(i) ==> k <= i < s.len() && closes_at(s, start, i)
            && forall|j: int| k <= j < i ==> !closes_at(s, start, j),
        first_close(s, start, k) is None ==> forall|j: int| k <= j < s.len() ==> !closes_at(s, start, j),
    decreases s.len() - k,
{
    if k < s.len() && !closes_at(s, start, k) {
        lemma_first_close_least(s, start, k + 1);
    }
}

/// The brace matcher finds the least position after an opening `{` where a
/// `}` outside any JSON string (backslash escapes honoured) brings the count
/// of open braces back to zero, and nothing when there is none or `start`
/// holds no `{`.
pub proof fn matching_brace_is_first_close(s: Seq<int>, start: int)
    ensures
        !(0 <= start < s.len() && s[start] == 123) ==> matching_brace(s, start) is None,
        (0 <= start < s.len() && s[start] == 123) ==> {
            &&& matching_brace(s, start) matches Some(i) ==> {
                &&& start < i < s.len()
                &&& s[i] == 125
                &&& closes_at(s, start, i)
                &&& forall|j: int| start <= j < i ==> !closes_at(s, start, j)
            }
            &&& matching_brace(s, start) is None ==> forall|j: int|
                start <= j < s.len() ==> !closes_at(s, start, j)
        },
{
    if 0 <= start < s.len() && s[start] == 123 {
        lemma_scan_is_first_close(s, start, start);
        lemma_first_close_least(s, start, start);
        assert(!closes_at(s, start, start));
    }
}

pub open spec fn byte_codes(b: Seq<u8>) -> Seq<int> {
    b.map_values(|x: u8| x as int)
}

pub open spec fn char_codes(c: Seq<char>) -> Seq<int> {
    c.map_values(|x: char| x as int)
}


/// Find the index of the `}` that closes the `{` at byte `start` of `s`,
/// respecting JSON string escapes.
pub fn find_matching_brace(s: &str, start: usize) -> (r: Option<usize>)
    ensures
        r matches Some(i) ==> matching_brace(byte_codes(s.spec_bytes()), start as int) == Some(
            i as int,
        ),
        r is None ==> matching_brace(byte_codes(s.spec_bytes()), start as int) is None,
{
    let bytes = s.as_bytes();
    let ghost codes = byte_codes(bytes@);
    let n = bytes.len();
    if start >= n || bytes[start] != 123u8 {
        assert(start < n ==> codes[start as int] == bytes@[start as int] as int);
        return None;
    }
    assert(codes[start as int] == 123);
    let mut depth: usize = 0;
    let mut in_str = false;
    let mut escape = false;
    let mut i = start;
    while i < n
        invariant
            n == bytes@.len(),
            codes == byte_codes(bytes@),
            bytes@ == s.spec_bytes(),
            start < n,
            codes[start as int] == 123,
            start <= i <= n,
            0 <= depth <= i - start,
            i == start ==> depth == 0 && !in_str,
            i > start ==> depth >= 1,
            !in_str ==> !escape,
            brace_scan(codes, start as int, 0, false, false) == brace_scan(
                codes,
                i as int,
                depth as int,
                in_str,
                escape,
            ),
        decreases n - i,
    {
        let b = bytes[i];
        assert(codes[i as int] == b as int);
        if in_str {
            if escape {
                escape = false;
            } else if b == 92u8 {
                escape = true;
            } else if b == 34u8 {
                in_str = false;
            }
        } else if b == 34u8 {
            in_str = true;
        } else if b == 123u8 {
            depth += 1;
        } else if b == 125u8 {
            depth -= 1;
            if depth == 0 {
                return Some(i);
            }
        }
        i += 1;
    }
    None
}

fn matching_brace_chars(s: &[char], start: usize) -> (r: Option<usize>)
    ensures
        r matches Some(i) ==> matching_brace(char_codes(s@), start as int) == Some(i as int)
            && start < i < s@.len(),
        r is None ==> matching_brace(char_codes(s@), start as int) is None,
{
    let ghost codes = char_codes(s@);
    let n = s.len();
    if start >= n || s[start] != '{' {
        assert(start < n ==> codes[start as int] == s@[start as int] as int);
        return None;
    }
    assert(codes[start as int] == 123);
    let mut depth: usize = 0;
    let mut in_str = false;
    let mut escape = false;
    let mut i = start;
    while i < n
        invariant
            n == s@.len(),
            codes == char_codes(s@),
            start < n,
            codes[start as int] == 123,
            start <= i <= n,
            0 <= depth <= i - start,
            i == start ==> depth == 0 && !in_str,
            i > start ==> depth >= 1,
            !in_str ==> !escape,
            brace_scan(codes, start as int, 0, false, false) == brace_scan(
                codes,
                i as int,
                depth as int,
                in_str,
                escape,
            ),
        decreases n - i,
    {
        let c = s[i];
        assert(codes[i as int] == c as int);
        if in_str {
            if escape {
                escape = false;
            } else if c == '\\' {
                escape = true;
            } else if c == '"' {
                in_str = false;
            }
        } else if c == '"' {
            in_str = true;
        } else if c == '{' {
            depth += 1;
        } else if c == '}' {
            depth -= 1;
            if depth == 0 {
                return Some(i);
            }
        }
        i += 1;
    }
    None
}

/// The legacy assignment `root.App.main = {...};`: the trimmed text between
/// the first `=` after the first `root.App.main` and the last `;` before the
/// first `</script>` that follows (or the end of the text).
pub open spec fn spec_root_app_main(b: Seq<char>) -> Option<Seq<char>> {
    match find(b, "root.App.main"@) {
        None => None,
        Some(start) => {
            let after = b.skip(start);
            match find(after, seq!['=']) {
                None => None,
                Some(eq) => {
                    let rest = after.skip(eq + 1);
                    let payload = rest.skip(skip_ws(rest, 0));
                    let end = match find(payload, "</script>"@) {
                        Some(e) => e,
                        None => payload.len() as int,
                    };
                    let segment = payload.take(end);
                    match rfind_char_below(segment, ';', segment.len() as int) {
                        None => None,
                        Some(semi) => Some(trim(segment.take(semi))),
                    }
                },
            }
        },
    }
}

fn root_app_main_chars(b: &[char]) -> (r: Option<Vec<char>>)
    ensures
        match r {
            Some(x) => spec_root_app_main(b@) == Some(x@),
            None => spec_root_app_main(b@) is None,
        },
{
    let marker = chars_of("root.App.main");
    let start = match find_chars_from(b, &marker, 0) {
        Some(i) => i,
        None => {
            return None;
        },
    };
    let after = sub_chars(b, start, b.len());
    assert(after@ == b@.skip(start as int));
    let eqs: Vec<char> = vec!['='];
    assert(eqs@ =~= seq!['=']);
    let eq = match find_chars_from(&after, &eqs, 0) {
        Some(i) => i,
        None => {
            return None;
        },
    };
    let rest = sub_chars(&after, eq + 1, after.len());
    assert(rest@ == after@.skip(eq + 1));
    let (lo, _hi) = trim_bounds(&rest);
    let payload = sub_chars(&rest, lo, rest.len());
    let close = chars_of("</script>");
    let end = match find_chars_from(&payload, &close, 0) {
        Some(e) => e,
        None => payload.len(),
    };
    let segment = sub_chars(&payload, 0, end);
    assert(segment@ == payload@.take(end as int));
    let semi = match rfind_char(&segment, ';', segment.len()) {
        Some(k) => k,
        None => {
            return None;
        },
    };
    proof {
        assert(rfind_char_below(segment@, ';', segment@.len() as int) == Some(semi as int));
        lemma_rfind_below_bound(segment@, ';', segment@.len() as int);
    }
    let head = sub_chars(&segment, 0, semi);
    Some(trim_chars(&head))
}

proof fn lemma_rfind_below_bound(s: Seq<char>, c: char, j: int)
    ensures
        rfind_char_below(s, c, j) matches Some(k) ==> 0 <= k < j && k < s.len(),
    decreases j,
{
    if 0 < j <= s.len() && s[j - 1] != c {
        lemma_rfind_below_bound(s, c, j - 1);
    }
}


/// Wrapper text around a `QuoteSummaryStore` object, giving the shape of the
/// legacy embedded JSON.
pub open spec fn store_wrapper_head() -> Seq<char> {
    "{\"context\":{\"dispatcher\":{\"stores\":{\"QuoteSummaryStore\":"@
}

pub open spec fn store_wrapper_tail() -> Seq<char> {
    "}}}}"@
}

/// A literal `"QuoteSummaryStore" : {...}` object: the object that opens at
/// the first `{` after the first quoted `QuoteSummaryStore`, closed by its
/// matching brace, wrapped into the shape of the legacy embedded JSON.
pub open spec fn spec_quote_summary_literal(b: Seq<char>) -> Option<Seq<char>> {
    let key = "\"QuoteSummaryStore\""@;
    match find(b, key) {
        None => None,
        Some(pos) => match find(b.skip(pos + key.len()), seq!['{']) {
            None => None,
            Some(rel) => {
                let obj_start = pos + key.len() + rel;
                match matching_brace(char_codes(b), obj_start) {
                    None => None,
                    Some(obj_end) => Some(
                        store_wrapper_head() + b.subrange(obj_start, obj_end + 1)
                            + store_wrapper_tail(),
                    ),
                }
            },
        },
    }
}

fn quote_summary_literal_chars(b: &[char]) -> (r: Option<Vec<char>>)
    ensures
        match r {
            Some(x) => spec_quote_summary_literal(b@) == Some(x@),
            None => spec_quote_summary_literal(b@) is None,
        },
{
    let key = chars_of("\"QuoteSummaryStore\"");
    let pos = match find_chars_from(b, &key, 0) {
        Some(p) => p,
        None => {
            return None;
        },
    };
    let n = b.len();
    assert(pos + key@.len() <= n);
    let after = sub_chars(b, pos + key.len(), n);
    let brace: Vec<char> = vec!['{'];
    assert(brace@ =~= seq!['{']);
    let rel = match find_chars_from(&after, &brace, 0) {
        Some(k) => k,
        None => {
            return None;
        },
    };
    let obj_start = pos + key.len() + rel;
    let obj_end = match matching_brace_chars(b, obj_start) {
        Some(e) => e,
        None => {
            return None;
        },
    };
    let obj = sub_chars(b, obj_start, obj_end + 1);
    let mut out = chars_of("{\"context\":{\"dispatcher\":{\"stores\":{\"QuoteSummaryStore\":");
    let tail = chars_of("}}}}");
    let ghost head = out@;
    let mut k: usize = 0;
    while k < obj.len()
        invariant
            k <= obj@.len(),
            out@ == head + obj@.take(k as int),
        decreases obj@.len() - k,
    {
        out.push(obj[k]);
        k += 1;
        assert(out@ =~= head + obj@.take(k as int));
    }
    let mut j: usize = 0;
    let ghost mid = out@;
    while j < tail.len()
        invariant
            j <= tail@.len(),
            out@ == mid + tail@.take(j as int),
        decreases tail@.len() - j,
    {
        out.push(tail[j]);
        j += 1;
        assert(out@ =~= mid + tail@.take(j as int));
    }
    assert(obj@.take(obj@.len() as int) =~= obj@);
    assert(tail@.take(tail@.len() as int) =~= tail@);
    Some(out)
}

/// The trimmed text of a legacy `root.App.main = {...};` assignment in `body`.
pub fn strategy_root_app_main(body: &str) -> (r: Option<String>)
    ensures
        opt_text(r) == spec_root_app_main(body@),
{
    let b = chars_of(body);
    match root_app_main_chars(&b) {
        Some(x) => Some(string_of(&x)),
        None => None,
    }
}

/// A literal `"QuoteSummaryStore" : {...}` object of `body`, wrapped into the
/// dispatcher shape of the legacy embedded JSON.
pub fn strategy_quote_summary_literal(body: &str) -> (r: Option<String>)
    ensures
        opt_text(r) == spec_quote_summary_literal(body@),
{
    let b = chars_of(body);
    match quote_summary_literal_chars(&b) {
        Some(x) => Some(string_of(&x)),
        None => None,
    }
}

pub open spec fn opt_text(o: Option<String>) -> Option<Seq<char>> {
    match o {
        Some(s) => Some(s@),
        None => None,
    }
}

/// The JSON blob Yahoo embeds in the quote page: the legacy
/// `root.App.main = {...};` assignment, or else a literal
/// `"QuoteSummaryStore" : {...}` object wrapped into the same shape, so that
/// one reader handles both.
pub open spec fn spec_extract_bootstrap_json(b: Seq<char>) -> Option<Seq<char>> {
    match spec_root_app_main(b) {
        Some(j) => Some(j),
        None => spec_quote_summary_literal(b),
    }
}

/// Extract the JSON blob Yahoo embeds in the quote page.
pub fn extract_bootstrap_json(body: &str) -> (r: Option<String>)
    ensures
        opt_text(r) == spec_extract_bootstrap_json(body@),
{
    let b = chars_of(body);
    match root_app_main_chars(&b) {
        Some(x) => Some(string_of(&x)),
        None => match quote_summary_literal_chars(&b) {
            Some(x) => Some(string_of(&x)),
            None => None,
        },
    }
}

} // verus!
