//! The text fields of the flattened `quoteSummary` snapshot, with the module
//! each one is read from first and the module it falls back to.

use vstd::prelude::*;

use crate::json::{module_string, module_text, Json};

verus! {

/// The text of `modules[first][key]`, or else of `modules[second][key]`.
pub open spec fn text_or(
    modules: Seq<(String, Json)>,
    first: Seq<char>,
    second: Seq<char>,
    key: Seq<char>,
) -> Option<Seq<char>> {
    match module_text(modules, first, key) {
        Some(t) => Some(t),
        None => module_text(modules, second, key),
    }
}

pub open spec fn opt_chars(o: Option<String>) -> Option<Seq<char>> {
    match o {
        Some(s) => Some(s@),
        None => None,
    }
}

/// The text fields of a company snapshot.
#[derive(Debug, Clone, PartialEq, Eq)]
pub struct InfoText {
    /// Quote type (`EQUITY`, `ETF`, …).
    pub quote_type: Option<String>,
    /// Long company name.
    pub long_name: Option<String>,
    /// Short display name.
    pub short_name: Option<String>,
    /// Sector.
    pub sector: Option<String>,
    /// Industry.
    pub industry: Option<String>,
    /// Long business summary.
    pub summary: Option<String>,
    /// Country of domicile.
    pub country: Option<String>,
    /// Company website.
    pub website: Option<String>,
    /// Trading currency.
    pub currency: Option<String>,
}

/// The text of `modules[first][key]`, or else of `modules[second][key]`.
pub fn module_string_or(modules: &Vec<(String, Json)>, first: &str, second: &str, key: &str) -> (r:
    Option<String>)
    ensures
        opt_chars(r) == text_or(modules@, first@, second@, key@),
{
    match module_string(modules, first, key) {
        Some(t) => Some(t),
        None => module_string(modules, second, key),
    }
}

/// The text fields of the snapshot read from `quoteSummary` modules: names
/// and currency from `price`, profile fields from `assetProfile`, each
/// falling back to `quoteType`, `summaryProfile` or `summaryDetail`.
pub fn info_text(modules: &Vec<(String, Json)>) -> (r: InfoText)
    ensures
        opt_chars(r.quote_type) == module_text(modules@, "quoteType"@, "quoteType"@),
        opt_chars(r.long_name) == text_or(modules@, "price"@, "quoteType"@, "longName"@),
        opt_chars(r.short_name) == text_or(modules@, "price"@, "quoteType"@, "shortName"@),
        opt_chars(r.sector) == text_or(modules@, "assetProfile"@, "summaryProfile"@, "sector"@),
        opt_chars(r.industry) == text_or(modules@, "assetProfile"@, "summaryProfile"@, "industry"@),
        opt_chars(r.summary) == text_or(
            modules@,
            "assetProfile"@,
            "summaryProfile"@,
            "longBusinessSummary"@,
        ),
        opt_chars(r.country) == text_or(modules@, "assetProfile"@, "summaryProfile"@, "country"@),
        opt_chars(r.website) == text_or(modules@, "assetProfile"@, "summaryProfile"@, "website"@),
        opt_chars(r.currency) == text_or(modules@, "price"@, "summaryDetail"@, "currency"@),
{
    let quote_type = module_string(modules, "quoteType", "quoteType");
    InfoText {
        quote_type,
        long_name: module_string_or(modules, "price", "quoteType", "longName"),
        short_name: module_string_or(modules, "price", "quoteType", "shortName"),
        sector: module_string_or(modules, "assetProfile", "summaryProfile", "sector"),
        industry: module_string_or(modules, "assetProfile", "summaryProfile", "industry"),
        summary: module_string_or(modules, "assetProfile", "summaryProfile", "longBusinessSummary"),
        country: module_string_or(modules, "assetProfile", "summaryProfile", "country"),
        website: module_string_or(modules, "assetProfile", "summaryProfile", "website"),
        currency: module_string_or(modules, "price", "summaryDetail", "currency"),
    }
}

} // verus!
