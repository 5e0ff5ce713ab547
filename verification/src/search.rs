//! Yahoo Finance search results (`v1/finance/search`).

use vstd::prelude::*;

verus! {

/// One quote-like result from search.
#[derive(Debug, Clone, PartialEq, Eq)]
pub struct SearchQuote {
    /// Symbol.
    pub symbol: String,
    /// Quote type (`EQUITY`, `ETF`, …).
    pub quote_type: Option<String>,
    /// Exchange.
    pub exchange: Option<String>,
    /// Short name.
    pub short_name: Option<String>,
    /// Long name.
    pub long_name: Option<String>,
    /// Industry (equities only).
    pub industry: Option<String>,
    /// Sector (equities only).
    pub sector: Option<String>,
}

/// One news article result.
#[derive(Debug, Clone, PartialEq, Eq)]
pub struct SearchNews {
    /// Article uuid.
    pub uuid: Option<String>,
    /// Headline.
    pub title: Option<String>,
    /// Publisher name.
    pub publisher: Option<String>,
    /// Permalink.
    pub link: Option<String>,
    /// Published time (UNIX seconds).
    pub provider_publish_time: Option<i64>,
    /// Tickers mentioned.
    pub related_tickers: Vec<String>,
}

/// Search result.
#[derive(Debug, Clone)]
pub struct Search {
    /// The query that produced these results.
    pub query: String,
    /// Quote-like matches.
    pub quotes: Vec<SearchQuote>,
    /// News articles.
    pub news: Vec<SearchNews>,
}

} // verus!
