//! Yahoo Finance lookup (`v1/finance/lookup`): the record categories.

use vstd::prelude::*;

verus! {

/// Lookup record category. Equivalent to the `type` query parameter.
#[derive(Debug, Clone, Copy, PartialEq, Eq, Structural)]
pub enum LookupType {
    /// All quote types.
    All,
    /// Stocks.
    Equity,
    /// Exchange-traded funds.
    Etf,
    /// Mutual funds.
    MutualFund,
    /// Indices.
    Index,
    /// Currencies.
    Currency,
    /// Cryptocurrencies.
    Cryptocurrency,
    /// Futures.
    Future,
}

pub open spec fn lookup_type_text(t: LookupType) -> Seq<char> {
    match t {
        LookupType::All => "all"@,
        LookupType::Equity => "equity"@,
        LookupType::Etf => "etf"@,
        LookupType::MutualFund => "mutualfund"@,
        LookupType::Index => "index"@,
        LookupType::Currency => "currency"@,
        LookupType::Cryptocurrency => "cryptocurrency"@,
        LookupType::Future => "future"@,
    }
}

impl LookupType {
    /// The `type` query parameter for this category.
    pub fn as_str(self) -> (r: &'static str)
        ensures
            r@ == lookup_type_text(self),
    {
        match self {
            LookupType::All => "all",
            LookupType::Equity => "equity",
            LookupType::Etf => "etf",
            LookupType::MutualFund => "mutualfund",
            LookupType::Index => "index",
            LookupType::Currency => "currency",
            LookupType::Cryptocurrency => "cryptocurrency",
            LookupType::Future => "future",
        }
    }
}

} // verus!
