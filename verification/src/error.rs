//! Error and result types.

use vstd::prelude::*;

verus! {

/// All errors produced by this crate.
#[derive(Debug)]
#[non_exhaustive]
pub enum YfError {
    /// Underlying HTTP transport failure.
    Http(reqwest::Error),
    /// JSON decoding failure.
    Json(serde_json::Error),
    /// URL parsing failure.
    Url(url::ParseError),
    /// Yahoo returned a non-success status code.
    Status {
        /// HTTP status code.
        status: u16,
        /// Best-effort message extracted from the response body.
        message: String,
    },
    /// Yahoo's chart/v8 endpoint returned an explicit error payload.
    Yahoo {
        /// Symbol that triggered the error.
        symbol: String,
        /// Yahoo error code (e.g. `Not Found`).
        code: String,
        /// Human-readable description.
        description: String,
    },
    /// We got a 429 from Yahoo and exhausted retry budget.
    RateLimited,
    /// Could not obtain an authenticated session (cookie + crumb).
    Auth(String),
    /// The ticker symbol is missing or delisted.
    TickerMissing {
        /// The requested symbol.
        ticker: String,
        /// Reason supplied by Yahoo's API or by the parser.
        reason: String,
    },
    /// The ticker has no timezone info — usually means delisted.
    TimezoneMissing(String),
    /// No price data returned for the requested period/interval.
    PricesMissing {
        /// The requested symbol.
        ticker: String,
        /// Human-readable hint about why data was missing.
        hint: String,
    },
    /// The requested period/interval combination is not allowed.
    InvalidPeriod {
        /// The requested symbol.
        ticker: String,
        /// Why the combination is invalid.
        reason: String,
    },
    /// A response field had an unexpected shape.
    UnexpectedResponse(String),
    /// A required argument was invalid.
    InvalidArgument(String),
    /// Catch-all for unexpected I/O.
    Io(std::io::Error),
}

/// Convenient `Result` alias used throughout the crate.
pub type Result<T> = core::result::Result<T, YfError>;

impl YfError {
    /// Construct an [`YfError::UnexpectedResponse`] with the given message.
    pub fn unexpected(msg: &str) -> (r: YfError)
        ensures
            r matches YfError::UnexpectedResponse(m) && m@ == msg@,
    {
        YfError::UnexpectedResponse(msg.to_string())
    }

    /// Construct an [`YfError::InvalidArgument`] with the given message.
    pub fn invalid(msg: &str) -> (r: YfError)
        ensures
            r matches YfError::InvalidArgument(m) && m@ == msg@,
    {
        YfError::InvalidArgument(msg.to_string())
    }
}

} // verus!
