//! Yahoo Finance client library: the verified core.

pub mod analysis;
pub mod domain;
pub mod client;
pub mod error;
pub mod esg;
pub mod fundamentals;
pub mod history;
pub mod holders;
pub mod info;
pub mod isin;
pub mod json;
pub mod lookup;
pub mod options;
pub mod news;
pub mod outside;
pub mod profile;
pub mod request;
pub mod repair;
pub mod search;
pub mod stream;
pub mod test_fixtures;
pub mod text;
pub mod types;
pub mod wire;
