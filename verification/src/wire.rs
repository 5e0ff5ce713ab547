//! Yahoo's wire format for numbers.
//!
//! Yahoo wraps numeric fields as `{ "raw": <number>, "fmt": "<string>" }`,
//! and sometimes sends them bare. [`RawNum`] holds either form once decoded.

use vstd::prelude::*;

verus! {

/// `{ "raw": T, ... }` envelope (or a bare `T`, or `null`).
#[derive(Debug, Clone, Copy, PartialEq, Eq)]
pub struct RawNum<T> {
    pub raw: Option<T>,
}

/// Project `Option<RawNum<i64>>` to `Option<i64>`.
pub fn from_raw_i64(n: Option<RawNum<i64>>) -> (r: Option<i64>)
    ensures
        r == match n {
            Some(x) => x.raw,
            None => None,
        },
{
    match n {
        Some(x) => x.raw,
        None => None,
    }
}

} // verus!
