//! Naming of recorded response fixtures.
//!
//! Recorded bodies live at `{dir}/{endpoint}_{symbol}.{ext}`; the directory
//! comes from the environment, which the caller reads.

use vstd::prelude::*;

use crate::text::{chars_of, char_is_ascii_alnum, is_ascii_alnum, string_of};

verus! {

/// Every character that is not an ASCII letter or digit replaced by `_`.
pub open spec fn spec_safe_label(s: Seq<char>) -> Seq<char> {
    s.map_values(|c: char| if is_ascii_alnum(c) { c } else { '_' })
}

/// Sanitize an arbitrary string into a filename-safe label by replacing every
/// non-alphanumeric character with `_`.
pub fn safe_label(s: &str) -> (r: String)
    ensures
        r@ == spec_safe_label(s@),
{
    let v = chars_of(s);
    let mut out: Vec<char> = Vec::new();
    let mut i: usize = 0;
    while i < v.len()
        invariant
            i <= v@.len(),
            out@ == spec_safe_label(v@.take(i as int)),
        decreases v@.len() - i,
    {
        let c = v[i];
        out.push(if char_is_ascii_alnum(c) { c } else { '_' });
        i += 1;
        assert(out@ =~= spec_safe_label(v@.take(i as int)));
    }
    assert(v@.take(v@.len() as int) =~= v@);
    string_of(&out)
}

/// File name of the fixture for `(endpoint, symbol, ext)`.
pub open spec fn fixture_name(endpoint: Seq<char>, symbol: Seq<char>, ext: Seq<char>) -> Seq<char> {
    endpoint + "_"@ + symbol + "."@ + ext
}

/// `dir` joined with `name` the way `Path::join` does on Unix: an absolute
/// `name` replaces `dir`; otherwise a `/` separates them unless `dir` is
/// empty or already ends with one.
pub open spec fn path_join(dir: Seq<char>, name: Seq<char>) -> Seq<char> {
    if name.len() > 0 && name[0] == '/' {
        name
    } else if dir.len() == 0 || dir.last() == '/' {
        dir + name
    } else {
        dir + "/"@ + name
    }
}

/// Path of the fixture file for `(endpoint, symbol, ext)` under `dir`.
pub fn fixture_path(dir: &str, endpoint: &str, symbol: &str, ext: &str) -> (r: String)
    ensures
        r@ == path_join(dir@, fixture_name(endpoint@, symbol@, ext@)),
{
    let mut name = endpoint.to_string();
    name.append("_");
    name.append(symbol);
    name.append(".");
    name.append(ext);
    let n = chars_of(name.as_str());
    let d = chars_of(dir);
    if n.len() > 0 && n[0] == '/' {
        return name;
    }
    let mut out = dir.to_string();
    if !(d.len() == 0 || d[d.len() - 1] == '/') {
        out.append("/");
    }
    out.append(name.as_str());
    out
}

} // verus!
