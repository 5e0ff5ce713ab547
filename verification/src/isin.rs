//! ISIN lookup: the logic that picks an ISIN out of a suggest-endpoint reply.
//!
//! The reply comes in one of several shapes (a JSON object holding arrays of
//! suggestions, a flat array of records, or a JSONP-style callback). The
//! caller fetches the text and parses it; [`isin_from_reply`] tries the
//! shapes in order and falls back to a raw scan of the text for a
//! 12-character ISIN-shaped token.

use vstd::prelude::*;
use vstd::string::StringSliceAdditionalSpecFns;

use crate::json::{get, get_str, json_str, obj_get, Json};
use crate::text::{
    ascii_lower, ascii_upper, back_ws, is_ws, skip_ws, upper_char, char_is_ascii_alnum, char_is_ascii_alpha, char_is_ascii_digit,
    chars_eq, chars_of, find, find_chars_from, find_from, lower_char, matches_at, is_ascii_alnum, is_ascii_alpha, is_ascii_char, is_ascii_digit,
    lower_chars, string_of, sub_chars, trim, trim_chars, upper_chars, utf8_len, utf8_len_capped,
};

verus! {

// ------------------------------------------------------------------
// Character classes on bytes
// ------------------------------------------------------------------

pub open spec fn byte_alpha(b: u8) -> bool {
    (0x61 <= b && b <= 0x7a) || (0x41 <= b && b <= 0x5a)
}

pub open spec fn byte_digit(b: u8) -> bool {
    0x30 <= b && b <= 0x39
}

pub open spec fn byte_alnum(b: u8) -> bool {
    byte_alpha(b) || byte_digit(b)
}

fn is_byte_alpha(b: u8) -> (r: bool)
    ensures
        r == byte_alpha(b),
{
    (b >= 0x61 && b <= 0x7a) || (b >= 0x41 && b <= 0x5a)
}

fn is_byte_digit(b: u8) -> (r: bool)
    ensures
        r == byte_digit(b),
{
    b >= 0x30 && b <= 0x39
}

fn is_byte_alnum(b: u8) -> (r: bool)
    ensures
        r == byte_alnum(b),
{
    is_byte_alpha(b) || is_byte_digit(b)
}

// ------------------------------------------------------------------
// ISIN shape
// ------------------------------------------------------------------

/// Two letters, nine letters or digits, one check digit (ASCII only).
pub open spec fn isin_shape(t: Seq<char>) -> bool {
    &&& t.len() == 12
    &&& is_ascii_alpha(t[0])
    &&& is_ascii_alpha(t[1])
    &&& forall|i: int| 2 <= i < 11 ==> is_ascii_alnum(#[trigger] t[i])
    &&& is_ascii_digit(t[11])
}

/// Inputs on which `looks_like_isin` slices its argument through the middle of
/// a character and panics: the trimmed text is 12 bytes long, starts with two
/// ASCII letters, and ends with a character of more than one byte.
pub open spec fn isin_check_panics(s: Seq<char>) -> bool {
    let t = trim(s);
    &&& utf8_len(t) == 12
    &&& t.len() >= 2
    &&& is_ascii_alpha(t[0])
    &&& is_ascii_alpha(t[1])
    &&& !is_ascii_char(t.last())
}

/// What `looks_like_isin(s)` answers.
pub open spec fn spec_looks_like_isin(s: Seq<char>) -> bool {
    isin_shape(trim(s))
}

proof fn lemma_ascii_utf8_len(s: Seq<char>)
    requires
        forall|i: int| 0 <= i < s.len() ==> is_ascii_char(#[trigger] s[i]),
    ensures
        utf8_len(s) == s.len(),
    decreases s.len(),
{
    if s.len() > 0 {
        assert(is_ascii_char(s[s.len() - 1]));
        lemma_ascii_utf8_len(s.drop_last());
    }
}

proof fn lemma_utf8_len_at_least_len(s: Seq<char>)
    ensures
        utf8_len(s) >= s.len(),
    decreases s.len(),
{
    if s.len() > 0 {
        lemma_utf8_len_at_least_len(s.drop_last());
    }
}

/// `looks_like_isin` on a character vector.
pub fn isin_chars(v: &[char]) -> (r: bool)
    requires
        !isin_check_panics(v@),
    ensures
        r == spec_looks_like_isin(v@),
{
    let t = trim_chars(v);
    let n = t.len();
    if utf8_len_capped(&t, 12) != 12 {
        proof {
            if isin_shape(t@) {
                lemma_ascii_utf8_len(t@);
            }
        }
        return false;
    }
    proof {
        lemma_utf8_len_at_least_len(t@);
    }
    if n < 2 {
        return false;
    }
    if !(char_is_ascii_alpha(t[0]) && char_is_ascii_alpha(t[1])) {
        return false;
    }
    // Not a panic case, so the last character is ASCII.
    let mut i: usize = 2;
    while i + 1 < n
        invariant
            n == t@.len(),
            t@ == trim(v@),
            2 <= i <= n,
            i + 1 <= n || n < 3,
            forall|k: int| 2 <= k < i ==> is_ascii_alnum(#[trigger] t@[k]),
        decreases n - i,
    {
        if !char_is_ascii_alnum(t[i]) {
            proof {
                if isin_shape(t@) {
                    if n == 12 {
                        assert(is_ascii_alnum(t@[i as int]));
                    }
                }
            }
            return false;
        }
        i += 1;
    }
    let r = char_is_ascii_digit(t[n - 1]);
    proof {
        assert(is_ascii_char(t@[n - 1]));
        assert forall|k: int| 0 <= k < t@.len() implies is_ascii_char(#[trigger] t@[k]) by {
            if 2 <= k < n - 1 {
                assert(is_ascii_alnum(t@[k]));
            }
        }
        lemma_ascii_utf8_len(t@);
    }
    r
}

/// Whether `s` (once trimmed) has the shape of an ISIN: two ASCII letters,
/// nine ASCII letters or digits, and a final digit.
pub fn looks_like_isin(s: &str) -> (r: bool)
    requires
        !isin_check_panics(s@),
    ensures
        r == spec_looks_like_isin(s@),
{
    let v = chars_of(s);
    isin_chars(&v)
}

// ------------------------------------------------------------------
// Symbol normalisation
// ------------------------------------------------------------------

pub open spec fn dash_to_dot(s: Seq<char>) -> Seq<char> {
    s.map_values(|c: char| if c == '-' { '.' } else { c })
}

/// The separators that end the root of a symbol, in the order they are tried.
pub open spec fn sym_separators() -> Seq<char> {
    seq!['.', ':', ' ', '\t', '\n', '\r']
}

/// `t` cut at the first occurrence of the first separator (from index `k` of
/// [`sym_separators`] on) that occurs in `t`.
pub open spec fn cut_at_separator(t: Seq<char>, k: int) -> Seq<char>
    decreases 6 - k,
{
    if k < 0 || k >= 6 {
        t
    } else {
        match find(t, seq![sym_separators()[k]]) {
            Some(i) => t.take(i),
            None => cut_at_separator(t, k + 1),
        }
    }
}

/// The lower-case root of a symbol: trimmed, `-` read as `.`, cut at the
/// first separator, ASCII lower case (`BRK-B` and `brk.b` both give `brk`).
pub open spec fn spec_normalize_sym(s: Seq<char>) -> Seq<char> {
    ascii_lower(cut_at_separator(dash_to_dot(trim(s)), 0))
}

pub fn normalize_chars(v: &[char]) -> (r: Vec<char>)
    ensures
        r@ == spec_normalize_sym(v@),
{
    let t0 = trim_chars(v);
    let mut t: Vec<char> = Vec::new();
    let mut i: usize = 0;
    while i < t0.len()
        invariant
            i <= t0@.len(),
            t@ == dash_to_dot(t0@.take(i as int)),
        decreases t0@.len() - i,
    {
        let c = t0[i];
        t.push(if c == '-' { '.' } else { c });
        i += 1;
        assert(t@ =~= dash_to_dot(t0@.take(i as int)));
    }
    assert(t0@.take(t0@.len() as int) =~= t0@);
    let seps = ['.', ':', ' ', '\t', '\n', '\r'];
    let mut k: usize = 0;
    let mut cut: usize = t.len();
    while k < 6
        invariant
            k <= 6,
            seps@ == sym_separators(),
            t@ == dash_to_dot(trim(v@)),
            cut == t@.len(),
            cut_at_separator(t@, k as int) == cut_at_separator(t@, 0),
        decreases 6 - k,
    {
        let pat: Vec<char> = vec![seps[k]];
        assert(pat@ =~= seq![sym_separators()[k as int]]);
        match find_chars_from(&t, &pat, 0) {
            Some(idx) => {
                let head = sub_chars(&t, 0, idx);
                assert(find(t@, pat@) == Some(idx as int));
                assert(cut_at_separator(t@, k as int) == t@.take(idx as int));
                assert(head@ == t@.take(idx as int));
                return lower_chars(&head);
            },
            None => {},
        }
        k += 1;
    }
    lower_chars(&t)
}

/// Lower-case root of a ticker symbol, used to compare symbols across sources.
pub fn normalize_sym(s: &str) -> (r: String)
    ensures
        r@ == spec_normalize_sym(s@),
{
    let v = chars_of(s);
    let n = normalize_chars(&v);
    string_of(&n)
}

proof fn lemma_find_char(s: Seq<char>, c: char, i: int)
    requires
        0 <= i,
    ensures
        find_from(s, seq![c], i) matches Some(j) ==> i <= j < s.len() && s[j] == c && forall|k: int|
            i <= k < j ==> s[k] != c,
        find_from(s, seq![c], i) is None ==> forall|k: int| i <= k < s.len() ==> s[k] != c,
    decreases s.len() + 1 - i,
{
    if i < s.len() {
        assert(matches_at(s, seq![c], i) <==> s[i] == c) by {
            if s[i] == c {
                assert(s.subrange(i, i + 1) =~= seq![c]);
            }
            if matches_at(s, seq![c], i) {
                assert(s.subrange(i, i + 1)[0] == s[i]);
            }
        }
        lemma_find_char(s, c, i + 1);
    }
}

proof fn lemma_cut_is_prefix(t: Seq<char>, k: int)
    ensures
        cut_at_separator(t, k).len() <= t.len(),
        cut_at_separator(t, k) == t.take(cut_at_separator(t, k).len() as int),
    decreases 6 - k,
{
    if 0 <= k < 6 {
        lemma_find_char(t, sym_separators()[k], 0);
        match find(t, seq![sym_separators()[k]]) {
            Some(i) => {
                assert(t.take(i).len() == i);
                assert(t.take(i) =~= t.take(t.take(i).len() as int));
            },
            None => lemma_cut_is_prefix(t, k + 1),
        }
    } else {
        assert(t =~= t.take(t.len() as int));
    }
}

/// The root a symbol is compared by holds no `.`, no `-` and no upper-case
/// ASCII letter.
pub proof fn normalized_root_is_plain(s: Seq<char>)
    ensures
        forall|j: int|
            0 <= j < spec_normalize_sym(s).len() ==> {
                let c = #[trigger] spec_normalize_sym(s)[j];
                &&& c != '.'
                &&& c != '-'
                &&& !('A' <= c && c <= 'Z')
            },
{
    let t = dash_to_dot(trim(s));
    let u = cut_at_separator(t, 0);
    lemma_cut_is_prefix(t, 0);
    lemma_find_char(t, '.', 0);
    assert(sym_separators()[0] == '.');
    match find(t, seq!['.']) {
        Some(i) => {},
        None => lemma_cut_is_prefix(t, 1),
    }
    assert forall|j: int| 0 <= j < u.len() implies u[j] != '.' && u[j] != '-' by {
        assert(u[j] == t[j]);
        assert(t[j] == (if trim(s)[j] == '-' { '.' } else { trim(s)[j] }));
        if let Some(i) = find(t, seq!['.']) {
            assert(u.len() <= i) by {
                assert(cut_at_separator(t, 0) == t.take(i));
            }
        }
    }
    assert forall|j: int| 0 <= j < spec_normalize_sym(s).len() implies {
        let c = #[trigger] spec_normalize_sym(s)[j];
        &&& c != '.'
        &&& c != '-'
        &&& !('A' <= c && c <= 'Z')
    } by {
        assert(spec_normalize_sym(s)[j] == lower_char(u[j]));
    }
}

/// The first of `parts`, from `i` on, that the ISIN check accepts.
pub open spec fn first_isin_part(parts: Seq<Seq<char>>, i: int) -> Option<int>
    decreases parts.len() - i,
{
    if i < 0 || i >= parts.len() {
        None
    } else if spec_looks_like_isin(parts[i]) {
        Some(i)
    } else {
        first_isin_part(parts, i + 1)
    }
}

proof fn lemma_parts_scan_first(parts: Seq<Seq<char>>, i: int)
    requires
        forall|k: int| 0 <= k < parts.len() ==> !isin_check_panics(#[trigger] parts[k]),
    ensures
        parts_scan(parts, i) == match first_isin_part(parts, i) {
            Some(j) => Scan::Hit(ascii_upper(parts[j])),
            None => Scan::Miss,
        },
    decreases parts.len() - i,
{
    if 0 <= i < parts.len() {
        assert(!isin_check_panics(parts[i]));
        lemma_parts_scan_first(parts, i + 1);
    }
}

proof fn lemma_first_isin_part_least(parts: Seq<Seq<char>>, i: int)
    requires
        0 <= i,
    ensures
        first_isin_part(parts, i) matches Some(j) ==> i <= j < parts.len() && spec_looks_like_isin(
            parts[j],
        ) && forall|k: int| i <= k < j ==> !spec_looks_like_isin(#[trigger] parts[k]),
        first_isin_part(parts, i) is None ==> forall|k: int|
            i <= k < parts.len() ==> !spec_looks_like_isin(#[trigger] parts[k]),
    decreases parts.len() - i,
{
    if i < parts.len() && !spec_looks_like_isin(parts[i]) {
        lemma_first_isin_part_least(parts, i + 1);
    }
}

/// Picking from `|`-separated parts: nothing unless the first part names
/// `target`; otherwise the first part that the ISIN check accepts,
/// upper-cased, or nothing when none does. (On parts where the check itself
/// panics there is no answer to give; they are left out.)
pub proof fn pick_takes_first_isin_part(parts: Seq<Seq<char>>, target: Seq<char>)
    requires
        forall|k: int| 0 <= k < parts.len() ==> !isin_check_panics(#[trigger] parts[k]),
    ensures
        (parts.len() == 0 || spec_normalize_sym(parts[0]) != target) ==> pick_scan(parts, target)
            == Scan::Miss,
        (parts.len() > 0 && spec_normalize_sym(parts[0]) == target) ==> pick_scan(parts, target)
            == match first_isin_part(parts, 0) {
            Some(j) => Scan::Hit(ascii_upper(parts[j])),
            None => Scan::Miss,
        },
        first_isin_part(parts, 0) matches Some(j) ==> spec_looks_like_isin(parts[j]) && forall|k: int|
            0 <= k < j ==> !spec_looks_like_isin(#[trigger] parts[k]),
        first_isin_part(parts, 0) is None ==> forall|k: int|
            0 <= k < parts.len() ==> !spec_looks_like_isin(#[trigger] parts[k]),
{
    lemma_parts_scan_first(parts, 0);
    lemma_first_isin_part_least(parts, 0);
}

// ------------------------------------------------------------------
// Raw scan
// ------------------------------------------------------------------

/// The 12 bytes of `b` at `p` have the shape of an ISIN.
pub open spec fn window_shaped(b: Seq<u8>, p: int) -> bool {
    &&& 0 <= p
    &&& p + 12 <= b.len()
    &&& byte_alpha(b[p])
    &&& byte_alpha(b[p + 1])
    &&& forall|k: int| 2 <= k < 11 ==> byte_alnum(#[trigger] b[p + k])
    &&& byte_digit(b[p + 11])
}

/// The 12 bytes of `b` at `p`, read as characters.
pub open spec fn window_text(b: Seq<u8>, p: int) -> Seq<char> {
    Seq::new(12, |k: int| b[p + k] as char)
}

/// `p` is the leftmost ISIN-shaped window of `b` that starts in `[lo, hi)`.
pub open spec fn first_window_in(b: Seq<u8>, lo: int, hi: int, p: int) -> bool {
    &&& lo <= p < hi
    &&& window_shaped(b, p)
    &&& forall|q: int| lo <= q < p ==> !window_shaped(b, q)
}

proof fn lemma_window_bytes_alnum(b: Seq<u8>, q: int, j: int)
    requires
        window_shaped(b, q),
        q <= j < q + 12,
    ensures
        byte_alnum(b[j]),
{
    if 2 <= j - q < 11 {
        assert(byte_alnum(b[q + (j - q)]));
    }
}

fn window_is_isin(b: &[u8], p: usize) -> (r: bool)
    requires
        p + 12 <= b@.len(),
    ensures
        r == window_shaped(b@, p as int),
{
    let blen = b.len();
    if !(is_byte_alpha(b[p]) && is_byte_alpha(b[p + 1])) {
        return false;
    }
    let mut k: usize = 2;
    while k < 11
        invariant
            blen == b@.len(),
            p + 12 <= blen,
            2 <= k <= 11,
            forall|j: int| 2 <= j < k ==> byte_alnum(#[trigger] b@[p + j]),
        decreases 11 - k,
    {
        if !is_byte_alnum(b[p + k]) {
            return false;
        }
        k += 1;
    }
    is_byte_digit(b[p + 11])
}

fn window_string(b: &[u8], p: usize) -> (r: String)
    requires
        p + 12 <= b@.len(),
    ensures
        r@ == window_text(b@, p as int),
{
    let mut v: Vec<char> = Vec::new();
    let mut k: usize = 0;
    let blen = b.len();
    while k < 12
        invariant
            blen == b@.len(),
            p + 12 <= blen,
            k <= 12,
            v@ =~= Seq::new(k as nat, |j: int| b@[p + j] as char),
        decreases 12 - k,
    {
        v.push(b[p + k] as char);
        k += 1;
    }
    string_of(&v)
}

/// First ISIN-shaped 12-byte window of `bytes[start..end]`, as text.
///
/// The callers hand it a run of ASCII bytes, which are always valid UTF-8.
pub fn check_run(bytes: &[u8], start: usize, end: usize) -> (r: Option<String>)
    requires
        end >= start + 12 ==> end <= bytes@.len(),
        end >= start + 12 ==> forall|k: int| start <= k < end ==> (#[trigger] bytes@[k]) < 0x80,
    ensures
        end < start + 12 ==> r is None,
        r is None ==> forall|q: int| start <= q && q + 12 <= end ==> !window_shaped(bytes@, q),
        r matches Some(w) ==> exists|p: int|
            first_window_in(bytes@, start as int, end - 11, p) && w@ == window_text(bytes@, p),
{
    if end < start || end - start < 12 {
        return None;
    }
    let mut p = start;
    let blen = bytes.len();
    while end - p >= 12
        invariant
            start <= p,
            p <= end,
            blen == bytes@.len(),
            end <= blen,
            end - start >= 12,
            forall|q: int| start <= q < p ==> !window_shaped(bytes@, q),
        decreases end - p,
    {
        if window_is_isin(bytes, p) {
            let w = window_string(bytes, p);
            assert(first_window_in(bytes@, start as int, end - 11, p as int));
            return Some(w);
        }
        p += 1;
    }
    None
}

/// The first ISIN-shaped token in the bytes of `body`, upper-cased.
pub open spec fn raw_scan_result(b: Seq<u8>, w: Seq<char>) -> bool {
    exists|p: int| first_window_in(b, 0, b.len() as int, p) && w == ascii_upper(window_text(b, p))
}

/// Last-ditch fallback: the first 12-character ISIN-shaped token anywhere in
/// the raw text (handles JSONP-style replies that do not parse as JSON).
pub fn scan_raw_body(body: &str) -> (r: Option<String>)
    ensures
        r is None ==> forall|q: int| !window_shaped(body.spec_bytes(), q),
        r matches Some(w) ==> raw_scan_result(body.spec_bytes(), w@),
{
    let bytes = body.as_bytes();
    let n = bytes.len();
    let mut start: usize = 0;
    let mut i: usize = 0;
    while i < n
        invariant
            n == bytes@.len(),
            bytes@ == body.spec_bytes(),
            start <= i <= n,
            start > 0 ==> !byte_alnum(bytes@[start - 1]),
            forall|k: int| start <= k < i ==> byte_alnum(#[trigger] bytes@[k]),
            forall|q: int| 0 <= q && q + 12 <= i ==> !window_shaped(bytes@, q),
        decreases n - i,
    {
        if !is_byte_alnum(bytes[i]) {
            assert forall|q: int| 0 <= q && q + 12 <= i + 1 implies !window_shaped(bytes@, q) by {
                if q + 12 == i + 1 && window_shaped(bytes@, q) {
                    lemma_window_bytes_alnum(bytes@, q, i as int);
                }
            }
            start = i + 1;
            i += 1;
            continue;
        }
        assert forall|k: int| start <= k < i + 1 implies (#[trigger] bytes@[k]) < 0x80 by {
            assert(byte_alnum(bytes@[k]));
        }
        let found = check_run(bytes, start, i + 1);
        match found {
            Some(w) => {
                let r = upper_chars(&chars_of(w.as_str()));
                proof {
                    let p = choose|p: int|
                        first_window_in(bytes@, start as int, i + 1 - 11, p) && w@ == window_text(
                            bytes@,
                            p,
                        );
                    assert(first_window_in(bytes@, 0, n as int, p));
                }
                return Some(string_of(&r));
            },
            None => {},
        }
        i += 1;
        assert forall|q: int| 0 <= q && q + 12 <= i implies !window_shaped(bytes@, q) by {
            if q + 12 == i && q < start && window_shaped(bytes@, q) {
                lemma_window_bytes_alnum(bytes@, q, start - 1);
            }
        }
    }
    None
}

} // verus!

verus! {

// ------------------------------------------------------------------
// Candidate lists
// ------------------------------------------------------------------

/// Outcome of scanning candidates in order: nothing found, a hit, or an
/// input on which the scan reaches a panicking ISIN check.
pub enum Scan {
    Miss,
    Hit(Seq<char>),
    Panic,
}

/// The first of two scans that is not a miss.
pub open spec fn then(x: Scan, y: Scan) -> Scan {
    match x {
        Scan::Miss => y,
        _ => x,
    }
}

/// The value found by a scan, if any.
pub open spec fn found(s: Scan) -> Option<Seq<char>> {
    match s {
        Scan::Hit(x) => Some(x),
        _ => None,
    }
}

pub open spec fn opt_view(o: Option<String>) -> Option<Seq<char>> {
    match o {
        Some(s) => Some(s@),
        None => None,
    }
}

pub open spec fn strings_view(v: Seq<String>) -> Seq<Seq<char>> {
    v.map_values(|s: String| s@)
}

pub open spec fn chars_view(v: Seq<Vec<char>>) -> Seq<Seq<char>> {
    v.map_values(|s: Vec<char>| s@)
}

/// Outcome of running a scan: the run-time counterpart of [`Scan`].
pub enum Found {
    Miss,
    Hit(Vec<char>),
    Panic,
}

pub open spec fn found_view(f: Found) -> Scan {
    match f {
        Found::Miss => Scan::Miss,
        Found::Hit(v) => Scan::Hit(v@),
        Found::Panic => Scan::Panic,
    }
}

/// Whether the ISIN check panics on `v` ([`isin_check_panics`]).
fn isin_panics_chars(v: &[char]) -> (r: bool)
    ensures
        r == isin_check_panics(v@),
{
    let t = trim_chars(v);
    if utf8_len_capped(&t, 12) != 12 {
        return false;
    }
    if t.len() < 2 {
        return false;
    }
    char_is_ascii_alpha(t[0]) && char_is_ascii_alpha(t[1]) && !((t[t.len() - 1] as u32) < 0x80)
}

/// The first ISIN-shaped entry of `parts` from index `i` on, upper-cased.
pub open spec fn parts_scan(parts: Seq<Seq<char>>, i: int) -> Scan
    decreases parts.len() - i,
{
    if i < 0 || i >= parts.len() {
        Scan::Miss
    } else if isin_check_panics(parts[i]) {
        Scan::Panic
    } else if spec_looks_like_isin(parts[i]) {
        Scan::Hit(ascii_upper(parts[i]))
    } else {
        parts_scan(parts, i + 1)
    }
}

/// `pick_from_parts`: when the first part names `target`, the first
/// ISIN-shaped part (upper-cased); otherwise nothing.
pub open spec fn pick_scan(parts: Seq<Seq<char>>, target: Seq<char>) -> Scan {
    if parts.len() == 0 || spec_normalize_sym(parts[0]) != target {
        Scan::Miss
    } else {
        parts_scan(parts, 0)
    }
}

fn parts_search(parts: &Vec<Vec<char>>, i0: usize) -> (r: Found)
    requires
        i0 <= parts@.len(),
    ensures
        found_view(r) == parts_scan(chars_view(parts@), i0 as int),
{
    let ghost pv = chars_view(parts@);
    let mut i = i0;
    while i < parts.len()
        invariant
            i0 <= i <= parts@.len(),
            pv == chars_view(parts@),
            parts_scan(pv, i0 as int) == parts_scan(pv, i as int),
        decreases parts@.len() - i,
    {
        assert(pv[i as int] == parts@[i as int]@);
        if isin_panics_chars(&parts[i]) {
            return Found::Panic;
        }
        if isin_chars(&parts[i]) {
            return Found::Hit(upper_chars(&parts[i]));
        }
        i += 1;
    }
    Found::Miss
}

fn pick_chars(parts: &Vec<Vec<char>>, target: &[char]) -> (r: Found)
    ensures
        found_view(r) == pick_scan(chars_view(parts@), target@),
{
    if parts.len() == 0 {
        return Found::Miss;
    }
    let first = normalize_chars(&parts[0]);
    assert(chars_view(parts@)[0] == parts@[0]@);
    if !chars_eq(&first, target) {
        return Found::Miss;
    }
    parts_search(parts, 0)
}

/// Given the parts of a suggestion value, the first ISIN-shaped part when the
/// first part is the symbol `target`.
pub fn pick_from_parts(parts: &[String], target: &str) -> (r: Option<String>)
    requires
        pick_scan(strings_view(parts@), target@) != Scan::Panic,
    ensures
        opt_view(r) == found(pick_scan(strings_view(parts@), target@)),
{
    let mut v: Vec<Vec<char>> = Vec::new();
    let mut i: usize = 0;
    while i < parts.len()
        invariant
            i <= parts@.len(),
            chars_view(v@) == strings_view(parts@.take(i as int)),
        decreases parts@.len() - i,
    {
        let ghost before = v@;
        assert(chars_view(before).len() == before.len());
        assert(before.len() == i);
        let c = chars_of(parts[i].as_str());
        v.push(c);
        assert forall|k: int| 0 <= k < i + 1 implies #[trigger] chars_view(v@)[k] == strings_view(
            parts@.take(i + 1),
        )[k] by {
            if k < i {
                assert(v@[k] == before.push(c)[k]);
                assert(chars_view(v@)[k] == before[k]@);
                assert(chars_view(before)[k] == strings_view(parts@.take(i as int))[k]);
            }
        }
        i += 1;
        assert(chars_view(v@) =~= strings_view(parts@.take(i as int)));
    }
    assert(parts@.take(parts@.len() as int) =~= parts@);
    let t = chars_of(target);
    match pick_chars(&v, &t) {
        Found::Hit(x) => Some(string_of(&x)),
        _ => None,
    }
}

// ------------------------------------------------------------------
// Splitting a suggestion value
// ------------------------------------------------------------------

/// `s.split(sep)`: the pieces between the occurrences of `sep`.
pub open spec fn split_char(s: Seq<char>, sep: char) -> Seq<Seq<char>>
    decreases s.len(),
{
    if s.len() == 0 {
        seq![Seq::empty()]
    } else {
        let p = split_char(s.drop_last(), sep);
        if s.last() == sep {
            p.push(Seq::empty())
        } else {
            p.update(p.len() - 1, p.last().push(s.last()))
        }
    }
}

proof fn lemma_split_nonempty(s: Seq<char>, sep: char)
    ensures
        split_char(s, sep).len() >= 1,
    decreases s.len(),
{
    if s.len() > 0 {
        lemma_split_nonempty(s.drop_last(), sep);
    }
}

/// The pieces of `value` between `|` separators, trimmed, empty ones dropped.
pub open spec fn value_parts(value: Seq<char>) -> Seq<Seq<char>> {
    split_char(value, '|').map_values(|p: Seq<char>| trim(p)).filter(|p: Seq<char>| p.len() > 0)
}

/// The pieces of `value` between `|` separators, trimmed.
pub open spec fn value_tokens(value: Seq<char>) -> Seq<Seq<char>> {
    split_char(value, '|').map_values(|p: Seq<char>| trim(p))
}

fn split_pieces(v: &[char], sep: char) -> (r: Vec<Vec<char>>)
    ensures
        chars_view(r@) == split_char(v@, sep),
{
    let mut done: Vec<Vec<char>> = Vec::new();
    let mut cur: Vec<char> = Vec::new();
    let mut i: usize = 0;
    while i < v.len()
        invariant
            i <= v@.len(),
            chars_view(done@).push(cur@) == split_char(v@.take(i as int), sep),
        decreases v@.len() - i,
    {
        let c = v[i];
        let ghost before = chars_view(done@).push(cur@);
        assert(v@.take(i + 1).drop_last() =~= v@.take(i as int));
        if c == sep {
            done.push(cur);
            cur = Vec::new();
            assert(chars_view(done@).push(cur@) =~= before.push(Seq::empty()));
        } else {
            cur.push(c);
            assert(chars_view(done@).push(cur@) =~= before.update(
                before.len() - 1,
                before.last().push(c),
            ));
        }
        i += 1;
    }
    assert(v@.take(v@.len() as int) =~= v@);
    done.push(cur);
    done
}

fn trimmed_pieces(v: &[char]) -> (r: Vec<Vec<char>>)
    ensures
        chars_view(r@) == value_tokens(v@),
{
    let pieces = split_pieces(v, '|');
    let mut out: Vec<Vec<char>> = Vec::new();
    let mut i: usize = 0;
    while i < pieces.len()
        invariant
            i <= pieces@.len(),
            chars_view(pieces@) == split_char(v@, '|'),
            chars_view(out@) == chars_view(pieces@).take(i as int).map_values(
                |p: Seq<char>| trim(p),
            ),
        decreases pieces@.len() - i,
    {
        let ghost before = out@;
        assert(chars_view(before).len() == before.len());
        assert(before.len() == i);
        let tp = trim_chars(&pieces[i]);
        out.push(tp);
        assert forall|k: int| 0 <= k < i + 1 implies #[trigger] chars_view(out@)[k]
            == chars_view(pieces@).take(i + 1).map_values(|p: Seq<char>| trim(p))[k] by {
            if k < i {
                assert(out@[k] == before.push(tp)[k]);
                assert(chars_view(out@)[k] == before[k]@);
                assert(chars_view(before)[k] == chars_view(pieces@).take(i as int).map_values(
                    |p: Seq<char>| trim(p),
                )[k]);
            } else {
                assert(chars_view(pieces@)[k] == pieces@[k]@);
            }
        }
        i += 1;
        assert(chars_view(out@) =~= chars_view(pieces@).take(i as int).map_values(
            |p: Seq<char>| trim(p),
        ));
    }
    assert(chars_view(pieces@).take(pieces@.len() as int) =~= chars_view(pieces@));
    out
}

fn value_parts_of(v: &[char]) -> (r: Vec<Vec<char>>)
    ensures
        chars_view(r@) == value_parts(v@),
{
    let toks = trimmed_pieces(v);
    let ghost tv = chars_view(toks@);
    let ghost pred = |p: Seq<char>| p.len() > 0;
    let mut out: Vec<Vec<char>> = Vec::new();
    let mut i: usize = 0;
    while i < toks.len()
        invariant
            i <= toks@.len(),
            tv == chars_view(toks@),
            tv == value_tokens(v@),
            pred == (|p: Seq<char>| p.len() > 0),
            chars_view(out@) == tv.take(i as int).filter(pred),
        decreases toks@.len() - i,
    {
        proof {
            reveal(Seq::filter);
            assert(tv.take(i + 1).drop_last() =~= tv.take(i as int));
            assert(tv.take(i + 1).last() == toks@[i as int]@);
        }
        if toks[i].len() > 0 {
            let ghost before = out@;
            let cp = sub_chars(&toks[i], 0, toks[i].len());
            assert(cp@ =~= toks@[i as int]@);
            out.push(cp);
            assert forall|k: int| 0 <= k < out@.len() implies #[trigger] chars_view(out@)[k]
                == chars_view(before).push(toks@[i as int]@)[k] by {
                if k < before.len() {
                    assert(out@[k] == before.push(cp)[k]);
                    assert(chars_view(out@)[k] == before[k]@);
                }
            }
            assert(chars_view(out@) =~= chars_view(before).push(toks@[i as int]@));
        }
        i += 1;
    }
    assert(tv.take(toks@.len() as int) =~= tv);
    out
}

} // verus!

verus! {

// ------------------------------------------------------------------
// JSON-shaped replies
// ------------------------------------------------------------------

/// Object keys that usually hold the list of suggestions, in the order tried.
pub open spec fn list_keys() -> Seq<Seq<char>> {
    seq!["Suggestions"@, "suggestions"@, "items"@, "results"@, "Result"@, "data"@]
}

/// Keys under which a suggestion carries its ISIN, in the order tried.
pub open spec fn isin_keys() -> Seq<Seq<char>> {
    seq!["Isin"@, "isin"@, "ISIN"@]
}

/// The arrays found under `keys[k..]` of an object, in key order.
pub open spec fn keyed_arrays(obj: Seq<(String, Json)>, keys: Seq<Seq<char>>, k: int) -> Seq<
    Seq<Json>,
>
    decreases keys.len() - k,
{
    if k < 0 || k >= keys.len() {
        Seq::empty()
    } else {
        match obj_get(obj, keys[k]) {
            Some(Json::Array(a)) => seq![a@] + keyed_arrays(obj, keys, k + 1),
            _ => keyed_arrays(obj, keys, k + 1),
        }
    }
}

/// The arrays among the members of an object.
pub open spec fn member_arrays(obj: Seq<(String, Json)>) -> Seq<Seq<Json>>
    decreases obj.len(),
{
    if obj.len() == 0 {
        Seq::empty()
    } else {
        member_arrays(obj.drop_last()) + match obj.last().1 {
            Json::Array(a) => seq![a@],
            _ => Seq::empty(),
        }
    }
}

/// The arrays among the members of an object and among the members of the
/// objects it holds, in member order.
pub open spec fn nested_arrays(obj: Seq<(String, Json)>) -> Seq<Seq<Json>>
    decreases obj.len(),
{
    if obj.len() == 0 {
        Seq::empty()
    } else {
        nested_arrays(obj.drop_last()) + match obj.last().1 {
            Json::Array(a) => seq![a@],
            Json::Object(inner) => member_arrays(inner@),
            _ => Seq::empty(),
        }
    }
}

/// The lists of suggestions in a parsed reply: the reply itself when it is an
/// array; for an object, the arrays under the usual keys, or failing those
/// every array one or two levels down.
pub open spec fn candidate_arrays(val: Json) -> Seq<Seq<Json>> {
    match val {
        Json::Array(a) => seq![a@],
        Json::Object(m) => {
            let k = keyed_arrays(m@, list_keys(), 0);
            if k.len() > 0 {
                k
            } else {
                nested_arrays(m@)
            }
        },
        _ => Seq::empty(),
    }
}

/// The symbol a suggestion names (`Symbol`, then `symbol`, else empty).
pub open spec fn item_symbol(obj: Seq<(String, Json)>) -> Seq<char> {
    match json_str(obj_get(obj, "Symbol"@)) {
        Some(s) => s,
        None => match json_str(obj_get(obj, "symbol"@)) {
            Some(s) => s,
            None => Seq::empty(),
        },
    }
}

/// The `Value` (or `value`) text of a suggestion.
pub open spec fn item_value(obj: Seq<(String, Json)>) -> Option<Seq<char>> {
    match json_str(obj_get(obj, "Value"@)) {
        Some(s) => Some(s),
        None => json_str(obj_get(obj, "value"@)),
    }
}

/// ISIN fields of a suggestion from `isin_keys()[k..]`: the first ISIN-shaped
/// one, provided the suggestion names no symbol or names `target`.
pub open spec fn keyed_isin_scan(obj: Seq<(String, Json)>, k: int, target: Seq<char>) -> Scan
    decreases 3 - k,
{
    if k < 0 || k >= 3 {
        Scan::Miss
    } else {
        match json_str(obj_get(obj, isin_keys()[k])) {
            Some(s) => if isin_check_panics(s) {
                Scan::Panic
            } else if spec_looks_like_isin(s) && (item_symbol(obj).len() == 0
                || spec_normalize_sym(item_symbol(obj)) == target) {
                Scan::Hit(ascii_upper(s))
            } else {
                keyed_isin_scan(obj, k + 1, target)
            },
            None => keyed_isin_scan(obj, k + 1, target),
        }
    }
}

/// What one suggestion yields for `target`.
pub open spec fn item_scan(item: Json, target: Seq<char>) -> Scan {
    match item {
        Json::Object(o) => then(
            keyed_isin_scan(o@, 0, target),
            match item_value(o@) {
                Some(v) => pick_scan(value_parts(v), target),
                None => Scan::Miss,
            },
        ),
        _ => Scan::Miss,
    }
}

pub open spec fn items_scan(items: Seq<Json>, i: int, target: Seq<char>) -> Scan
    decreases items.len() - i,
{
    if i < 0 || i >= items.len() {
        Scan::Miss
    } else {
        then(item_scan(items[i], target), items_scan(items, i + 1, target))
    }
}

pub open spec fn arrays_scan(arrs: Seq<Seq<Json>>, a: int, target: Seq<char>) -> Scan
    decreases arrs.len() - a,
{
    if a < 0 || a >= arrs.len() {
        Scan::Miss
    } else {
        then(items_scan(arrs[a], 0, target), arrays_scan(arrs, a + 1, target))
    }
}

/// What a JSON reply yields for `target`: the first suggestion, over the
/// candidate lists in order, that gives an ISIN.
pub open spec fn json_scan(val: Json, target: Seq<char>) -> Scan {
    arrays_scan(candidate_arrays(val), 0, target)
}

pub open spec fn refs_view(v: Seq<&Vec<Json>>) -> Seq<Seq<Json>> {
    v.map_values(|a: &Vec<Json>| a@)
}

fn push_array<'a>(out: &mut Vec<&'a Vec<Json>>, v: &'a Json)
    ensures
        refs_view(final(out)@) == refs_view(old(out)@) + match *v {
            Json::Array(a) => seq![a@],
            _ => Seq::empty(),
        },
{
    let ghost before = out@;
    match v {
        Json::Array(a) => {
            out.push(a);
            assert(refs_view(out@) =~= refs_view(before) + seq![a@]);
        },
        _ => {
            assert(refs_view(out@) =~= refs_view(before) + Seq::empty());
        },
    }
}

fn collect_arrays(val: &Json) -> (r: Vec<&Vec<Json>>)
    ensures
        refs_view(r@) == candidate_arrays(*val),
{
    let mut arrays: Vec<&Vec<Json>> = Vec::new();
    match val {
        Json::Array(a) => {
            arrays.push(a);
            assert(refs_view(arrays@) =~= seq![a@]);
        },
        Json::Object(map) => {
            let keys = [
                chars_of("Suggestions"),
                chars_of("suggestions"),
                chars_of("items"),
                chars_of("results"),
                chars_of("Result"),
                chars_of("data"),
            ];
            let ghost kv = seq![keys[0]@, keys[1]@, keys[2]@, keys[3]@, keys[4]@, keys[5]@];
            assert(kv =~= list_keys());
            let mut k: usize = 0;
            while k < 6
                invariant
                    k <= 6,
                    kv == list_keys(),
                    forall|j: int| 0 <= j < 6 ==> keys@[j]@ == #[trigger] kv[j],
                    keyed_arrays(map@, kv, 0) == refs_view(arrays@) + keyed_arrays(
                        map@,
                        kv,
                        k as int,
                    ),
                decreases 6 - k,
            {
                let ghost before = refs_view(arrays@);
                assert(keys@[k as int]@ == kv[k as int]);
                match get(map, &keys[k]) {
                    Some(v) => {
                        push_array(&mut arrays, v);
                        proof {
                            match v {
                                Json::Array(a) => {
                                    assert(refs_view(arrays@) + keyed_arrays(map@, kv, k + 1) =~= before
                                        + (seq![a@] + keyed_arrays(map@, kv, k + 1)));
                                },
                                _ => {
                                    assert(refs_view(arrays@) =~= before);
                                },
                            }
                        }
                    },
                    None => {},
                }
                k += 1;
            }
            assert(keyed_arrays(map@, kv, 6) =~= Seq::<Seq<Json>>::empty());
            assert(refs_view(arrays@) =~= keyed_arrays(map@, list_keys(), 0));
            if arrays.len() == 0 {
                let mut i: usize = 0;
                while i < map.len()
                    invariant
                        i <= map@.len(),
                        refs_view(arrays@) == nested_arrays(map@.take(i as int)),
                    decreases map@.len() - i,
                {
                    let ghost before = refs_view(arrays@);
                    let v = &map[i].1;
                    assert(map@.take(i + 1).drop_last() =~= map@.take(i as int));
                    match v {
                        Json::Array(_) => {
                            push_array(&mut arrays, v);
                        },
                        Json::Object(inner) => {
                            let mut j: usize = 0;
                            while j < inner.len()
                                invariant
                                    j <= inner@.len(),
                                    refs_view(arrays@) == before + member_arrays(
                                        inner@.take(j as int),
                                    ),
                                decreases inner@.len() - j,
                            {
                                assert(inner@.take(j + 1).drop_last() =~= inner@.take(j as int));
                                let ghost b2 = refs_view(arrays@);
                                push_array(&mut arrays, &inner[j].1);
                                assert(refs_view(arrays@) =~= before + member_arrays(
                                    inner@.take(j + 1),
                                ));
                                j += 1;
                            }
                            assert(inner@.take(inner@.len() as int) =~= inner@);
                        },
                        _ => {},
                    }
                    i += 1;
                    assert(refs_view(arrays@) =~= nested_arrays(map@.take(i as int)));
                }
                assert(map@.take(map@.len() as int) =~= map@);
            }
        },
        _ => {},
    }
    arrays
}

} // verus!

verus! {

fn item_symbol_of(obj: &Vec<(String, Json)>) -> (r: Vec<char>)
    ensures
        r@ == item_symbol(obj@),
{
    let k1 = chars_of("Symbol");
    match get_str(obj, &k1) {
        Some(s) => chars_of(s.as_str()),
        None => {
            let k2 = chars_of("symbol");
            match get_str(obj, &k2) {
                Some(s) => chars_of(s.as_str()),
                None => Vec::new(),
            }
        },
    }
}

fn item_value_of(obj: &Vec<(String, Json)>) -> (r: Option<Vec<char>>)
    ensures
        match r {
            Some(v) => item_value(obj@) == Some(v@),
            None => item_value(obj@) is None,
        },
{
    let k1 = chars_of("Value");
    match get_str(obj, &k1) {
        Some(s) => Some(chars_of(s.as_str())),
        None => {
            let k2 = chars_of("value");
            match get_str(obj, &k2) {
                Some(s) => Some(chars_of(s.as_str())),
                None => None,
            }
        },
    }
}

fn item_isin(item: &Json, target: &[char]) -> (r: Found)
    ensures
        found_view(r) == item_scan(*item, target@),
{
    let obj = match item {
        Json::Object(o) => o,
        _ => {
            return Found::Miss;
        },
    };
    let keys = [chars_of("Isin"), chars_of("isin"), chars_of("ISIN")];
    let ghost kv = seq![keys[0]@, keys[1]@, keys[2]@];
    assert(kv =~= isin_keys());
    let mut k: usize = 0;
    while k < 3
        invariant
            k <= 3,
            kv == isin_keys(),
            forall|j: int| 0 <= j < 3 ==> keys@[j]@ == #[trigger] kv[j],
            *item == Json::Object(*obj),
            keyed_isin_scan(obj@, 0, target@) == keyed_isin_scan(obj@, k as int, target@),
        decreases 3 - k,
    {
        assert(keys@[k as int]@ == isin_keys()[k as int]);
        match get_str(obj, &keys[k]) {
            Some(s) => {
                let sv = chars_of(s.as_str());
                if isin_panics_chars(&sv) {
                    return Found::Panic;
                }
                if isin_chars(&sv) {
                    let sym = item_symbol_of(obj);
                    let ok = if sym.len() == 0 {
                        true
                    } else {
                        let n = normalize_chars(&sym);
                        chars_eq(&n, target)
                    };
                    if ok {
                        return Found::Hit(upper_chars(&sv));
                    }
                }
            },
            None => {},
        }
        k += 1;
    }
    match item_value_of(obj) {
        Some(v) => {
            let parts = value_parts_of(&v);
            pick_chars(&parts, target)
        },
        None => Found::Miss,
    }
}

fn json_found(val: &Json, t: &[char]) -> (r: Found)
    ensures
        found_view(r) == json_scan(*val, t@),
{
    let arrays = collect_arrays(val);
    let ghost arrs = refs_view(arrays@);
    let mut a: usize = 0;
    while a < arrays.len()
        invariant
            a <= arrays@.len(),
            arrs == refs_view(arrays@),
            arrs == candidate_arrays(*val),
            json_scan(*val, t@) == arrays_scan(arrs, a as int, t@),
        decreases arrays@.len() - a,
    {
        let items: &Vec<Json> = arrays[a];
        assert(arrs[a as int] == items@);
        let mut i: usize = 0;
        while i < items.len()
            invariant
                a < arrays@.len(),
                i <= items@.len(),
                arrs[a as int] == items@,
                json_scan(*val, t@) == then(
                    items_scan(items@, i as int, t@),
                    arrays_scan(arrs, a + 1, t@),
                ),
            decreases items@.len() - i,
        {
            match item_isin(&items[i], t) {
                Found::Miss => {},
                other => {
                    return other;
                },
            }
            i += 1;
        }
        a += 1;
    }
    Found::Miss
}

/// The ISIN that a parsed JSON reply gives for the symbol root `target`.
pub fn parse_as_json_value(val: &Json, target: &str) -> (r: Option<String>)
    requires
        json_scan(*val, target@) != Scan::Panic,
    ensures
        opt_view(r) == found(json_scan(*val, target@)),
{
    let t = chars_of(target);
    match json_found(val, &t) {
        Found::Hit(x) => Some(string_of(&x)),
        _ => None,
    }
}

// ------------------------------------------------------------------
// Flat-array replies
// ------------------------------------------------------------------

/// One record of a flat-array reply.
#[derive(Debug, Clone, PartialEq, Eq)]
pub struct FlatSuggest {
    /// `|`-separated description (symbol first).
    pub value: Option<String>,
    /// Symbol of the record.
    pub symbol: Option<String>,
    /// ISIN of the record.
    pub isin: Option<String>,
}

/// First pass over a record: its ISIN when the record names `target`, then
/// the ISIN in its description when that starts with `target`.
pub open spec fn row_strict_scan(r: FlatSuggest, target: Seq<char>) -> Scan {
    then(
        match r.isin {
            Some(x) => if isin_check_panics(x@) {
                Scan::Panic
            } else if spec_looks_like_isin(x@) && (r.symbol matches Some(s)
                && spec_normalize_sym(s@) == target) {
                Scan::Hit(ascii_upper(x@))
            } else {
                Scan::Miss
            },
            None => Scan::Miss,
        },
        match r.value {
            Some(v) => pick_scan(value_parts(v@), target),
            None => Scan::Miss,
        },
    )
}

/// Second pass over a record: any ISIN-shaped field or description token.
pub open spec fn row_loose_scan(r: FlatSuggest) -> Scan {
    then(
        match r.isin {
            Some(x) => if isin_check_panics(x@) {
                Scan::Panic
            } else if spec_looks_like_isin(x@) {
                Scan::Hit(ascii_upper(x@))
            } else {
                Scan::Miss
            },
            None => Scan::Miss,
        },
        match r.value {
            Some(v) => parts_scan(value_tokens(v@), 0),
            None => Scan::Miss,
        },
    )
}

pub open spec fn rows_strict_scan(rows: Seq<FlatSuggest>, i: int, target: Seq<char>) -> Scan
    decreases rows.len() - i,
{
    if i < 0 || i >= rows.len() {
        Scan::Miss
    } else {
        then(row_strict_scan(rows[i], target), rows_strict_scan(rows, i + 1, target))
    }
}

pub open spec fn rows_loose_scan(rows: Seq<FlatSuggest>, i: int) -> Scan
    decreases rows.len() - i,
{
    if i < 0 || i >= rows.len() {
        Scan::Miss
    } else {
        then(row_loose_scan(rows[i]), rows_loose_scan(rows, i + 1))
    }
}

/// What a flat-array reply yields for `target`: a record that names it, or
/// failing that the first ISIN-shaped token of any record.
pub open spec fn flat_scan(rows: Seq<FlatSuggest>, target: Seq<char>) -> Scan {
    then(rows_strict_scan(rows, 0, target), rows_loose_scan(rows, 0))
}

fn row_strict(r: &FlatSuggest, target: &[char]) -> (out: Found)
    ensures
        found_view(out) == row_strict_scan(*r, target@),
{
    match &r.isin {
        Some(x) => {
            let xv = chars_of(x.as_str());
            if isin_panics_chars(&xv) {
                return Found::Panic;
            }
            if isin_chars(&xv) {
                match &r.symbol {
                    Some(s) => {
                        let n = normalize_chars(&chars_of(s.as_str()));
                        if chars_eq(&n, target) {
                            return Found::Hit(upper_chars(&xv));
                        }
                    },
                    None => {},
                }
            }
        },
        None => {},
    }
    match &r.value {
        Some(v) => {
            let parts = value_parts_of(&chars_of(v.as_str()));
            pick_chars(&parts, target)
        },
        None => Found::Miss,
    }
}

fn row_loose(r: &FlatSuggest) -> (out: Found)
    ensures
        found_view(out) == row_loose_scan(*r),
{
    match &r.isin {
        Some(x) => {
            let xv = chars_of(x.as_str());
            if isin_panics_chars(&xv) {
                return Found::Panic;
            }
            if isin_chars(&xv) {
                return Found::Hit(upper_chars(&xv));
            }
        },
        None => {},
    }
    match &r.value {
        Some(v) => {
            let toks = trimmed_pieces(&chars_of(v.as_str()));
            parts_search(&toks, 0)
        },
        None => Found::Miss,
    }
}

fn flat_found(rows: &[FlatSuggest], t: &[char]) -> (r: Found)
    ensures
        found_view(r) == flat_scan(rows@, t@),
{
    let mut i: usize = 0;
    while i < rows.len()
        invariant
            i <= rows@.len(),
            flat_scan(rows@, t@) == then(rows_strict_scan(rows@, i as int, t@), rows_loose_scan(rows@, 0)),
        decreases rows@.len() - i,
    {
        match row_strict(&rows[i], t) {
            Found::Miss => {},
            other => {
                return other;
            },
        }
        i += 1;
    }
    let mut j: usize = 0;
    while j < rows.len()
        invariant
            j <= rows@.len(),
            flat_scan(rows@, t@) == rows_loose_scan(rows@, j as int),
        decreases rows@.len() - j,
    {
        match row_loose(&rows[j]) {
            Found::Miss => {},
            other => {
                return other;
            },
        }
        j += 1;
    }
    Found::Miss
}

/// The ISIN that a flat-array reply gives for the symbol root `target`.
pub fn pick_from_flat_suggest(rows: &[FlatSuggest], target: &str) -> (r: Option<String>)
    requires
        flat_scan(rows@, target@) != Scan::Panic,
    ensures
        opt_view(r) == found(flat_scan(rows@, target@)),
{
    let t = chars_of(target);
    match flat_found(rows, &t) {
        Found::Hit(x) => Some(string_of(&x)),
        _ => None,
    }
}

// ------------------------------------------------------------------
// Whole reply
// ------------------------------------------------------------------

/// What a reply yields for `symbol`: the JSON reading if it finds an ISIN,
/// else the flat-array reading, else nothing (the raw scan then decides).
pub open spec fn reply_scan(symbol: Seq<char>, json: Option<Json>, flat: Option<Seq<FlatSuggest>>) -> Scan {
    let target = spec_normalize_sym(symbol);
    then(
        match json {
            Some(v) => json_scan(v, target),
            None => Scan::Miss,
        },
        match flat {
            Some(rows) => flat_scan(rows, target),
            None => Scan::Miss,
        },
    )
}

pub open spec fn flat_view(f: Option<&Vec<FlatSuggest>>) -> Option<Seq<FlatSuggest>> {
    match f {
        Some(v) => Some(v@),
        None => None,
    }
}

pub open spec fn json_view(j: Option<&Json>) -> Option<Json> {
    match j {
        Some(v) => Some(*v),
        None => None,
    }
}

/// Whether the reading of a reply reaches an ISIN check that panics (see
/// [`isin_check_panics`]): exactly the replies [`isin_from_reply`] does not
/// take.
pub fn isin_reply_panics(symbol: &str, json: Option<&Json>, flat: Option<&Vec<FlatSuggest>>) -> (r:
    bool)
    ensures
        r == (reply_scan(symbol@, json_view(json), flat_view(flat)) == Scan::Panic),
{
    let target = normalize_sym(symbol);
    let t = chars_of(target.as_str());
    let first = match json {
        Some(v) => json_found(v, &t),
        None => Found::Miss,
    };
    match first {
        Found::Miss => {},
        Found::Hit(_) => {
            return false;
        },
        Found::Panic => {
            return true;
        },
    }
    match flat {
        Some(rows) => match flat_found(rows.as_slice(), &t) {
            Found::Panic => true,
            _ => false,
        },
        None => false,
    }
}

/// The ISIN for `symbol` in a suggest-endpoint reply. `json` is the reply
/// parsed as JSON, `flat` the reply parsed as an array of records (each
/// `None` when the text does not parse that way), `body` the raw text.
pub fn isin_from_reply(
    symbol: &str,
    body: &str,
    json: Option<&Json>,
    flat: Option<&Vec<FlatSuggest>>,
) -> (r: Option<String>)
    requires
        reply_scan(symbol@, json_view(json), flat_view(flat)) != Scan::Panic,
    ensures
        found(reply_scan(symbol@, json_view(json), flat_view(flat))) matches Some(x) ==> opt_view(r)
            == Some(x),
        found(reply_scan(symbol@, json_view(json), flat_view(flat))) is None ==> {
            &&& r is None ==> forall|q: int| !window_shaped(body.spec_bytes(), q)
            &&& r matches Some(w) ==> raw_scan_result(body.spec_bytes(), w@)
        },
{
    let target = normalize_sym(symbol);
    match json {
        Some(v) => {
            match parse_as_json_value(v, target.as_str()) {
                Some(x) => {
                    return Some(x);
                },
                None => {},
            }
        },
        None => {},
    }
    match flat {
        Some(rows) => {
            match pick_from_flat_suggest(rows.as_slice(), target.as_str()) {
                Some(x) => {
                    return Some(x);
                },
                None => {},
            }
        },
        None => {},
    }
    scan_raw_body(body)
}

} // verus!

verus! {

// ------------------------------------------------------------------
// What a reading yields
// ------------------------------------------------------------------

/// An ISIN as the lookup hands it out: ISIN-shaped once trimmed, and with no
/// lower-case ASCII letter.
pub open spec fn upper_isin(x: Seq<char>) -> bool {
    &&& isin_shape(trim(x))
    &&& forall|i: int| 0 <= i < x.len() ==> !('a' <= #[trigger] x[i] && x[i] <= 'z')
}

proof fn lemma_skip_ws_upper(s: Seq<char>, i: int)
    ensures
        skip_ws(ascii_upper(s), i) == skip_ws(s, i),
    decreases s.len() - i,
{
    if 0 <= i < s.len() {
        assert(ascii_upper(s)[i] == upper_char(s[i]));
        lemma_skip_ws_upper(s, i + 1);
    }
}

proof fn lemma_back_ws_upper(s: Seq<char>, lo: int, j: int)
    requires
        0 <= lo,
    ensures
        back_ws(ascii_upper(s), lo, j) == back_ws(s, lo, j),
    decreases j - lo,
{
    if lo < j && j <= s.len() {
        assert(ascii_upper(s)[j - 1] == upper_char(s[j - 1]));
        lemma_back_ws_upper(s, lo, j - 1);
    }
}

proof fn lemma_skip_ws_bounds(s: Seq<char>, i: int)
    requires
        0 <= i <= s.len(),
    ensures
        i <= skip_ws(s, i) <= s.len(),
    decreases s.len() - i,
{
    if i < s.len() && is_ws(s[i]) {
        lemma_skip_ws_bounds(s, i + 1);
    }
}

proof fn lemma_back_ws_bounds(s: Seq<char>, lo: int, j: int)
    requires
        0 <= lo <= j <= s.len(),
    ensures
        lo <= back_ws(s, lo, j) <= j,
    decreases j - lo,
{
    if lo < j && is_ws(s[j - 1]) {
        lemma_back_ws_bounds(s, lo, j - 1);
    }
}

proof fn lemma_trim_upper(s: Seq<char>)
    ensures
        trim(ascii_upper(s)) == ascii_upper(trim(s)),
{
    lemma_skip_ws_upper(s, 0);
    lemma_skip_ws_bounds(s, 0);
    let lo = skip_ws(s, 0);
    lemma_back_ws_upper(s, lo, s.len() as int);
    lemma_back_ws_bounds(s, lo, s.len() as int);
    assert(trim(ascii_upper(s)) =~= ascii_upper(trim(s)));
}

/// Upper-casing a string the ISIN check accepts gives an ISIN as handed out.
proof fn lemma_upper_of_isin(s: Seq<char>)
    requires
        spec_looks_like_isin(s),
    ensures
        upper_isin(ascii_upper(s)),
{
    lemma_trim_upper(s);
    let t = trim(s);
    let u = ascii_upper(t);
    assert(u.len() == 12);
    assert(is_ascii_alpha(u[0]) && is_ascii_alpha(u[1]));
    assert forall|i: int| 2 <= i < 11 implies is_ascii_alnum(#[trigger] u[i]) by {
        assert(is_ascii_alnum(t[i]));
    }
    assert(is_ascii_digit(u[11]));
}

proof fn lemma_parts_hit(parts: Seq<Seq<char>>, i: int)
    ensures
        parts_scan(parts, i) matches Scan::Hit(x) ==> upper_isin(x),
    decreases parts.len() - i,
{
    if 0 <= i < parts.len() && !isin_check_panics(parts[i]) {
        if spec_looks_like_isin(parts[i]) {
            lemma_upper_of_isin(parts[i]);
        } else {
            lemma_parts_hit(parts, i + 1);
        }
    }
}

proof fn lemma_pick_hit(parts: Seq<Seq<char>>, target: Seq<char>)
    ensures
        pick_scan(parts, target) matches Scan::Hit(x) ==> upper_isin(x),
{
    lemma_parts_hit(parts, 0);
}

proof fn lemma_keyed_hit(obj: Seq<(String, Json)>, k: int, target: Seq<char>)
    ensures
        keyed_isin_scan(obj, k, target) matches Scan::Hit(x) ==> upper_isin(x),
    decreases 3 - k,
{
    if 0 <= k < 3 {
        match json_str(obj_get(obj, isin_keys()[k])) {
            Some(s) => {
                if !isin_check_panics(s) && spec_looks_like_isin(s) {
                    lemma_upper_of_isin(s);
                }
                lemma_keyed_hit(obj, k + 1, target);
            },
            None => {
                lemma_keyed_hit(obj, k + 1, target);
            },
        }
    }
}

proof fn lemma_item_hit(item: Json, target: Seq<char>)
    ensures
        item_scan(item, target) matches Scan::Hit(x) ==> upper_isin(x),
{
    match item {
        Json::Object(o) => {
            lemma_keyed_hit(o@, 0, target);
            match item_value(o@) {
                Some(v) => lemma_pick_hit(value_parts(v), target),
                None => {},
            }
        },
        _ => {},
    }
}

proof fn lemma_items_hit(items: Seq<Json>, i: int, target: Seq<char>)
    ensures
        items_scan(items, i, target) matches Scan::Hit(x) ==> upper_isin(x),
    decreases items.len() - i,
{
    if 0 <= i < items.len() {
        lemma_item_hit(items[i], target);
        lemma_items_hit(items, i + 1, target);
    }
}

proof fn lemma_arrays_hit(arrs: Seq<Seq<Json>>, a: int, target: Seq<char>)
    ensures
        arrays_scan(arrs, a, target) matches Scan::Hit(x) ==> upper_isin(x),
    decreases arrs.len() - a,
{
    if 0 <= a < arrs.len() {
        lemma_items_hit(arrs[a], 0, target);
        lemma_arrays_hit(arrs, a + 1, target);
    }
}

proof fn lemma_strict_rows_hit(rows: Seq<FlatSuggest>, i: int, target: Seq<char>)
    ensures
        rows_strict_scan(rows, i, target) matches Scan::Hit(x) ==> upper_isin(x),
    decreases rows.len() - i,
{
    if 0 <= i < rows.len() {
        let r = rows[i];
        match r.isin {
            Some(x) => if !isin_check_panics(x@) && spec_looks_like_isin(x@) {
                lemma_upper_of_isin(x@);
            },
            None => {},
        }
        match r.value {
            Some(v) => lemma_pick_hit(value_parts(v@), target),
            None => {},
        }
        lemma_strict_rows_hit(rows, i + 1, target);
    }
}

proof fn lemma_loose_rows_hit(rows: Seq<FlatSuggest>, i: int)
    ensures
        rows_loose_scan(rows, i) matches Scan::Hit(x) ==> upper_isin(x),
    decreases rows.len() - i,
{
    if 0 <= i < rows.len() {
        let r = rows[i];
        match r.isin {
            Some(x) => if !isin_check_panics(x@) && spec_looks_like_isin(x@) {
                lemma_upper_of_isin(x@);
            },
            None => {},
        }
        match r.value {
            Some(v) => lemma_parts_hit(value_tokens(v@), 0),
            None => {},
        }
        lemma_loose_rows_hit(rows, i + 1);
    }
}

/// Whatever a structured reading of a reply finds (a suggestion of a JSON
/// reply, or a record of a flat-array reply) is ISIN-shaped once trimmed and
/// upper-case.
pub proof fn structured_reading_gives_upper_isin(
    symbol: Seq<char>,
    json: Option<Json>,
    flat: Option<Seq<FlatSuggest>>,
)
    ensures
        found(reply_scan(symbol, json, flat)) matches Some(x) ==> upper_isin(x),
{
    let target = spec_normalize_sym(symbol);
    match json {
        Some(v) => lemma_arrays_hit(candidate_arrays(v), 0, target),
        None => {},
    }
    match flat {
        Some(rows) => {
            lemma_strict_rows_hit(rows, 0, target);
            lemma_loose_rows_hit(rows, 0);
        },
        None => {},
    }
}

/// A 12-byte run of ASCII letters and digits is a window the raw scan takes
/// exactly when the ISIN check accepts its text; so the raw scan (see
/// [`scan_raw_body`]) answers the leftmost such run, upper-cased, and
/// nothing when there is none.
pub proof fn raw_window_is_isin_check(b: Seq<u8>, p: int)
    requires
        0 <= p,
        p + 12 <= b.len(),
        forall|k: int| 0 <= k < 12 ==> byte_alnum(#[trigger] b[p + k]),
    ensures
        window_shaped(b, p) <==> spec_looks_like_isin(window_text(b, p)),
{
    let t = window_text(b, p);
    assert forall|k: int| 0 <= k < 12 implies is_ascii_alnum(#[trigger] t[k]) && !is_ws(t[k]) by {
        assert(t[k] == b[p + k] as char);
        assert(byte_alnum(b[p + k]));
    }
    assert(skip_ws(t, 0) == 0) by {
        assert(!is_ws(t[0]));
    }
    assert(back_ws(t, 0, 12) == 12) by {
        assert(!is_ws(t[11]));
    }
    assert(trim(t) =~= t);
    assert(t[0] == b[p] as char && t[1] == b[p + 1] as char && t[11] == b[p + 11] as char);
    if window_shaped(b, p) {
        assert forall|i: int| 2 <= i < 11 implies is_ascii_alnum(#[trigger] t[i]) by {}
        assert(isin_shape(t));
    }
    if spec_looks_like_isin(t) {
        assert forall|k: int| 2 <= k < 11 implies byte_alnum(#[trigger] b[p + k]) by {}
        assert(byte_alpha(b[p]) && byte_alpha(b[p + 1]) && byte_digit(b[p + 11]));
    }
}

/// What the raw scan finds is an ISIN-shaped, upper-case token with no
/// surrounding white space.
pub proof fn raw_scan_gives_upper_isin(b: Seq<u8>, w: Seq<char>)
    requires
        raw_scan_result(b, w),
    ensures
        upper_isin(w),
        trim(w) == w,
{
    let p = choose|p: int|
        first_window_in(b, 0, b.len() as int, p) && w == ascii_upper(window_text(b, p));
    let t = window_text(b, p);
    assert forall|k: int| 0 <= k < 12 implies is_ascii_alnum(#[trigger] t[k]) by {
        assert(t[k] == b[p + k] as char);
        if 2 <= k < 11 {
            assert(byte_alnum(b[p + k]));
        }
    }
    assert(is_ascii_alpha(t[0]) && is_ascii_alpha(t[1]));
    assert(is_ascii_digit(t[11]));
    assert(skip_ws(t, 0) == 0) by {
        assert(!is_ws(t[0]));
    }
    assert(back_ws(t, 0, 12) == 12) by {
        assert(!is_ws(t[11]));
    }
    assert(trim(t) =~= t);
    assert(spec_looks_like_isin(t));
    lemma_upper_of_isin(t);
    lemma_trim_upper(t);
    assert(trim(w) == w);
}

/// `x` is the upper-cased form of an ISIN-shaped entry of `parts`.
pub open spec fn isin_in_parts(parts: Seq<Seq<char>>, x: Seq<char>) -> bool {
    exists|j: int|
        0 <= j < parts.len() && spec_looks_like_isin(#[trigger] parts[j]) && x == ascii_upper(
            parts[j],
        )
}

/// `x` comes from an `Isin` / `isin` / `ISIN` field of the suggestion `o`, and
/// the suggestion names no symbol or names `target`.
pub open spec fn isin_field_of(o: Seq<(String, Json)>, target: Seq<char>, x: Seq<char>) -> bool {
    &&& (item_symbol(o).len() == 0 || spec_normalize_sym(item_symbol(o)) == target)
    &&& exists|k: int| 0 <= k < 3 && #[trigger] field_isin(o, k, x)
}

/// `x` is the upper-cased ISIN-shaped text of the field `isin_keys()[k]` of `o`.
pub open spec fn field_isin(o: Seq<(String, Json)>, k: int, x: Seq<char>) -> bool {
    match json_str(obj_get(o, isin_keys()[k])) {
        Some(s) => spec_looks_like_isin(s) && x == ascii_upper(s),
        None => false,
    }
}

/// `x` comes from a `|`-part of the `Value` / `value` text of the suggestion
/// `o`, whose first part names `target`.
pub open spec fn isin_value_of(o: Seq<(String, Json)>, target: Seq<char>, x: Seq<char>) -> bool {
    &&& item_value(o) matches Some(v)
    &&& value_parts(v).len() > 0
    &&& spec_normalize_sym(value_parts(v)[0]) == target
    &&& isin_in_parts(value_parts(v), x)
}

/// `x` is what the suggestion `item` offers for `target`.
pub open spec fn isin_of_suggestion(item: Json, target: Seq<char>, x: Seq<char>) -> bool {
    item matches Json::Object(o) && (isin_field_of(o@, target, x) || isin_value_of(o@, target, x))
}

/// `x` is offered for `target` by some suggestion of some candidate list of
/// the parsed reply `val`.
pub open spec fn isin_origin(val: Json, target: Seq<char>, x: Seq<char>) -> bool {
    exists|a: int, i: int|
        0 <= a < candidate_arrays(val).len() && 0 <= i < candidate_arrays(val)[a].len()
            && isin_of_suggestion(#[trigger] candidate_arrays(val)[a][i], target, x)
}

proof fn lemma_parts_origin(parts: Seq<Seq<char>>, i: int)
    ensures
        parts_scan(parts, i) matches Scan::Hit(x) ==> isin_in_parts(parts, x),
    decreases parts.len() - i,
{
    if 0 <= i < parts.len() && !isin_check_panics(parts[i]) {
        if spec_looks_like_isin(parts[i]) {
            assert(isin_in_parts(parts, ascii_upper(parts[i])));
        } else {
            lemma_parts_origin(parts, i + 1);
        }
    }
}

proof fn lemma_keyed_origin(o: Seq<(String, Json)>, k: int, target: Seq<char>)
    ensures
        keyed_isin_scan(o, k, target) matches Scan::Hit(x) ==> isin_field_of(o, target, x),
    decreases 3 - k,
{
    if 0 <= k < 3 {
        match json_str(obj_get(o, isin_keys()[k])) {
            Some(s) => {
                if !isin_check_panics(s) && spec_looks_like_isin(s) && (item_symbol(o).len() == 0
                    || spec_normalize_sym(item_symbol(o)) == target) {
                    assert(field_isin(o, k, ascii_upper(s)));
                    assert(isin_field_of(o, target, ascii_upper(s)));
                } else {
                    lemma_keyed_origin(o, k + 1, target);
                }
            },
            None => {
                lemma_keyed_origin(o, k + 1, target);
            },
        }
    }
}

proof fn lemma_item_origin(item: Json, target: Seq<char>)
    ensures
        item_scan(item, target) matches Scan::Hit(x) ==> isin_of_suggestion(item, target, x),
{
    match item {
        Json::Object(o) => {
            lemma_keyed_origin(o@, 0, target);
            match item_value(o@) {
                Some(v) => lemma_parts_origin(value_parts(v), 0),
                None => {},
            }
        },
        _ => {},
    }
}

proof fn lemma_items_origin(items: Seq<Json>, i: int, target: Seq<char>)
    ensures
        items_scan(items, i, target) matches Scan::Hit(x) ==> exists|j: int|
            0 <= j < items.len() && isin_of_suggestion(#[trigger] items[j], target, x),
    decreases items.len() - i,
{
    if 0 <= i < items.len() {
        lemma_item_origin(items[i], target);
        lemma_items_origin(items, i + 1, target);
    }
}

proof fn lemma_arrays_origin(arrs: Seq<Seq<Json>>, a: int, target: Seq<char>)
    ensures
        arrays_scan(arrs, a, target) matches Scan::Hit(x) ==> exists|b: int, j: int|
            0 <= b < arrs.len() && 0 <= j < arrs[b].len() && isin_of_suggestion(
                #[trigger] arrs[b][j],
                target,
                x,
            ),
    decreases arrs.len() - a,
{
    if 0 <= a < arrs.len() {
        lemma_items_origin(arrs[a], 0, target);
        lemma_arrays_origin(arrs, a + 1, target);
    }
}

/// What a parsed JSON reply gives for the symbol root `target` is an
/// upper-case ISIN taken from a suggestion of one of its candidate lists:
/// either an `Isin` / `isin` / `ISIN` field of a suggestion that names no
/// symbol or names `target`, or a `|`-part of a `Value` / `value` text whose
/// first part names `target`.
pub proof fn json_reading_origin(val: Json, target: Seq<char>)
    ensures
        json_scan(val, target) matches Scan::Hit(x) ==> upper_isin(x) && isin_origin(
            val,
            target,
            x,
        ),
{
    lemma_arrays_hit(candidate_arrays(val), 0, target);
    lemma_arrays_origin(candidate_arrays(val), 0, target);
}

/// `x` is what the flat record `r` offers for `target` on its own terms: its
/// ISIN field when its symbol's root is `target`, or a `|`-part of its
/// description whose first part names `target`.
pub open spec fn record_names_target(r: FlatSuggest, target: Seq<char>, x: Seq<char>) -> bool {
    ||| (record_is_for(r, target) && x == ascii_upper(r.isin.unwrap()@))
    ||| match r.value {
        Some(v) => {
            &&& value_parts(v@).len() > 0
            &&& spec_normalize_sym(value_parts(v@)[0]) == target
            &&& isin_in_parts(value_parts(v@), x)
        },
        None => false,
    }
}

/// The record carries an ISIN-shaped `isin` and a symbol whose root is `target`.
pub open spec fn record_is_for(r: FlatSuggest, target: Seq<char>) -> bool {
    match (r.isin, r.symbol) {
        (Some(i), Some(sym)) => spec_looks_like_isin(i@) && spec_normalize_sym(sym@) == target,
        _ => false,
    }
}

proof fn lemma_pick_origin(parts: Seq<Seq<char>>, target: Seq<char>)
    ensures
        pick_scan(parts, target) matches Scan::Hit(x) ==> parts.len() > 0 && spec_normalize_sym(
            parts[0],
        ) == target && isin_in_parts(parts, x),
{
    lemma_parts_origin(parts, 0);
}

proof fn lemma_row_strict_origin(r: FlatSuggest, target: Seq<char>)
    ensures
        row_strict_scan(r, target) matches Scan::Hit(x) ==> record_names_target(r, target, x),
        record_is_for(r, target) ==> !(row_strict_scan(r, target) is Miss),
{
    match r.value {
        Some(v) => lemma_pick_origin(value_parts(v@), target),
        None => {},
    }
}

proof fn lemma_rows_strict_origin(rows: Seq<FlatSuggest>, i: int, k: int, target: Seq<char>)
    requires
        0 <= i <= k < rows.len(),
        record_is_for(rows[k], target),
    ensures
        !(rows_strict_scan(rows, i, target) is Miss),
        rows_strict_scan(rows, i, target) matches Scan::Hit(x) ==> exists|j: int|
            i <= j <= k && record_names_target(#[trigger] rows[j], target, x),
    decreases k - i,
{
    lemma_row_strict_origin(rows[i], target);
    if i < k && row_strict_scan(rows[i], target) is Miss {
        lemma_rows_strict_origin(rows, i + 1, k, target);
    }
}

/// In a flat-array reply, a record that names the target beats every record
/// that does not: when record `k` has an ISIN-shaped `isin` and a symbol
/// whose root is `target`, the answer comes from a record at or before `k`
/// that names `target` itself (by its symbol, or by the first part of its
/// description); a record naming another symbol is used only when none
/// names the target.
pub proof fn flat_reading_prefers_target(rows: Seq<FlatSuggest>, target: Seq<char>, k: int)
    requires
        0 <= k < rows.len(),
        record_is_for(rows[k], target),
        flat_scan(rows, target) != Scan::Panic,
    ensures
        found(flat_scan(rows, target)) matches Some(x) && exists|j: int|
            0 <= j <= k && record_names_target(#[trigger] rows[j], target, x),
{
    lemma_rows_strict_origin(rows, 0, k, target);
}

} // verus!
