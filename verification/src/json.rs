//! A JSON document as plain values.
//!
//! Payloads arrive as text; turning text into a [`Json`] tree is done by the
//! caller (with `serde_json`), and the logic of this crate reads the tree.
//! Numbers keep the two integer readings that the logic uses.

use vstd::prelude::*;

use crate::text::chars_eq;

verus! {

/// Integer readings of a JSON number (`as_u64` / `as_i64` of `serde_json`).
#[derive(Debug, Clone, Copy, PartialEq, Eq)]
pub struct JsonNumber {
    /// The number as an unsigned integer, when it is one that fits.
    pub as_u64: Option<u64>,
    /// The number as a signed integer, when it is one that fits.
    pub as_i64: Option<i64>,
}

/// A JSON value. Object members keep their order.
#[derive(Debug)]
pub enum Json {
    Null,
    Bool(bool),
    Number(JsonNumber),
    Str(String),
    Array(Vec<Json>),
    Object(Vec<(String, Json)>),
}

/// The value of the first member of `entries` named `key`.
pub open spec fn obj_get(entries: Seq<(String, Json)>, key: Seq<char>) -> Option<Json>
    decreases entries.len(),
{
    if entries.len() == 0 {
        None
    } else if entries[0].0@ == key {
        Some(entries[0].1)
    } else {
        obj_get(entries.drop_first(), key)
    }
}

/// The string held by `v`, if it holds one.
pub open spec fn json_str(v: Option<Json>) -> Option<Seq<char>> {
    match v {
        Some(Json::Str(s)) => Some(s@),
        _ => None,
    }
}

/// Member lookup, `serde_json::Map::get`.
pub fn get<'a>(entries: &'a Vec<(String, Json)>, key: &[char]) -> (r: Option<&'a Json>)
    ensures
        match obj_get(entries@, key@) {
            Some(v) => r == Some(&v),
            None => r is None,
        },
{
    let mut i: usize = 0;
    assert(entries@.skip(0) =~= entries@);
    while i < entries.len()
        invariant
            i <= entries@.len(),
            obj_get(entries@, key@) == obj_get(entries@.skip(i as int), key@),
        decreases entries@.len() - i,
    {
        let name = crate::text::chars_of(entries[i].0.as_str());
        assert(entries@.skip(i as int)[0] == entries@[i as int]);
        assert(entries@.skip(i as int).drop_first() =~= entries@.skip(i + 1));
        if chars_eq(&name, key) {
            return Some(&entries[i].1);
        }
        i += 1;
    }
    None
}

/// `value.as_str()` for a member lookup.
pub fn get_str<'a>(entries: &'a Vec<(String, Json)>, key: &[char]) -> (r: Option<&'a String>)
    ensures
        match json_str(obj_get(entries@, key@)) {
            Some(s) => r is Some && r->0@ == s,
            None => r is None,
        },
{
    match get(entries, key) {
        Some(Json::Str(s)) => Some(s),
        _ => None,
    }
}

/// The member `key` of the object `modules[module]` (`quoteSummary`
/// modules), read as text: a string, or the string inside a `{raw: ...}`
/// wrapper. Anything else (absent, `null`, a number) reads as nothing.
pub open spec fn module_text(modules: Seq<(String, Json)>, module: Seq<char>, key: Seq<char>) -> Option<
    Seq<char>,
> {
    match obj_get(modules, module) {
        Some(Json::Object(m)) => match obj_get(m@, key) {
            Some(Json::Str(s)) => Some(s@),
            Some(Json::Object(o)) => json_str(obj_get(o@, "raw"@)),
            _ => None,
        },
        _ => None,
    }
}

/// The text of `modules[module][key]` (see [`module_text`]).
pub fn module_string(modules: &Vec<(String, Json)>, module: &str, key: &str) -> (r: Option<String>)
    ensures
        match module_text(modules@, module@, key@) {
            Some(t) => r matches Some(x) && x@ == t,
            None => r is None,
        },
{
    let mk = crate::text::chars_of(module);
    let kk = crate::text::chars_of(key);
    match get(modules, &mk) {
        Some(Json::Object(m)) => match get(m, &kk) {
            Some(Json::Str(s)) => Some(s.clone()),
            Some(Json::Object(o)) => {
                let rk = crate::text::chars_of("raw");
                match get_str(o, &rk) {
                    Some(x) => Some(x.clone()),
                    None => None,
                }
            },
            _ => None,
        },
        _ => None,
    }
}

} // verus!
