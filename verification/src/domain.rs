//! Sector and industry taxonomy entries: the text that identifies a node.

use vstd::prelude::*;

use crate::holders::{opt_text, text_or_empty};
use crate::json::{get, get_str, json_str, obj_get, Json};
use crate::text::chars_of;

verus! {

/// A node's identifier: its `key` member when it has one (empty unless it is
/// a string), else its `symbol` member, else empty.
pub open spec fn spec_node_key(o: Seq<(String, Json)>) -> Seq<char> {
    match obj_get(o, "key"@) {
        Some(Json::Str(s)) => s@,
        Some(_) => Seq::empty(),
        None => text_or_empty(o, "symbol"@),
    }
}

/// Identifier and display name of a taxonomy node (an entry of `industries`
/// or `topCompanies`); its weight is read by the caller.
pub fn node_key_name(o: &Vec<(String, Json)>) -> (r: (String, Option<String>))
    ensures
        r.0@ == spec_node_key(o@),
        opt_text(r.1) == json_str(obj_get(o@, "name"@)),
{
    let key = match get(o, &chars_of("key")) {
        Some(Json::Str(s)) => s.clone(),
        Some(_) => String::new(),
        None => match get_str(o, &chars_of("symbol")) {
            Some(s) => s.clone(),
            None => String::new(),
        },
    };
    let name = match get_str(o, &chars_of("name")) {
        Some(s) => Some(s.clone()),
        None => None,
    };
    (key, name)
}

} // verus!
