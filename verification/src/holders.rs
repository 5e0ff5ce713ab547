//! Ownership and insider data from `quoteSummary`: the insider records and
//! the labels of the major-holder buckets.

use vstd::prelude::*;

use crate::json::{get, get_str, json_str, obj_get, Json};
use crate::text::{chars_eq, chars_of};

verus! {

/// Insider buy/sell activity.
#[derive(Debug, Clone, PartialEq, Eq)]
pub struct InsiderTransaction {
    /// Insider's name.
    pub name: String,
    /// Insider's relation (CEO, Director, …).
    pub relation: Option<String>,
    /// Transaction date.
    pub start_date: Option<String>,
    /// Description of the action.
    pub transaction: Option<String>,
    /// Direct or indirect ownership.
    pub ownership: Option<String>,
    /// Shares involved.
    pub shares: Option<u64>,
    /// Reported dollar value.
    pub value: Option<u64>,
}

/// One insider with current position.
#[derive(Debug, Clone, PartialEq, Eq)]
pub struct InsiderRosterRow {
    /// Insider's name.
    pub name: String,
    /// Title / role.
    pub relation: Option<String>,
    /// Shares directly held.
    pub direct_shares: Option<u64>,
    /// As-of date.
    pub position_date: Option<String>,
}

/// Insider net purchase activity summary.
#[derive(Debug, Clone, PartialEq, Eq)]
pub struct NetSharePurchaseActivity {
    /// Period label (`6m`, …).
    pub period: Option<String>,
    /// Net shares acquired.
    pub net_info_shares: Option<i64>,
    /// Number of buy-side transactions.
    pub buy_info_count: Option<u64>,
    /// Total shares bought.
    pub buy_info_shares: Option<u64>,
    /// Number of sell-side transactions.
    pub sell_info_count: Option<u64>,
    /// Total shares sold.
    pub sell_info_shares: Option<u64>,
}

impl Default for NetSharePurchaseActivity {
    fn default() -> (r: Self)
        ensures
            r == (NetSharePurchaseActivity {
                period: None,
                net_info_shares: None,
                buy_info_count: None,
                buy_info_shares: None,
                sell_info_count: None,
                sell_info_shares: None,
            }),
    {
        NetSharePurchaseActivity {
            period: None,
            net_info_shares: None,
            buy_info_count: None,
            buy_info_shares: None,
            sell_info_count: None,
            sell_info_shares: None,
        }
    }
}

/// Display label of a `majorHoldersBreakdown` key; unknown keys as they are.
pub open spec fn spec_humanize(key: Seq<char>) -> Seq<char> {
    if key == "insidersPercentHeld"@ {
        "Insiders"@
    } else if key == "institutionsPercentHeld"@ {
        "Institutions"@
    } else if key == "institutionsFloatPercentHeld"@ {
        "Institutions Float"@
    } else if key == "institutionsCount"@ {
        "Institutions Count"@
    } else {
        key
    }
}

/// The text of member `key` of a record, empty when it holds no string.
pub open spec fn text_or_empty(o: Seq<(String, Json)>, key: Seq<char>) -> Seq<char> {
    match json_str(obj_get(o, key)) {
        Some(t) => t,
        None => Seq::empty(),
    }
}

/// A date field: the `fmt` text of a `{raw, fmt}` wrapper, else the field's
/// own text.
pub open spec fn date_text(v: Option<Json>) -> Option<Seq<char>> {
    match v {
        Some(Json::Object(o)) => json_str(obj_get(o@, "fmt"@)),
        Some(Json::Str(t)) => Some(t@),
        _ => None,
    }
}

pub open spec fn opt_text(o: Option<String>) -> Option<Seq<char>> {
    match o {
        Some(s) => Some(s@),
        None => None,
    }
}

fn member_text(o: &Vec<(String, Json)>, key: &str) -> (r: Option<String>)
    ensures
        opt_text(r) == json_str(obj_get(o@, key@)),
{
    match get_str(o, &chars_of(key)) {
        Some(s) => Some(s.clone()),
        None => None,
    }
}

/// A date field read as text: the `fmt` member of a `{raw, fmt}` wrapper,
/// else the value itself when it is a string.
pub fn raw_str_date(v: Option<&Json>) -> (r: Option<String>)
    ensures
        opt_text(r) == date_text(
            match v {
                Some(j) => Some(*j),
                None => None,
            },
        ),
{
    match v {
        Some(Json::Object(w)) => member_text(w, "fmt"),
        Some(Json::Str(t)) => Some(t.clone()),
        _ => None,
    }
}

fn member_date(o: &Vec<(String, Json)>, key: &str) -> (r: Option<String>)
    ensures
        opt_text(r) == date_text(obj_get(o@, key@)),
{
    raw_str_date(get(o, &chars_of(key)))
}

/// An entry of `insiderTransactions.transactions`, its numbers read by the
/// caller (`shares`, `value`).
pub fn insider_transaction(o: &Vec<(String, Json)>, shares: Option<u64>, value: Option<u64>) -> (r:
    InsiderTransaction)
    ensures
        r.name@ == text_or_empty(o@, "filerName"@),
        opt_text(r.relation) == json_str(obj_get(o@, "filerRelation"@)),
        opt_text(r.start_date) == date_text(obj_get(o@, "startDate"@)),
        opt_text(r.transaction) == json_str(obj_get(o@, "transactionText"@)),
        opt_text(r.ownership) == json_str(obj_get(o@, "ownership"@)),
        r.shares == shares,
        r.value == value,
{
    let name = match member_text(o, "filerName") {
        Some(n) => n,
        None => String::new(),
    };
    InsiderTransaction {
        name,
        relation: member_text(o, "filerRelation"),
        start_date: member_date(o, "startDate"),
        transaction: member_text(o, "transactionText"),
        ownership: member_text(o, "ownership"),
        shares,
        value,
    }
}

/// An entry of `insiderHolders.holders`, its share count read by the caller.
pub fn insider_roster_row(o: &Vec<(String, Json)>, direct_shares: Option<u64>) -> (r:
    InsiderRosterRow)
    ensures
        r.name@ == text_or_empty(o@, "name"@),
        opt_text(r.relation) == json_str(obj_get(o@, "relation"@)),
        r.direct_shares == direct_shares,
        opt_text(r.position_date) == date_text(obj_get(o@, "positionDirectDate"@)),
{
    let name = match member_text(o, "name") {
        Some(n) => n,
        None => String::new(),
    };
    InsiderRosterRow {
        name,
        relation: member_text(o, "relation"),
        direct_shares,
        position_date: member_date(o, "positionDirectDate"),
    }
}

/// Display label of a `majorHoldersBreakdown` key.
pub fn humanize(key: &str) -> (r: String)
    ensures
        r@ == spec_humanize(key@),
{
    let k = chars_of(key);
    if chars_eq(&k, &chars_of("insidersPercentHeld")) {
        String::from_str("Insiders")
    } else if chars_eq(&k, &chars_of("institutionsPercentHeld")) {
        String::from_str("Institutions")
    } else if chars_eq(&k, &chars_of("institutionsFloatPercentHeld")) {
        String::from_str("Institutions Float")
    } else if chars_eq(&k, &chars_of("institutionsCount")) {
        String::from_str("Institutions Count")
    } else {
        key.to_string()
    }
}

} // verus!
