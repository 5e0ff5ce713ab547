//! Analyst data: recommendation counts and the history of upgrades and
//! downgrades, read from the `quoteSummary` modules `recommendationTrend` and
//! `upgradeDowngradeHistory`.

use vstd::prelude::*;

verus! {

/// One row from `recommendationTrend.trend`. Periods are Yahoo's relative
/// labels (`"0m"`, `"-1m"`, `"-2m"`, `"-3m"`).
#[derive(Debug, Clone, PartialEq, Eq)]
pub struct RecommendationRow {
    /// Period label as returned by Yahoo (e.g. `"0m"`).
    pub period: String,
    /// Strong-buy ratings count.
    pub strong_buy: Option<u32>,
    /// Buy ratings count.
    pub buy: Option<u32>,
    /// Hold ratings count.
    pub hold: Option<u32>,
    /// Sell ratings count.
    pub sell: Option<u32>,
    /// Strong-sell ratings count.
    pub strong_sell: Option<u32>,
}

/// One row from `upgradeDowngradeHistory.history`.
#[derive(Debug, Clone, PartialEq, Eq)]
pub struct UpgradeDowngradeRow {
    /// Event timestamp (UNIX seconds).
    pub timestamp: i64,
    /// Issuing firm.
    pub firm: Option<String>,
    /// Previous grade.
    pub from_grade: Option<String>,
    /// New grade.
    pub to_grade: Option<String>,
    /// Action (`"up"`, `"down"`, `"main"`, `"reit"`, …).
    pub action: Option<String>,
}

/// Up- and down-revision counts over 7 and 30 days.
#[derive(Debug, Clone, Default, PartialEq, Eq)]
pub struct EpsRevisions {
    /// Up-revisions in the last 7 days.
    pub up_last_7_days: Option<u32>,
    /// Up-revisions in the last 30 days.
    pub up_last_30_days: Option<u32>,
    /// Down-revisions in the last 7 days.
    pub down_last_7_days: Option<u32>,
    /// Down-revisions in the last 30 days.
    pub down_last_30_days: Option<u32>,
}

/// One entry of `recommendationTrend.trend` as Yahoo sends it.
#[derive(Debug, Clone, PartialEq, Eq)]
pub struct RecommendationNode {
    pub period: Option<String>,
    /// `strongBuy`.
    pub strong_buy: Option<i64>,
    pub buy: Option<i64>,
    pub hold: Option<i64>,
    pub sell: Option<i64>,
    /// `strongSell`.
    pub strong_sell: Option<i64>,
}

/// One entry of `upgradeDowngradeHistory.history` as Yahoo sends it.
#[derive(Debug, Clone, PartialEq, Eq)]
pub struct UpgradeNode {
    /// `epochGradeDate`.
    pub epoch_grade_date: Option<i64>,
    pub firm: Option<String>,
    /// `toGrade`.
    pub to_grade: Option<String>,
    /// `fromGrade`.
    pub from_grade: Option<String>,
    pub action: Option<String>,
    /// `gradeChange`, used when `action` is absent.
    pub grade_change: Option<String>,
}

/// A count that fits in `u32` (`u32::try_from` on the reported value).
pub open spec fn count_u32(v: Option<i64>) -> Option<u32> {
    match v {
        Some(x) => if 0 <= x <= u32::MAX {
            Some(x as u32)
        } else {
            None
        },
        None => None,
    }
}

fn to_count(v: Option<i64>) -> (r: Option<u32>)
    ensures
        r == count_u32(v),
{
    match v {
        Some(x) => if x >= 0 && x <= 0xffff_ffff {
            Some(x as u32)
        } else {
            None
        },
        None => None,
    }
}

/// The row read from a trend entry (a missing period reads as empty).
pub open spec fn recommendation_of(n: RecommendationNode, r: RecommendationRow) -> bool {
    &&& r.period@ == match n.period {
        Some(p) => p@,
        None => Seq::empty(),
    }
    &&& r.strong_buy == count_u32(n.strong_buy)
    &&& r.buy == count_u32(n.buy)
    &&& r.hold == count_u32(n.hold)
    &&& r.sell == count_u32(n.sell)
    &&& r.strong_sell == count_u32(n.strong_sell)
}

/// Per-period analyst counts, one row per trend entry in order. Counts that
/// are negative or do not fit in `u32` read as absent.
pub fn recommendation_rows(trend: Option<Vec<RecommendationNode>>) -> (r: Vec<RecommendationRow>)
    ensures
        ({
            let nodes = match trend {
                Some(v) => v@,
                None => Seq::empty(),
            };
            &&& r@.len() == nodes.len()
            &&& forall|i: int| 0 <= i < nodes.len() ==> recommendation_of(#[trigger] nodes[i], r@[i])
        }),
{
    let ghost nodes = match &trend {
        Some(v) => v@,
        None => Seq::<RecommendationNode>::empty(),
    };
    let v = match trend {
        Some(v) => v,
        None => Vec::new(),
    };
    let mut out: Vec<RecommendationRow> = Vec::new();
    let mut i: usize = 0;
    while i < v.len()
        invariant
            v@ == nodes,
            i <= v@.len(),
            out@.len() == i,
            forall|j: int| 0 <= j < i ==> recommendation_of(#[trigger] nodes[j], out@[j]),
        decreases v@.len() - i,
    {
        let n = &v[i];
        let period = match &n.period {
            Some(p) => p.clone(),
            None => String::new(),
        };
        out.push(
            RecommendationRow {
                period,
                strong_buy: to_count(n.strong_buy),
                buy: to_count(n.buy),
                hold: to_count(n.hold),
                sell: to_count(n.sell),
                strong_sell: to_count(n.strong_sell),
            },
        );
        i += 1;
    }
    out
}

/// The row read from a history entry: a missing date reads as 0, a missing
/// action as the grade change.
pub open spec fn row_of(n: UpgradeNode) -> UpgradeDowngradeRow {
    UpgradeDowngradeRow {
        timestamp: match n.epoch_grade_date {
            Some(t) => t,
            None => 0,
        },
        firm: n.firm,
        from_grade: n.from_grade,
        to_grade: n.to_grade,
        action: match n.action {
            Some(a) => Some(a),
            None => n.grade_change,
        },
    }
}

/// The rows read from history entries, in reply order.
pub open spec fn rows_of(nodes: Seq<UpgradeNode>) -> Seq<UpgradeDowngradeRow> {
    nodes.map_values(|n: UpgradeNode| row_of(n))
}

/// `x` placed into the timestamp-ordered `s`: after every row whose
/// timestamp is not greater (so rows with equal timestamps keep their order).
pub open spec fn insert_by_time(s: Seq<UpgradeDowngradeRow>, x: UpgradeDowngradeRow) -> Seq<
    UpgradeDowngradeRow,
>
    decreases s.len(),
{
    if s.len() == 0 {
        seq![x]
    } else if s.last().timestamp <= x.timestamp {
        s.push(x)
    } else {
        insert_by_time(s.drop_last(), x).push(s.last())
    }
}

/// The rows of `s` in stable order of timestamp (`sort_by_key`).
pub open spec fn sort_by_time(s: Seq<UpgradeDowngradeRow>) -> Seq<UpgradeDowngradeRow>
    decreases s.len(),
{
    if s.len() == 0 {
        s
    } else {
        insert_by_time(sort_by_time(s.drop_last()), s.last())
    }
}

pub open spec fn sorted_by_time(s: Seq<UpgradeDowngradeRow>) -> bool {
    forall|i: int, j: int| 0 <= i < j < s.len() ==> s[i].timestamp <= s[j].timestamp
}

proof fn lemma_insert_len(s: Seq<UpgradeDowngradeRow>, x: UpgradeDowngradeRow)
    ensures
        insert_by_time(s, x).len() == s.len() + 1,
    decreases s.len(),
{
    if s.len() > 0 && s.last().timestamp > x.timestamp {
        lemma_insert_len(s.drop_last(), x);
    }
}

proof fn lemma_insert_sorted(s: Seq<UpgradeDowngradeRow>, x: UpgradeDowngradeRow)
    requires
        sorted_by_time(s),
    ensures
        sorted_by_time(insert_by_time(s, x)),
        insert_by_time(s, x).to_multiset() == s.to_multiset().insert(x),
    decreases s.len(),
{
    broadcast use vstd::seq_lib::group_to_multiset_ensures;

    lemma_insert_len(s, x);
    if s.len() == 0 {
        assert(seq![x] =~= Seq::<UpgradeDowngradeRow>::empty().push(x));
    } else if s.last().timestamp <= x.timestamp {
    } else {
        let t = s.drop_last();
        lemma_insert_sorted(t, x);
        lemma_insert_len(t, x);
        let u = insert_by_time(t, x);
        assert(s =~= t.push(s.last()));
        assert forall|i: int, j: int| 0 <= i < j < u.push(s.last()).len() implies u.push(
            s.last(),
        )[i].timestamp <= u.push(s.last())[j].timestamp by {
            if j == u.len() {
                // u holds the rows of t (all not after s.last()) and x (before it).
                assert(u.to_multiset().contains(u[i]));
                assert(t.to_multiset().insert(x).contains(u[i]));
                if u[i] != x {
                    assert(t.to_multiset().contains(u[i]));
                    assert(t.contains(u[i]));
                    let k = choose|k: int| 0 <= k < t.len() && t[k] == u[i];
                    assert(s[k] == t[k]);
                }
            }
        }
    }
}

/// Sorting by time gives a timestamp-ordered rearrangement of the rows.
pub proof fn sort_by_time_sorted(s: Seq<UpgradeDowngradeRow>)
    ensures
        sorted_by_time(sort_by_time(s)),
        sort_by_time(s).to_multiset() == s.to_multiset(),
        sort_by_time(s).len() == s.len(),
    decreases s.len(),
{
    broadcast use vstd::seq_lib::group_to_multiset_ensures;

    if s.len() > 0 {
        sort_by_time_sorted(s.drop_last());
        lemma_insert_sorted(sort_by_time(s.drop_last()), s.last());
        lemma_insert_len(sort_by_time(s.drop_last()), s.last());
        assert(s =~= s.drop_last().push(s.last()));
    }
}

/// The rows of `s` stamped `t`, in their order in `s`.
pub open spec fn rows_at(s: Seq<UpgradeDowngradeRow>, t: i64) -> Seq<UpgradeDowngradeRow>
    decreases s.len(),
{
    if s.len() == 0 {
        s
    } else if s.last().timestamp == t {
        rows_at(s.drop_last(), t).push(s.last())
    } else {
        rows_at(s.drop_last(), t)
    }
}

proof fn lemma_insert_rows_at(s: Seq<UpgradeDowngradeRow>, x: UpgradeDowngradeRow, t: i64)
    ensures
        rows_at(insert_by_time(s, x), t) == if x.timestamp == t {
            rows_at(s, t).push(x)
        } else {
            rows_at(s, t)
        },
    decreases s.len(),
{
    if s.len() == 0 {
        assert(seq![x].drop_last() =~= s);
    } else if s.last().timestamp <= x.timestamp {
        assert(s.push(x).drop_last() =~= s);
    } else {
        let u = insert_by_time(s.drop_last(), x);
        lemma_insert_rows_at(s.drop_last(), x, t);
        assert(u.push(s.last()).drop_last() =~= u);
    }
}

/// Sorting by time keeps rows with equal timestamps in the order they came
/// in: for every timestamp, the rows stamped with it appear in the sorted
/// rows exactly as in the input.
pub proof fn sort_by_time_is_stable(s: Seq<UpgradeDowngradeRow>, t: i64)
    ensures
        rows_at(sort_by_time(s), t) == rows_at(s, t),
    decreases s.len(),
{
    if s.len() > 0 {
        sort_by_time_is_stable(s.drop_last(), t);
        lemma_insert_rows_at(sort_by_time(s.drop_last()), s.last(), t);
    }
}

/// The upgrade history as handed out (see [`upgrade_rows`]) is ordered by
/// timestamp, oldest first; it holds exactly the rows read from the reply's
/// entries; and entries with equal timestamps keep the order of the reply.
pub proof fn upgrade_history_order(nodes: Seq<UpgradeNode>, t: i64)
    ensures
        sorted_by_time(sort_by_time(rows_of(nodes))),
        sort_by_time(rows_of(nodes)).to_multiset() == rows_of(nodes).to_multiset(),
        sort_by_time(rows_of(nodes)).len() == nodes.len(),
        rows_at(sort_by_time(rows_of(nodes)), t) == rows_at(rows_of(nodes), t),
{
    sort_by_time_sorted(rows_of(nodes));
    sort_by_time_is_stable(rows_of(nodes), t);
}

/// `row` carries the fields of the history entry `n`: its firm, `fromGrade`
/// and `toGrade` as they are, its `epochGradeDate` as the timestamp (0 when
/// absent), and its `action`, else its `gradeChange`, as the action.
pub open spec fn row_carries(row: UpgradeDowngradeRow, n: UpgradeNode) -> bool {
    &&& row.firm == n.firm
    &&& row.from_grade == n.from_grade
    &&& row.to_grade == n.to_grade
    &&& row.timestamp == (match n.epoch_grade_date {
        Some(t) => t,
        None => 0,
    })
    &&& row.action == (match n.action {
        Some(a) => Some(a),
        None => n.grade_change,
    })
}

proof fn lemma_row_from_entry(nodes: Seq<UpgradeNode>, i: int) -> (j: int)
    requires
        0 <= i < sort_by_time(rows_of(nodes)).len(),
    ensures
        0 <= j < nodes.len(),
        row_carries(sort_by_time(rows_of(nodes))[i], nodes[j]),
{
    broadcast use vstd::seq_lib::group_to_multiset_ensures;

    let rows = rows_of(nodes);
    sort_by_time_sorted(rows);
    let x = sort_by_time(rows)[i];
    assert(sort_by_time(rows).to_multiset().count(x) > 0);
    assert(rows.to_multiset().count(x) > 0);
    assert(rows.contains(x));
    let j = choose|j: int| 0 <= j < rows.len() && rows[j] == x;
    assert(rows[j] == row_of(nodes[j]));
    j
}

/// Each row of the upgrade history (see [`upgrade_rows`]) is read from one
/// entry of the reply and carries that entry's fields into the fields of
/// the same name: an upgrade from `Hold` to `Buy` stays one.
pub proof fn upgrade_rows_keep_entry_fields(nodes: Seq<UpgradeNode>, i: int)
    requires
        0 <= i < sort_by_time(rows_of(nodes)).len(),
    ensures
        exists|j: int| 0 <= j < nodes.len() && #[trigger] row_carries(sort_by_time(rows_of(nodes))[i], nodes[j]),
{
    let j = lemma_row_from_entry(nodes, i);
    assert(row_carries(sort_by_time(rows_of(nodes))[i], nodes[j]));
}

fn insert_row(v: &mut Vec<UpgradeDowngradeRow>, x: UpgradeDowngradeRow)
    ensures
        final(v)@ == insert_by_time(old(v)@, x),
{
    let ghost s = v@;
    let mut tail: Vec<UpgradeDowngradeRow> = Vec::new();
    // Move the rows later than `x` aside, from the back.
    while v.len() > 0 && v[v.len() - 1].timestamp > x.timestamp
        invariant
            insert_by_time(s, x) == insert_by_time(v@, x) + tail@.reverse(),
        decreases v@.len(),
    {
        let ghost before = v@;
        let ghost tbefore = tail@;
        let y = v.pop().unwrap();
        assert(before =~= v@.push(y));
        tail.push(y);
        assert(tail@.reverse() =~= seq![y] + tbefore.reverse());
        assert(insert_by_time(before, x) == insert_by_time(v@, x).push(y));
        assert(insert_by_time(v@, x).push(y) + tbefore.reverse() =~= insert_by_time(v@, x)
            + tail@.reverse());
    }
    assert(insert_by_time(v@, x) == v@.push(x));
    v.push(x);
    while tail.len() > 0
        invariant
            insert_by_time(s, x) == v@ + tail@.reverse(),
        decreases tail@.len(),
    {
        let ghost tbefore = tail@;
        let ghost vbefore = v@;
        let y = tail.pop().unwrap();
        assert(tbefore =~= tail@.push(y));
        assert(tbefore.reverse() =~= seq![y] + tail@.reverse());
        v.push(y);
        assert(vbefore + tbefore.reverse() =~= v@ + tail@.reverse());
    }
    assert(v@ + tail@.reverse() =~= v@);
}

/// History of analyst upgrades and downgrades, oldest first: one row per
/// history entry, ordered by timestamp, entries with equal timestamps in the
/// order Yahoo sent them.
pub fn upgrade_rows(history: Option<Vec<UpgradeNode>>) -> (r: Vec<UpgradeDowngradeRow>)
    ensures
        r@ == sort_by_time(
            rows_of(
                match history {
                    Some(v) => v@,
                    None => Seq::empty(),
                },
            ),
        ),
{
    let ghost nodes = match &history {
        Some(v) => v@,
        None => Seq::<UpgradeNode>::empty(),
    };
    let v = match history {
        Some(v) => v,
        None => Vec::new(),
    };
    let mut out: Vec<UpgradeDowngradeRow> = Vec::new();
    let ghost mut rows: Seq<UpgradeDowngradeRow> = Seq::empty();
    let mut i: usize = 0;
    while i < v.len()
        invariant
            v@ == nodes,
            i <= v@.len(),
            rows == rows_of(nodes.take(i as int)),
            out@ == sort_by_time(rows),
        decreases v@.len() - i,
    {
        let n = &v[i];
        let row = UpgradeDowngradeRow {
            timestamp: match n.epoch_grade_date {
                Some(t) => t,
                None => 0,
            },
            firm: n.firm.clone(),
            from_grade: n.from_grade.clone(),
            to_grade: n.to_grade.clone(),
            action: match &n.action {
                Some(a) => Some(a.clone()),
                None => n.grade_change.clone(),
            },
        };
        let ghost rbefore = rows;
        proof {
            assert(row == row_of(nodes[i as int]));
            rows = rows.push(row);
            assert(rows.drop_last() =~= rbefore);
            assert(rows =~= rows_of(nodes.take(i + 1)));
        }
        insert_row(&mut out, row);
        i += 1;
    }
    assert(nodes.take(nodes.len() as int) =~= nodes);
    out
}

} // verus!
