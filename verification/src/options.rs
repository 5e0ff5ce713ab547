//! Option chains: the expiration dates a chain is offered for.

use vstd::prelude::*;

verus! {

pub open spec fn ascending(s: Seq<i64>) -> bool {
    forall|i: int, j: int| 0 <= i < j < s.len() ==> s[i] <= s[j]
}

/// The expiration dates of a reply (UNIX seconds) in ascending order: the
/// same dates, each as often as the reply lists it.
pub fn sorted_expirations(dates: Vec<i64>) -> (r: Vec<i64>)
    ensures
        ascending(r@),
        r@.to_multiset() == dates@.to_multiset(),
{
    let mut out: Vec<i64> = Vec::new();
    let mut i: usize = 0;
    assert(dates@.take(0) =~= out@);
    while i < dates.len()
        invariant
            i <= dates@.len(),
            ascending(out@),
            out@.to_multiset() == dates@.take(i as int).to_multiset(),
        decreases dates@.len() - i,
    {
        let x = dates[i];
        // The first position holding a later date.
        let mut p: usize = 0;
        while p < out.len() && out[p] <= x
            invariant
                p <= out@.len(),
                forall|k: int| 0 <= k < p ==> out@[k] <= x,
            decreases out@.len() - p,
        {
            p += 1;
        }
        let ghost before = out@;
        out.insert(p, x);
        assert(out@ == before.insert(p as int, x));
        assert forall|a: int, b: int| 0 <= a < b < out@.len() implies out@[a] <= out@[b] by {
            if b < p {
                assert(out@[a] == before[a] && out@[b] == before[b]);
            } else if b == p {
                assert(out@[a] == before[a]);
            } else if a < p {
                assert(out@[a] == before[a] && out@[b] == before[b - 1]);
            } else if a == p {
                assert(out@[b] == before[b - 1]);
                assert(before[p as int] > x);
                assert(before[p as int] <= before[b - 1]);
            } else {
                assert(out@[a] == before[a - 1] && out@[b] == before[b - 1]);
            }
        }
        proof {
            vstd::seq_lib::to_multiset_insert(before, p as int, x);
            vstd::seq_lib::to_multiset_build(dates@.take(i as int), x);
            assert(dates@.take(i + 1) =~= dates@.take(i as int).push(x));
        }
        i += 1;
    }
    assert(dates@.take(dates@.len() as int) =~= dates@);
    out
}

} // verus!
