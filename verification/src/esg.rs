//! ESG / sustainability involvement flags from the `esgScores` module.

use vstd::prelude::*;

verus! {

/// One involvement-area flag — Yahoo only reports the category, not a score.
#[derive(Debug, Clone, PartialEq, Eq)]
pub struct EsgInvolvement {
    /// Lower-snake-case name (`adult`, `controversial_weapons`, `thermal_coal`, …).
    pub category: String,
}

/// The involvement flags of `esgScores` (each may be absent).
#[derive(Debug, Clone, Copy, PartialEq, Eq, Default)]
pub struct EsgFlags {
    pub adult: Option<bool>,
    pub alcoholic: Option<bool>,
    pub animal_testing: Option<bool>,
    pub catholic: Option<bool>,
    pub controversial_weapons: Option<bool>,
    pub small_arms: Option<bool>,
    pub fur_leather: Option<bool>,
    pub gambling: Option<bool>,
    pub gmo: Option<bool>,
    pub military_contract: Option<bool>,
    pub nuclear: Option<bool>,
    pub palm_oil: Option<bool>,
    pub pesticides: Option<bool>,
    /// JSON key `coal`, reported as `thermal_coal`.
    pub thermal_coal: Option<bool>,
    pub tobacco: Option<bool>,
}

/// Each category name with its flag, in reporting order.
pub open spec fn esg_flag_list(r: EsgFlags) -> Seq<(Seq<char>, Option<bool>)> {
    seq![
        ("adult"@, r.adult),
        ("alcoholic"@, r.alcoholic),
        ("animal_testing"@, r.animal_testing),
        ("catholic"@, r.catholic),
        ("controversial_weapons"@, r.controversial_weapons),
        ("small_arms"@, r.small_arms),
        ("fur_leather"@, r.fur_leather),
        ("gambling"@, r.gambling),
        ("gmo"@, r.gmo),
        ("military_contract"@, r.military_contract),
        ("nuclear"@, r.nuclear),
        ("palm_oil"@, r.palm_oil),
        ("pesticides"@, r.pesticides),
        ("thermal_coal"@, r.thermal_coal),
        ("tobacco"@, r.tobacco),
    ]
}

/// The categories whose flag is set, in reporting order.
pub open spec fn set_categories(l: Seq<(Seq<char>, Option<bool>)>) -> Seq<Seq<char>>
    decreases l.len(),
{
    if l.len() == 0 {
        Seq::empty()
    } else if l.last().1 == Some(true) {
        set_categories(l.drop_last()).push(l.last().0)
    } else {
        set_categories(l.drop_last())
    }
}

pub open spec fn categories_view(v: Seq<EsgInvolvement>) -> Seq<Seq<char>> {
    v.map_values(|e: EsgInvolvement| e.category@)
}

/// The involvement categories Yahoo set to `true`, in reporting order.
pub fn collect_involvement(r: &EsgFlags) -> (out: Vec<EsgInvolvement>)
    ensures
        categories_view(out@) == set_categories(esg_flag_list(*r)),
{
    let flags: [(&str, Option<bool>); 15] = [
        ("adult", r.adult),
        ("alcoholic", r.alcoholic),
        ("animal_testing", r.animal_testing),
        ("catholic", r.catholic),
        ("controversial_weapons", r.controversial_weapons),
        ("small_arms", r.small_arms),
        ("fur_leather", r.fur_leather),
        ("gambling", r.gambling),
        ("gmo", r.gmo),
        ("military_contract", r.military_contract),
        ("nuclear", r.nuclear),
        ("palm_oil", r.palm_oil),
        ("pesticides", r.pesticides),
        ("thermal_coal", r.thermal_coal),
        ("tobacco", r.tobacco),
    ];
    let ghost l = esg_flag_list(*r);
    assert(forall|k: int| 0 <= k < 15 ==> #[trigger] l[k] == (flags@[k].0@, flags@[k].1));
    let mut out: Vec<EsgInvolvement> = Vec::new();
    let mut i: usize = 0;
    while i < 15
        invariant
            i <= 15,
            l == esg_flag_list(*r),
            l.len() == 15,
            forall|k: int| 0 <= k < 15 ==> #[trigger] l[k] == (flags@[k].0@, flags@[k].1),
            categories_view(out@) == set_categories(l.take(i as int)),
        decreases 15 - i,
    {
        let (name, set) = flags[i];
        assert(l.take(i + 1).drop_last() =~= l.take(i as int));
        assert(l.take(i + 1).last() == l[i as int]);
        let ghost before = out@;
        let is_set = match set {
            Some(b) => b,
            None => false,
        };
        if is_set {
            out.push(EsgInvolvement { category: name.to_string() });
            assert(categories_view(out@) =~= categories_view(before).push(name@));
        }
        i += 1;
    }
    assert(l.take(15) =~= l);
    out
}

} // verus!
