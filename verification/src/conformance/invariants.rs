//! The inventory of the twenty-two WorldLine safety invariants and their
//! categories.

use vstd::prelude::*;
use crate::conformance::types::{spec_all_categories, spec_invariant_count, InvariantCategory};
use crate::text::{has_prefix, starts_with};

verus! {

/// The invariant identifiers in canonical order.
pub open spec fn spec_all_ids() -> Seq<Seq<char>> {
    seq![
        "I.OBS-1"@, "I.OBS-2"@, "I.OBS-3"@, "I.OBS-4"@, "I.OBS-5"@,
        "I.REGEN-1"@, "I.REGEN-2"@, "I.REGEN-3"@, "I.REGEN-4"@, "I.REGEN-5"@, "I.REGEN-6"@, "I.REGEN-7"@,
        "I.CSQ-1"@, "I.CSQ-2"@,
        "I.COMPILE-1"@, "I.COMPILE-2"@,
        "I.SAL-1"@, "I.SAL-5"@,
        "I.BOOT-1"@, "I.BOOT-2"@,
        "I.EVOS-1"@, "I.EVOS-2"@,
    ]
}

/// All invariant identifiers, in canonical order.
pub fn all_worldline_invariant_ids() -> (v: Vec<&'static str>)
    ensures
        v@.len() == spec_all_ids().len(),
        forall|i: int| 0 <= i < v@.len() ==> (#[trigger] v@[i])@ == spec_all_ids()[i],
{
    let v: Vec<&'static str> = vec![
        "I.OBS-1", "I.OBS-2", "I.OBS-3", "I.OBS-4", "I.OBS-5",
        "I.REGEN-1", "I.REGEN-2", "I.REGEN-3", "I.REGEN-4", "I.REGEN-5", "I.REGEN-6", "I.REGEN-7",
        "I.CSQ-1", "I.CSQ-2",
        "I.COMPILE-1", "I.COMPILE-2",
        "I.SAL-1", "I.SAL-5",
        "I.BOOT-1", "I.BOOT-2",
        "I.EVOS-1", "I.EVOS-2",
    ];
    v
}

/// The category an identifier's prefix names, if any.
pub open spec fn spec_category_for(id: Seq<char>) -> Option<InvariantCategory> {
    if has_prefix(id, "I.OBS"@) {
        Some(InvariantCategory::Observation)
    } else if has_prefix(id, "I.REGEN"@) {
        Some(InvariantCategory::SelfModGate)
    } else if has_prefix(id, "I.CSQ"@) {
        Some(InvariantCategory::Consequence)
    } else if has_prefix(id, "I.COMPILE"@) {
        Some(InvariantCategory::Compiler)
    } else if has_prefix(id, "I.SAL"@) {
        Some(InvariantCategory::Sal)
    } else if has_prefix(id, "I.BOOT"@) {
        Some(InvariantCategory::Bootstrap)
    } else if has_prefix(id, "I.EVOS"@) {
        Some(InvariantCategory::Evos)
    } else {
        None
    }
}

/// The category of an identifier, by its prefix.
pub fn category_for(id: &str) -> (c: Option<InvariantCategory>)
    ensures
        c == spec_category_for(id@),
{
    if starts_with(id, "I.OBS") {
        Some(InvariantCategory::Observation)
    } else if starts_with(id, "I.REGEN") {
        Some(InvariantCategory::SelfModGate)
    } else if starts_with(id, "I.CSQ") {
        Some(InvariantCategory::Consequence)
    } else if starts_with(id, "I.COMPILE") {
        Some(InvariantCategory::Compiler)
    } else if starts_with(id, "I.SAL") {
        Some(InvariantCategory::Sal)
    } else if starts_with(id, "I.BOOT") {
        Some(InvariantCategory::Bootstrap)
    } else if starts_with(id, "I.EVOS") {
        Some(InvariantCategory::Evos)
    } else {
        None
    }
}

/// The identifiers among `ids` whose category is `cat`, in order.
pub open spec fn ids_in(ids: Seq<Seq<char>>, cat: InvariantCategory) -> Seq<Seq<char>>
    decreases ids.len(),
{
    if ids.len() == 0 {
        Seq::empty()
    } else if spec_category_for(ids.last()) == Some(cat) {
        ids_in(ids.drop_last(), cat).push(ids.last())
    } else {
        ids_in(ids.drop_last(), cat)
    }
}

/// The identifiers of a category, in canonical order.
pub fn ids_for_category(cat: InvariantCategory) -> (v: Vec<&'static str>)
    ensures
        v@.len() == ids_in(spec_all_ids(), cat).len(),
        forall|i: int| 0 <= i < v@.len() ==> (#[trigger] v@[i])@ == ids_in(spec_all_ids(), cat)[i],
{
    let all = all_worldline_invariant_ids();
    let mut v: Vec<&'static str> = Vec::new();
    let mut i: usize = 0;
    while i < all.len()
        invariant
            i <= all@.len(),
            all@.len() == spec_all_ids().len(),
            forall|k: int| 0 <= k < all@.len() ==> (#[trigger] all@[k])@ == spec_all_ids()[k],
            v@.len() == ids_in(spec_all_ids().take(i as int), cat).len(),
            forall|k: int| 0 <= k < v@.len() ==> (#[trigger] v@[k])@ == ids_in(spec_all_ids().take(i as int), cat)[k],
        decreases all@.len() - i,
    {
        let ghost ids = spec_all_ids();
        proof {
            assert(ids.take(i as int + 1).drop_last() =~= ids.take(i as int));
            assert(ids.take(i as int + 1).last() == ids[i as int]);
        }
        let id = all[i];
        if category_for(id) == Some(cat) {
            v.push(id);
        }
        i = i + 1;
    }
    proof {
        assert(spec_all_ids().take(spec_all_ids().len() as int) =~= spec_all_ids());
    }
    v
}

proof fn lemma_prefixes()
    ensures
        forall|i: int| 0 <= i < 5 ==> #[trigger] spec_category_for(spec_all_ids()[i]) == Some(InvariantCategory::Observation),
        forall|i: int| 5 <= i < 12 ==> #[trigger] spec_category_for(spec_all_ids()[i]) == Some(InvariantCategory::SelfModGate),
        forall|i: int| 12 <= i < 14 ==> #[trigger] spec_category_for(spec_all_ids()[i]) == Some(InvariantCategory::Consequence),
        forall|i: int| 14 <= i < 16 ==> #[trigger] spec_category_for(spec_all_ids()[i]) == Some(InvariantCategory::Compiler),
        forall|i: int| 16 <= i < 18 ==> #[trigger] spec_category_for(spec_all_ids()[i]) == Some(InvariantCategory::Sal),
        forall|i: int| 18 <= i < 20 ==> #[trigger] spec_category_for(spec_all_ids()[i]) == Some(InvariantCategory::Bootstrap),
        forall|i: int| 20 <= i < 22 ==> #[trigger] spec_category_for(spec_all_ids()[i]) == Some(InvariantCategory::Evos),
{
    reveal_strlit("I.OBS");
    reveal_strlit("I.REGEN");
    reveal_strlit("I.CSQ");
    reveal_strlit("I.COMPILE");
    reveal_strlit("I.SAL");
    reveal_strlit("I.BOOT");
    reveal_strlit("I.EVOS");
    reveal_strlit("I.OBS-1");
    reveal_strlit("I.OBS-2");
    reveal_strlit("I.OBS-3");
    reveal_strlit("I.OBS-4");
    reveal_strlit("I.OBS-5");
    reveal_strlit("I.REGEN-1");
    reveal_strlit("I.REGEN-2");
    reveal_strlit("I.REGEN-3");
    reveal_strlit("I.REGEN-4");
    reveal_strlit("I.REGEN-5");
    reveal_strlit("I.REGEN-6");
    reveal_strlit("I.REGEN-7");
    reveal_strlit("I.CSQ-1");
    reveal_strlit("I.CSQ-2");
    reveal_strlit("I.COMPILE-1");
    reveal_strlit("I.COMPILE-2");
    reveal_strlit("I.SAL-1");
    reveal_strlit("I.SAL-5");
    reveal_strlit("I.BOOT-1");
    reveal_strlit("I.BOOT-2");
    reveal_strlit("I.EVOS-1");
    reveal_strlit("I.EVOS-2");
    let ids = spec_all_ids();
    assert(ids[0] == "I.OBS-1"@);
    assert("I.OBS-1"@.subrange(0, 5) =~= "I.OBS"@);
    assert(spec_category_for("I.OBS-1"@) == Some(InvariantCategory::Observation));
    assert(ids[1] == "I.OBS-2"@);
    assert("I.OBS-2"@.subrange(0, 5) =~= "I.OBS"@);
    assert(spec_category_for("I.OBS-2"@) == Some(InvariantCategory::Observation));
    assert(ids[2] == "I.OBS-3"@);
    assert("I.OBS-3"@.subrange(0, 5) =~= "I.OBS"@);
    assert(spec_category_for("I.OBS-3"@) == Some(InvariantCategory::Observation));
    assert(ids[3] == "I.OBS-4"@);
    assert("I.OBS-4"@.subrange(0, 5) =~= "I.OBS"@);
    assert(spec_category_for("I.OBS-4"@) == Some(InvariantCategory::Observation));
    assert(ids[4] == "I.OBS-5"@);
    assert("I.OBS-5"@.subrange(0, 5) =~= "I.OBS"@);
    assert(spec_category_for("I.OBS-5"@) == Some(InvariantCategory::Observation));
    assert(ids[5] == "I.REGEN-1"@);
    assert("I.REGEN-1"@.subrange(0, 7) =~= "I.REGEN"@);
    assert("I.REGEN-1"@.subrange(0, 5)[2] != "I.OBS"@[2]);
    assert(spec_category_for("I.REGEN-1"@) == Some(InvariantCategory::SelfModGate));
    assert(ids[6] == "I.REGEN-2"@);
    assert("I.REGEN-2"@.subrange(0, 7) =~= "I.REGEN"@);
    assert("I.REGEN-2"@.subrange(0, 5)[2] != "I.OBS"@[2]);
    assert(spec_category_for("I.REGEN-2"@) == Some(InvariantCategory::SelfModGate));
    assert(ids[7] == "I.REGEN-3"@);
    assert("I.REGEN-3"@.subrange(0, 7) =~= "I.REGEN"@);
    assert("I.REGEN-3"@.subrange(0, 5)[2] != "I.OBS"@[2]);
    assert(spec_category_for("I.REGEN-3"@) == Some(InvariantCategory::SelfModGate));
    assert(ids[8] == "I.REGEN-4"@);
    assert("I.REGEN-4"@.subrange(0, 7) =~= "I.REGEN"@);
    assert("I.REGEN-4"@.subrange(0, 5)[2] != "I.OBS"@[2]);
    assert(spec_category_for("I.REGEN-4"@) == Some(InvariantCategory::SelfModGate));
    assert(ids[9] == "I.REGEN-5"@);
    assert("I.REGEN-5"@.subrange(0, 7) =~= "I.REGEN"@);
    assert("I.REGEN-5"@.subrange(0, 5)[2] != "I.OBS"@[2]);
    assert(spec_category_for("I.REGEN-5"@) == Some(InvariantCategory::SelfModGate));
    assert(ids[10] == "I.REGEN-6"@);
    assert("I.REGEN-6"@.subrange(0, 7) =~= "I.REGEN"@);
    assert("I.REGEN-6"@.subrange(0, 5)[2] != "I.OBS"@[2]);
    assert(spec_category_for("I.REGEN-6"@) == Some(InvariantCategory::SelfModGate));
    assert(ids[11] == "I.REGEN-7"@);
    assert("I.REGEN-7"@.subrange(0, 7) =~= "I.REGEN"@);
    assert("I.REGEN-7"@.subrange(0, 5)[2] != "I.OBS"@[2]);
    assert(spec_category_for("I.REGEN-7"@) == Some(InvariantCategory::SelfModGate));
    assert(ids[12] == "I.CSQ-1"@);
    assert("I.CSQ-1"@.subrange(0, 5) =~= "I.CSQ"@);
    assert("I.CSQ-1"@.subrange(0, 5)[2] != "I.OBS"@[2]);
    assert("I.CSQ-1"@.subrange(0, 7)[2] != "I.REGEN"@[2]);
    assert(spec_category_for("I.CSQ-1"@) == Some(InvariantCategory::Consequence));
    assert(ids[13] == "I.CSQ-2"@);
    assert("I.CSQ-2"@.subrange(0, 5) =~= "I.CSQ"@);
    assert("I.CSQ-2"@.subrange(0, 5)[2] != "I.OBS"@[2]);
    assert("I.CSQ-2"@.subrange(0, 7)[2] != "I.REGEN"@[2]);
    assert(spec_category_for("I.CSQ-2"@) == Some(InvariantCategory::Consequence));
    assert(ids[14] == "I.COMPILE-1"@);
    assert("I.COMPILE-1"@.subrange(0, 9) =~= "I.COMPILE"@);
    assert("I.COMPILE-1"@.subrange(0, 5)[2] != "I.OBS"@[2]);
    assert("I.COMPILE-1"@.subrange(0, 7)[2] != "I.REGEN"@[2]);
    assert("I.COMPILE-1"@.subrange(0, 5)[3] != "I.CSQ"@[3]);
    assert(spec_category_for("I.COMPILE-1"@) == Some(InvariantCategory::Compiler));
    assert(ids[15] == "I.COMPILE-2"@);
    assert("I.COMPILE-2"@.subrange(0, 9) =~= "I.COMPILE"@);
    assert("I.COMPILE-2"@.subrange(0, 5)[2] != "I.OBS"@[2]);
    assert("I.COMPILE-2"@.subrange(0, 7)[2] != "I.REGEN"@[2]);
    assert("I.COMPILE-2"@.subrange(0, 5)[3] != "I.CSQ"@[3]);
    assert(spec_category_for("I.COMPILE-2"@) == Some(InvariantCategory::Compiler));
    assert(ids[16] == "I.SAL-1"@);
    assert("I.SAL-1"@.subrange(0, 5) =~= "I.SAL"@);
    assert("I.SAL-1"@.subrange(0, 5)[2] != "I.OBS"@[2]);
    assert("I.SAL-1"@.subrange(0, 7)[2] != "I.REGEN"@[2]);
    assert("I.SAL-1"@.subrange(0, 5)[2] != "I.CSQ"@[2]);
    assert(spec_category_for("I.SAL-1"@) == Some(InvariantCategory::Sal));
    assert(ids[17] == "I.SAL-5"@);
    assert("I.SAL-5"@.subrange(0, 5) =~= "I.SAL"@);
    assert("I.SAL-5"@.subrange(0, 5)[2] != "I.OBS"@[2]);
    assert("I.SAL-5"@.subrange(0, 7)[2] != "I.REGEN"@[2]);
    assert("I.SAL-5"@.subrange(0, 5)[2] != "I.CSQ"@[2]);
    assert(spec_category_for("I.SAL-5"@) == Some(InvariantCategory::Sal));
    assert(ids[18] == "I.BOOT-1"@);
    assert("I.BOOT-1"@.subrange(0, 6) =~= "I.BOOT"@);
    assert("I.BOOT-1"@.subrange(0, 5)[2] != "I.OBS"@[2]);
    assert("I.BOOT-1"@.subrange(0, 7)[2] != "I.REGEN"@[2]);
    assert("I.BOOT-1"@.subrange(0, 5)[2] != "I.CSQ"@[2]);
    assert("I.BOOT-1"@.subrange(0, 5)[2] != "I.SAL"@[2]);
    assert(spec_category_for("I.BOOT-1"@) == Some(InvariantCategory::Bootstrap));
    assert(ids[19] == "I.BOOT-2"@);
    assert("I.BOOT-2"@.subrange(0, 6) =~= "I.BOOT"@);
    assert("I.BOOT-2"@.subrange(0, 5)[2] != "I.OBS"@[2]);
    assert("I.BOOT-2"@.subrange(0, 7)[2] != "I.REGEN"@[2]);
    assert("I.BOOT-2"@.subrange(0, 5)[2] != "I.CSQ"@[2]);
    assert("I.BOOT-2"@.subrange(0, 5)[2] != "I.SAL"@[2]);
    assert(spec_category_for("I.BOOT-2"@) == Some(InvariantCategory::Bootstrap));
    assert(ids[20] == "I.EVOS-1"@);
    assert("I.EVOS-1"@.subrange(0, 6) =~= "I.EVOS"@);
    assert("I.EVOS-1"@.subrange(0, 5)[2] != "I.OBS"@[2]);
    assert("I.EVOS-1"@.subrange(0, 7)[2] != "I.REGEN"@[2]);
    assert("I.EVOS-1"@.subrange(0, 5)[2] != "I.CSQ"@[2]);
    assert("I.EVOS-1"@.subrange(0, 5)[2] != "I.SAL"@[2]);
    assert("I.EVOS-1"@.subrange(0, 6)[2] != "I.BOOT"@[2]);
    assert(spec_category_for("I.EVOS-1"@) == Some(InvariantCategory::Evos));
    assert(ids[21] == "I.EVOS-2"@);
    assert("I.EVOS-2"@.subrange(0, 6) =~= "I.EVOS"@);
    assert("I.EVOS-2"@.subrange(0, 5)[2] != "I.OBS"@[2]);
    assert("I.EVOS-2"@.subrange(0, 7)[2] != "I.REGEN"@[2]);
    assert("I.EVOS-2"@.subrange(0, 5)[2] != "I.CSQ"@[2]);
    assert("I.EVOS-2"@.subrange(0, 5)[2] != "I.SAL"@[2]);
    assert("I.EVOS-2"@.subrange(0, 6)[2] != "I.BOOT"@[2]);
    assert(spec_category_for("I.EVOS-2"@) == Some(InvariantCategory::Evos));
}

/// Every invariant of the inventory belongs to a category.
pub proof fn law_every_invariant_has_a_category()
    ensures
        spec_all_ids().len() == 22,
        forall|i: int| 0 <= i < spec_all_ids().len() ==> (#[trigger] spec_category_for(spec_all_ids()[i])) is Some,
{
    lemma_prefixes();
    assert forall|i: int| 0 <= i < spec_all_ids().len() implies (#[trigger] spec_category_for(spec_all_ids()[i])) is Some by {
        if i < 5 {
        } else if i < 12 {
        } else if i < 14 {
        } else if i < 16 {
        } else if i < 18 {
        } else if i < 20 {
        } else {
        }
    }
}

/// Number of identifiers among the first `n` of `ids` whose category is `cat`.
pub open spec fn count_in(ids: Seq<Seq<char>>, cat: InvariantCategory, n: int) -> nat
    decreases n,
{
    if n <= 0 {
        0
    } else {
        count_in(ids, cat, n - 1) + if spec_category_for(ids[n - 1]) == Some(cat) { 1nat } else { 0nat }
    }
}

proof fn lemma_ids_in_count(ids: Seq<Seq<char>>, cat: InvariantCategory, n: int)
    requires
        0 <= n <= ids.len(),
    ensures
        ids_in(ids.take(n), cat).len() == count_in(ids, cat, n),
    decreases n,
{
    if n > 0 {
        lemma_ids_in_count(ids, cat, n - 1);
        assert(ids.take(n).drop_last() =~= ids.take(n - 1));
        assert(ids.take(n).last() == ids[n - 1]);
    }
}

/// Each category holds exactly as many invariants of the inventory as it
/// declares, and the seven categories together declare all twenty-two.
pub proof fn law_category_counts_match_inventory(cat: InvariantCategory)
    ensures
        ids_in(spec_all_ids(), cat).len() == spec_invariant_count(cat),
        spec_all_categories().len() == 7,
        spec_invariant_count(InvariantCategory::Observation) + spec_invariant_count(InvariantCategory::SelfModGate)
            + spec_invariant_count(InvariantCategory::Consequence) + spec_invariant_count(InvariantCategory::Compiler)
            + spec_invariant_count(InvariantCategory::Sal) + spec_invariant_count(InvariantCategory::Bootstrap)
            + spec_invariant_count(InvariantCategory::Evos) == spec_all_ids().len(),
{
    lemma_prefixes();
    let ids = spec_all_ids();
    lemma_ids_in_count(ids, cat, 22);
    assert(ids.take(22) =~= ids);
    reveal_with_fuel(count_in, 23);
    assert(spec_category_for(ids[0]) == Some(InvariantCategory::Observation));
    assert(spec_category_for(ids[1]) == Some(InvariantCategory::Observation));
    assert(spec_category_for(ids[2]) == Some(InvariantCategory::Observation));
    assert(spec_category_for(ids[3]) == Some(InvariantCategory::Observation));
    assert(spec_category_for(ids[4]) == Some(InvariantCategory::Observation));
    assert(spec_category_for(ids[5]) == Some(InvariantCategory::SelfModGate));
    assert(spec_category_for(ids[6]) == Some(InvariantCategory::SelfModGate));
    assert(spec_category_for(ids[7]) == Some(InvariantCategory::SelfModGate));
    assert(spec_category_for(ids[8]) == Some(InvariantCategory::SelfModGate));
    assert(spec_category_for(ids[9]) == Some(InvariantCategory::SelfModGate));
    assert(spec_category_for(ids[10]) == Some(InvariantCategory::SelfModGate));
    assert(spec_category_for(ids[11]) == Some(InvariantCategory::SelfModGate));
    assert(spec_category_for(ids[12]) == Some(InvariantCategory::Consequence));
    assert(spec_category_for(ids[13]) == Some(InvariantCategory::Consequence));
    assert(spec_category_for(ids[14]) == Some(InvariantCategory::Compiler));
    assert(spec_category_for(ids[15]) == Some(InvariantCategory::Compiler));
    assert(spec_category_for(ids[16]) == Some(InvariantCategory::Sal));
    assert(spec_category_for(ids[17]) == Some(InvariantCategory::Sal));
    assert(spec_category_for(ids[18]) == Some(InvariantCategory::Bootstrap));
    assert(spec_category_for(ids[19]) == Some(InvariantCategory::Bootstrap));
    assert(spec_category_for(ids[20]) == Some(InvariantCategory::Evos));
    assert(spec_category_for(ids[21]) == Some(InvariantCategory::Evos));
}

proof fn lemma_ids_in_contains(ids: Seq<Seq<char>>, cat: InvariantCategory, x: Seq<char>)
    ensures
        ids_in(ids, cat).contains(x) <==> (ids.contains(x) && spec_category_for(x) == Some(cat)),
    decreases ids.len(),
{
    if ids.len() > 0 {
        let t = ids.drop_last();
        let l = ids.last();
        lemma_ids_in_contains(t, cat, x);
        assert(ids =~= t.push(l));
        let w = ids_in(t, cat);
        if ids.contains(x) {
            let k = choose|k: int| 0 <= k < ids.len() && ids[k] == x;
            if k < t.len() {
                assert(t[k] == x);
            }
        }
        if t.contains(x) {
            let k = choose|k: int| 0 <= k < t.len() && t[k] == x;
            assert(ids[k] == x);
        }
        if spec_category_for(l) == Some(cat) {
            if w.contains(x) {
                let k = choose|k: int| 0 <= k < w.len() && w[k] == x;
                assert(w.push(l)[k] == x);
            }
            if l == x {
                assert(w.push(l)[w.len() as int] == x);
            }
            if w.push(l).contains(x) {
                let k = choose|k: int| 0 <= k < w.push(l).len() && w.push(l)[k] == x;
                if k < w.len() {
                    assert(w[k] == x);
                }
            }
        }
    }
}

/// The category lists partition the inventory: an identifier is in the
/// list of a category exactly when it is an invariant of that category,
/// every invariant has a category (so lies in exactly one list), and the
/// lists together hold the twenty-two invariants.
pub proof fn law_category_lists_partition_ids(x: Seq<char>, cat: InvariantCategory)
    ensures
        ids_in(spec_all_ids(), cat).contains(x) <==> (spec_all_ids().contains(x) && spec_category_for(x) == Some(cat)),
        spec_all_ids().contains(x) ==> spec_category_for(x) is Some,
        ids_in(spec_all_ids(), InvariantCategory::Observation).len()
            + ids_in(spec_all_ids(), InvariantCategory::SelfModGate).len()
            + ids_in(spec_all_ids(), InvariantCategory::Consequence).len()
            + ids_in(spec_all_ids(), InvariantCategory::Compiler).len()
            + ids_in(spec_all_ids(), InvariantCategory::Sal).len()
            + ids_in(spec_all_ids(), InvariantCategory::Bootstrap).len()
            + ids_in(spec_all_ids(), InvariantCategory::Evos).len() == spec_all_ids().len(),
{
    lemma_ids_in_contains(spec_all_ids(), cat, x);
    law_every_invariant_has_a_category();
    if spec_all_ids().contains(x) {
        let k = choose|k: int| 0 <= k < spec_all_ids().len() && spec_all_ids()[k] == x;
        assert(spec_category_for(spec_all_ids()[k]) is Some);
    }
    law_category_counts_match_inventory(InvariantCategory::Observation);
    law_category_counts_match_inventory(InvariantCategory::SelfModGate);
    law_category_counts_match_inventory(InvariantCategory::Consequence);
    law_category_counts_match_inventory(InvariantCategory::Compiler);
    law_category_counts_match_inventory(InvariantCategory::Sal);
    law_category_counts_match_inventory(InvariantCategory::Bootstrap);
    law_category_counts_match_inventory(InvariantCategory::Evos);
}

} // verus!
