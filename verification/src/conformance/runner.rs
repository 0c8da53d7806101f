//! The conformance runner's selection of invariants: by identifier, by
//! category, or all of them.

use vstd::prelude::*;
use crate::conformance::error::{ConformanceError, ConformanceResult};
use crate::conformance::invariants::{
    all_worldline_invariant_ids, ids_for_category, ids_in, law_category_counts_match_inventory,
    law_category_lists_partition_ids, spec_all_ids, spec_category_for,
};
use crate::conformance::types::{spec_invariant_count, ConformanceConfig, InvariantCategory, InvariantId};
use crate::text::str_eq;

verus! {

/// Resolution of requested identifiers: each must be in the inventory;
/// the first one that is not gives the error message.
pub open spec fn spec_resolve_requested(req: Seq<Seq<char>>) -> Result<Seq<Seq<char>>, Seq<char>>
    decreases req.len(),
{
    if req.len() == 0 {
        Ok(Seq::empty())
    } else {
        match spec_resolve_requested(req.drop_last()) {
            Err(m) => Err(m),
            Ok(v) => if spec_all_ids().contains(req.last()) {
                Ok(v.push(req.last()))
            } else {
                Err("unknown invariant ID: "@ + req.last())
            },
        }
    }
}

/// The identifiers of the given categories, category after category.
pub open spec fn spec_ids_of_categories(cats: Seq<InvariantCategory>) -> Seq<Seq<char>>
    decreases cats.len(),
{
    if cats.len() == 0 {
        Seq::empty()
    } else {
        spec_ids_of_categories(cats.drop_last()) + ids_in(spec_all_ids(), cats.last())
    }
}

/// The identifiers a configuration selects: the requested identifiers
/// when there are any, else the identifiers of the requested categories
/// when there are any, else all of them.
pub open spec fn spec_resolve(c: ConformanceConfig) -> Result<Seq<Seq<char>>, Seq<char>> {
    if c.invariant_ids@.len() > 0 {
        spec_resolve_requested(c.invariant_ids@.map_values(|id: InvariantId| id.0@))
    } else if c.categories@.len() > 0 {
        Ok(spec_ids_of_categories(c.categories@))
    } else {
        Ok(spec_all_ids())
    }
}

/// Views of a list of identifiers.
pub open spec fn views(v: Seq<&'static str>) -> Seq<Seq<char>> {
    v.map_values(|s: &'static str| s@)
}

/// Runs conformance checks according to a configuration.
pub struct ConformanceRunner {
    config: ConformanceConfig,
}

fn find_id(all: &Vec<&'static str>, requested: &str) -> (r: Option<&'static str>)
    requires
        views(all@) == spec_all_ids(),
    ensures
        match r {
            Some(s) => s@ == requested@ && spec_all_ids().contains(requested@),
            None => !spec_all_ids().contains(requested@),
        },
{
    let mut i: usize = 0;
    while i < all.len()
        invariant
            i <= all@.len(),
            views(all@) == spec_all_ids(),
            forall|k: int| 0 <= k < i ==> (#[trigger] all@[k])@ != requested@,
        decreases all@.len() - i,
    {
        if str_eq(all[i], requested) {
            proof {
                assert(views(all@)[i as int] == all@[i as int]@);
            }
            return Some(all[i]);
        }
        i = i + 1;
    }
    proof {
        if spec_all_ids().contains(requested@) {
            let k = choose|k: int| 0 <= k < spec_all_ids().len() && spec_all_ids()[k] == requested@;
            assert(views(all@)[k] == all@[k]@);
        }
    }
    None
}

impl ConformanceRunner {
    /// The runner's configuration.
    pub closed spec fn configuration(&self) -> ConformanceConfig {
        self.config
    }

    /// A runner over all invariants, without fail-fast.
    pub fn new() -> (r: Self)
        ensures
            r.configuration().categories@.len() == 0,
            r.configuration().invariant_ids@.len() == 0,
            !r.configuration().fail_fast,
            !r.configuration().include_benchmarks,
    {
        ConformanceRunner { config: ConformanceConfig::default() }
    }

    /// A runner with the given configuration.
    pub fn with_config(config: ConformanceConfig) -> (r: Self)
        ensures
            r.configuration() == config,
    {
        ConformanceRunner { config }
    }

    /// The configuration.
    pub fn config(&self) -> (c: &ConformanceConfig)
        ensures
            *c == self.configuration(),
    {
        &self.config
    }

    /// The identifiers the configuration selects, or an error naming the
    /// first requested identifier that is not in the inventory.
    pub fn resolve_ids(&self) -> (r: ConformanceResult<Vec<&'static str>>)
        ensures
            match spec_resolve(self.configuration()) {
                Ok(ids) => r matches Ok(v) && views(v@) == ids,
                Err(m) => r matches Err(ConformanceError::InvalidConfiguration(e)) && e@ == m,
            },
    {
        let all = all_worldline_invariant_ids();
        proof {
            assert(views(all@) =~= spec_all_ids());
        }
        if self.config.invariant_ids.len() > 0 {
            let ghost req = self.config.invariant_ids@.map_values(|id: InvariantId| id.0@);
            let mut ids: Vec<&'static str> = Vec::new();
            let mut i: usize = 0;
            proof {
                assert(req.take(0) =~= Seq::<Seq<char>>::empty());
                assert(views(ids@) =~= Seq::<Seq<char>>::empty());
            }
            while i < self.config.invariant_ids.len()
                invariant
                    i <= self.config.invariant_ids@.len(),
                    req == self.config.invariant_ids@.map_values(|id: InvariantId| id.0@),
                    views(all@) == spec_all_ids(),
                    spec_resolve_requested(req.take(i as int)) == Ok::<Seq<Seq<char>>, Seq<char>>(views(ids@)),
                decreases self.config.invariant_ids@.len() - i,
            {
                proof {
                    assert(req.take(i as int + 1).drop_last() =~= req.take(i as int));
                    assert(req.take(i as int + 1).last() == self.config.invariant_ids@[i as int].0@);
                }
                let requested = &self.config.invariant_ids[i];
                match find_id(&all, requested.0.as_str()) {
                    Some(id) => {
                        let ghost prev = ids@;
                        ids.push(id);
                        proof {
                            assert(views(ids@) =~= views(prev).push(id@));
                        }
                    },
                    None => {
                        let mut m = String::from_str("unknown invariant ID: ");
                        m.append(requested.0.as_str());
                        proof {
                            lemma_resolve_error_persists(req, i as int + 1);
                        }
                        return Err(ConformanceError::InvalidConfiguration(m));
                    },
                }
                i = i + 1;
            }
            proof {
                assert(req.take(req.len() as int) =~= req);
            }
            return Ok(ids);
        }
        if self.config.categories.len() > 0 {
            let mut ids: Vec<&'static str> = Vec::new();
            let mut i: usize = 0;
            while i < self.config.categories.len()
                invariant
                    i <= self.config.categories@.len(),
                    views(ids@) == spec_ids_of_categories(self.config.categories@.take(i as int)),
                decreases self.config.categories@.len() - i,
            {
                proof {
                    assert(self.config.categories@.take(i as int + 1).drop_last() =~= self.config.categories@.take(i as int));
                }
                let more = ids_for_category(self.config.categories[i]);
                let ghost before = ids@;
                let mut k: usize = 0;
                while k < more.len()
                    invariant
                        k <= more@.len(),
                        views(ids@) == views(before) + views(more@).take(k as int),
                    decreases more@.len() - k,
                {
                    let ghost prev = ids@;
                    ids.push(more[k]);
                    proof {
                        assert(views(ids@) =~= views(prev).push(more@[k as int]@));
                        assert(views(more@).take(k as int + 1) =~= views(more@).take(k as int).push(more@[k as int]@));
                        assert(views(ids@) =~= views(before) + views(more@).take(k as int + 1));
                    }
                    k = k + 1;
                }
                proof {
                    assert(views(more@).take(more@.len() as int) =~= views(more@));
                    assert(views(more@) =~= ids_in(spec_all_ids(), self.config.categories@[i as int]));
                }
                i = i + 1;
            }
            proof {
                assert(self.config.categories@.take(self.config.categories@.len() as int) =~= self.config.categories@);
            }
            return Ok(ids);
        }
        Ok(all)
    }
}

proof fn lemma_resolve_error_persists(req: Seq<Seq<char>>, n: int)
    requires
        0 <= n <= req.len(),
        spec_resolve_requested(req.take(n)) is Err,
    ensures
        spec_resolve_requested(req) == spec_resolve_requested(req.take(n)),
    decreases req.len() - n,
{
    if n < req.len() {
        assert(req.take(n + 1).drop_last() =~= req.take(n));
        lemma_resolve_error_persists(req, n + 1);
    } else {
        assert(req.take(n) =~= req);
    }
}

impl Default for ConformanceRunner {
    fn default() -> (r: Self)
        ensures
            !r.configuration().fail_fast,
    {
        ConformanceRunner { config: ConformanceConfig::default() }
    }
}

/// Sum of the invariant counts the given categories declare.
pub open spec fn declared_count(cats: Seq<InvariantCategory>) -> nat
    decreases cats.len(),
{
    if cats.len() == 0 { 0 } else { declared_count(cats.drop_last()) + spec_invariant_count(cats.last()) }
}

/// Whether `x` is an inventory invariant of one of the categories `cats`.
pub open spec fn of_requested_category(x: Seq<char>, cats: Seq<InvariantCategory>) -> bool {
    &&& spec_all_ids().contains(x)
    &&& spec_category_for(x) matches Some(cat) && cats.contains(cat)
}

proof fn lemma_ids_of_categories(cats: Seq<InvariantCategory>, x: Seq<char>)
    ensures
        spec_ids_of_categories(cats).contains(x) <==> of_requested_category(x, cats),
        spec_ids_of_categories(cats).len() == declared_count(cats),
    decreases cats.len(),
{
    if cats.len() > 0 {
        let init = cats.drop_last();
        let l = cats.last();
        lemma_ids_of_categories(init, x);
        law_category_lists_partition_ids(x, l);
        law_category_counts_match_inventory(l);
        let a = spec_ids_of_categories(init);
        let b = ids_in(spec_all_ids(), l);
        let v = a + b;
        assert(spec_ids_of_categories(cats) == v);
        if a.contains(x) {
            let k = choose|k: int| 0 <= k < a.len() && a[k] == x;
            assert(v[k] == x);
        }
        if b.contains(x) {
            let k = choose|k: int| 0 <= k < b.len() && b[k] == x;
            assert(v[a.len() + k] == x);
        }
        if v.contains(x) {
            let k = choose|k: int| 0 <= k < v.len() && v[k] == x;
            if k < a.len() {
                assert(a[k] == x);
            } else {
                assert(b[k - a.len()] == x);
            }
        }
        if spec_category_for(x) is Some {
            let c = spec_category_for(x)->0;
            if init.contains(c) {
                let k = choose|k: int| 0 <= k < init.len() && init[k] == c;
                assert(cats[k] == c);
            }
            if c == l {
                assert(cats[cats.len() - 1] == c);
            }
            if cats.contains(c) && c != l {
                let k = choose|k: int| 0 <= k < cats.len() && cats[k] == c;
                assert(init[k] == c);
            }
        }
    }
}

/// Selecting by category: when no identifiers are requested and some
/// categories are, the selection succeeds and holds exactly the inventory
/// invariants of the requested categories (every one of each requested
/// category, nothing else), with as many entries as those categories
/// declare together.
pub proof fn law_categories_select_all_their_invariants(c: ConformanceConfig, x: Seq<char>)
    requires
        c.invariant_ids@.len() == 0,
        c.categories@.len() > 0,
    ensures
        spec_resolve(c) is Ok,
        spec_resolve(c)->Ok_0.contains(x) <==> of_requested_category(x, c.categories@),
        spec_resolve(c)->Ok_0.len() == declared_count(c.categories@),
{
    lemma_ids_of_categories(c.categories@, x);
}

/// Categories are resolved in the order requested: requesting one more
/// category keeps the selection of the earlier ones as a prefix and adds
/// that category's invariants after it, in canonical order.
pub proof fn law_categories_resolve_in_order(c: ConformanceConfig, more: ConformanceConfig, x: Seq<char>)
    requires
        c.invariant_ids@.len() == 0,
        more.invariant_ids@.len() == 0,
        c.categories@.len() > 0,
        more.categories@ == c.categories@.push(more.categories@.last()),
    ensures
        spec_resolve(more)->Ok_0.subrange(0, spec_resolve(c)->Ok_0.len() as int) == spec_resolve(c)->Ok_0,
        spec_resolve(more)->Ok_0.len() == spec_resolve(c)->Ok_0.len() + spec_invariant_count(more.categories@.last()),
        spec_resolve(more)->Ok_0.subrange(spec_resolve(c)->Ok_0.len() as int, spec_resolve(more)->Ok_0.len() as int)
            == ids_in(spec_all_ids(), more.categories@.last()),
{
    let cats = more.categories@;
    assert(cats.drop_last() =~= c.categories@);
    law_category_counts_match_inventory(cats.last());
    let a = spec_ids_of_categories(c.categories@);
    let b = ids_in(spec_all_ids(), cats.last());
    assert((a + b).subrange(0, a.len() as int) =~= a);
    assert((a + b).subrange(a.len() as int, (a + b).len() as int) =~= b);
}

} // verus!
