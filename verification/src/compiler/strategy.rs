//! Compilation strategies: what a compilation targets and which
//! optimization passes it runs, in order.

use vstd::prelude::*;
use crate::compiler::passes::PassId;
use crate::compiler::types::{CompilationTarget, OptimizationLevel, StrategyId};

verus! {

/// A compilation strategy: its identity, the target it compiles for, its
/// optimization level and the passes it enables, in the order they run.
#[derive(Clone, Debug)]
pub struct CompilationStrategy {
    pub id: StrategyId,
    pub name: String,
    pub description: String,
    pub target: CompilationTarget,
    pub optimization_level: OptimizationLevel,
    pub enabled_passes: Vec<PassId>,
}

/// The passes with `p` appended, unless it is already among them.
pub open spec fn with_pass(s: Seq<PassId>, p: PassId) -> Seq<PassId> {
    if s.contains(p) { s } else { s.push(p) }
}

/// The passes with every occurrence of `p` removed, the others in order.
pub open spec fn without_pass(s: Seq<PassId>, p: PassId) -> Seq<PassId>
    decreases s.len(),
{
    if s.len() == 0 {
        s
    } else if s.last() == p {
        without_pass(s.drop_last(), p)
    } else {
        without_pass(s.drop_last(), p).push(s.last())
    }
}

/// A copy of a list of passes.
pub fn copy_passes(s: &[PassId]) -> (v: Vec<PassId>)
    ensures
        v@ == s@,
{
    let mut v: Vec<PassId> = Vec::new();
    let mut i: usize = 0;
    while i < s.len()
        invariant
            i <= s@.len(),
            v@ == s@.take(i as int),
        decreases s@.len() - i,
    {
        v.push(s[i]);
        proof {
            assert(v@ =~= s@.take(i as int + 1));
        }
        i = i + 1;
    }
    proof {
        assert(s@.take(s@.len() as int) =~= s@);
    }
    v
}

/// Whether `p` is among the passes.
pub fn passes_contain(s: &[PassId], p: PassId) -> (b: bool)
    ensures
        b == s@.contains(p),
{
    let mut i: usize = 0;
    while i < s.len()
        invariant
            i <= s@.len(),
            forall|j: int| 0 <= j < i ==> s@[j] != p,
        decreases s@.len() - i,
    {
        if s[i] == p {
            proof {
                assert(s@[i as int] == p);
            }
            return true;
        }
        i = i + 1;
    }
    false
}

/// Whether two strategies have the same identity, target, level and
/// passes.
pub open spec fn spec_same_strategy(a: CompilationStrategy, b: CompilationStrategy) -> bool {
    &&& a.id == b.id
    &&& a.name == b.name
    &&& a.description == b.description
    &&& a.target == b.target
    &&& a.optimization_level == b.optimization_level
    &&& a.enabled_passes@ == b.enabled_passes@
}

impl CompilationStrategy {
    /// A copy of this strategy.
    pub fn duplicate(&self) -> (r: Self)
        ensures
            spec_same_strategy(r, *self),
    {
        CompilationStrategy {
            id: self.id.duplicate(),
            name: self.name.clone(),
            description: self.description.clone(),
            target: self.target,
            optimization_level: self.optimization_level,
            enabled_passes: copy_passes(self.enabled_passes.as_slice()),
        }
    }

    /// Whether the strategy runs pass `p`.
    pub fn has_pass(&self, p: PassId) -> (b: bool)
        ensures
            b == self.enabled_passes@.contains(p),
    {
        passes_contain(self.enabled_passes.as_slice(), p)
    }

    /// Enables pass `p` after the others, unless it is enabled already.
    pub fn enable_pass(&mut self, p: PassId)
        ensures
            final(self).enabled_passes@ == with_pass(old(self).enabled_passes@, p),
            *final(self) == (CompilationStrategy { enabled_passes: final(self).enabled_passes, ..*old(self) }),
    {
        if !self.has_pass(p) {
            self.enabled_passes.push(p);
        }
    }

    /// Disables pass `p`: every occurrence of it is removed.
    pub fn disable_pass(&mut self, p: PassId)
        ensures
            final(self).enabled_passes@ == without_pass(old(self).enabled_passes@, p),
            *final(self) == (CompilationStrategy { enabled_passes: final(self).enabled_passes, ..*old(self) }),
    {
        let mut kept: Vec<PassId> = Vec::new();
        let mut i: usize = 0;
        while i < self.enabled_passes.len()
            invariant
                i <= self.enabled_passes@.len(),
                kept@ == without_pass(self.enabled_passes@.take(i as int), p),
            decreases self.enabled_passes@.len() - i,
        {
            proof {
                assert(self.enabled_passes@.take(i as int + 1).drop_last() =~= self.enabled_passes@.take(i as int));
            }
            if self.enabled_passes[i] != p {
                kept.push(self.enabled_passes[i]);
            }
            i = i + 1;
        }
        proof {
            assert(self.enabled_passes@.take(self.enabled_passes@.len() as int) =~= self.enabled_passes@);
        }
        self.enabled_passes = kept;
    }
}

proof fn lemma_push_contains(x: Seq<PassId>, a: PassId, q: PassId)
    ensures
        x.push(a).contains(q) <==> (x.contains(q) || a == q),
{
    if x.contains(q) {
        let k = choose|k: int| 0 <= k < x.len() && x[k] == q;
        assert(x.push(a)[k] == q);
    }
    if a == q {
        assert(x.push(a)[x.len() as int] == q);
    }
    if x.push(a).contains(q) {
        let k = choose|k: int| 0 <= k < x.push(a).len() && x.push(a)[k] == q;
        if k < x.len() {
            assert(x[k] == q);
        }
    }
}

/// Disabling pass `p` leaves exactly the other enabled passes enabled.
pub proof fn law_disable_pass_contents(s: Seq<PassId>, p: PassId, q: PassId)
    ensures
        without_pass(s, p).contains(q) <==> (s.contains(q) && q != p),
    decreases s.len(),
{
    if s.len() > 0 {
        let t = s.drop_last();
        let l = s.last();
        law_disable_pass_contents(t, p, q);
        assert(s =~= t.push(l));
        lemma_push_contains(t, l, q);
        if l != p {
            lemma_push_contains(without_pass(t, p), l, q);
        }
    }
}

/// Enabling pass `p` keeps the enabled passes, in order, and adds `p`.
pub proof fn law_enable_pass_contents(s: Seq<PassId>, p: PassId, q: PassId)
    ensures
        with_pass(s, p).contains(q) <==> (s.contains(q) || q == p),
        with_pass(s, p).subrange(0, s.len() as int) == s,
{
    if !s.contains(p) {
        assert(s.push(p)[s.len() as int] == p);
        assert(s.push(p).subrange(0, s.len() as int) =~= s);
        if s.contains(q) {
            let k = choose|k: int| 0 <= k < s.len() && s[k] == q;
            assert(s.push(p)[k] == q);
        }
        if s.push(p).contains(q) && q != p {
            let k = choose|k: int| 0 <= k < s.push(p).len() && s.push(p)[k] == q;
            assert(s[k] == q);
        }
    } else {
        assert(s.subrange(0, s.len() as int) =~= s);
    }
}

} // verus!
