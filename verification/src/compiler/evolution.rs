//! Strategy evolution: proposes passes to enable from profiling data.

use vstd::prelude::*;
use crate::compiler::passes::PassId;
use crate::compiler::strategy::{
    law_disable_pass_contents, law_enable_pass_contents, spec_same_strategy, with_pass, without_pass, CompilationStrategy,
};
use crate::compiler::types::ProfilingData;

verus! {

/// A proposed change to a compilation strategy.
#[derive(Clone, Debug)]
pub struct StrategyProposal {
    /// Why the change is proposed.
    pub reason: String,
    /// Passes to enable.
    pub enable_passes: Vec<PassId>,
    /// Passes to disable.
    pub disable_passes: Vec<PassId>,
}

impl StrategyProposal {
    /// Whether the proposal changes anything.
    pub fn has_changes(&self) -> (b: bool)
        ensures
            b == (self.enable_passes@.len() > 0 || self.disable_passes@.len() > 0),
    {
        self.enable_passes.len() > 0 || self.disable_passes.len() > 0
    }

    /// The strategy evolved by this proposal: its passes enabled in order,
    /// then its disabled passes removed, and the reason noted in the
    /// description.
    pub fn apply_to(&self, strategy: &CompilationStrategy) -> (r: CompilationStrategy)
        ensures
            r.enabled_passes@ == spec_evolved_passes(strategy.enabled_passes@, self.enable_passes@,
                self.disable_passes@),
            r.description@ == strategy.description@ + " (evolved: "@ + self.reason@ + ")"@,
            r.id == strategy.id,
            r.name == strategy.name,
            r.target == strategy.target,
            r.optimization_level == strategy.optimization_level,
    {
        let mut evolved = strategy.duplicate();
        let mut i: usize = 0;
        while i < self.enable_passes.len()
            invariant
                i <= self.enable_passes@.len(),
                evolved.enabled_passes@ == enable_all(strategy.enabled_passes@, self.enable_passes@.take(i as int)),
                spec_same_strategy(evolved, CompilationStrategy { enabled_passes: evolved.enabled_passes, ..*strategy }),
            decreases self.enable_passes@.len() - i,
        {
            proof {
                assert(self.enable_passes@.take(i as int + 1).drop_last() =~= self.enable_passes@.take(i as int));
            }
            evolved.enable_pass(self.enable_passes[i]);
            i = i + 1;
        }
        proof {
            assert(self.enable_passes@.take(self.enable_passes@.len() as int) =~= self.enable_passes@);
        }
        let ghost enabled = evolved.enabled_passes@;
        let mut j: usize = 0;
        while j < self.disable_passes.len()
            invariant
                j <= self.disable_passes@.len(),
                evolved.enabled_passes@ == disable_all(enabled, self.disable_passes@.take(j as int)),
                spec_same_strategy(evolved, CompilationStrategy { enabled_passes: evolved.enabled_passes, ..*strategy }),
            decreases self.disable_passes@.len() - j,
        {
            proof {
                assert(self.disable_passes@.take(j as int + 1).drop_last() =~= self.disable_passes@.take(j as int));
            }
            evolved.disable_pass(self.disable_passes[j]);
            j = j + 1;
        }
        proof {
            assert(self.disable_passes@.take(self.disable_passes@.len() as int) =~= self.disable_passes@);
        }
        let mut d = evolved.description.clone();
        d.append(" (evolved: ");
        d.append(self.reason.as_str());
        d.append(")");
        evolved.description = d;
        evolved
    }
}

/// The passes after enabling each of `en` in order.
pub open spec fn enable_all(s: Seq<PassId>, en: Seq<PassId>) -> Seq<PassId>
    decreases en.len(),
{
    if en.len() == 0 { s } else { with_pass(enable_all(s, en.drop_last()), en.last()) }
}

/// The passes after disabling each of `dis` in order.
pub open spec fn disable_all(s: Seq<PassId>, dis: Seq<PassId>) -> Seq<PassId>
    decreases dis.len(),
{
    if dis.len() == 0 { s } else { without_pass(disable_all(s, dis.drop_last()), dis.last()) }
}

/// The passes of a strategy evolved by a proposal.
pub open spec fn spec_evolved_passes(s: Seq<PassId>, en: Seq<PassId>, dis: Seq<PassId>) -> Seq<PassId> {
    disable_all(enable_all(s, en), dis)
}

proof fn lemma_enable_all_contents(s: Seq<PassId>, en: Seq<PassId>, q: PassId)
    ensures
        enable_all(s, en).contains(q) <==> (s.contains(q) || en.contains(q)),
    decreases en.len(),
{
    if en.len() > 0 {
        lemma_enable_all_contents(s, en.drop_last(), q);
        law_enable_pass_contents(enable_all(s, en.drop_last()), en.last(), q);
        if en.contains(q) && !en.drop_last().contains(q) {
            let k = choose|k: int| 0 <= k < en.len() && en[k] == q;
            if k < en.len() - 1 {
                assert(en.drop_last()[k] == q);
            }
        }
        if en.drop_last().contains(q) {
            let k = choose|k: int| 0 <= k < en.drop_last().len() && en.drop_last()[k] == q;
            assert(en[k] == q);
        }
        if q == en.last() {
            assert(en[en.len() - 1] == q);
        }
    }
}

proof fn lemma_disable_all_contents(s: Seq<PassId>, dis: Seq<PassId>, q: PassId)
    ensures
        disable_all(s, dis).contains(q) <==> (s.contains(q) && !dis.contains(q)),
    decreases dis.len(),
{
    if dis.len() > 0 {
        lemma_disable_all_contents(s, dis.drop_last(), q);
        law_disable_pass_contents(disable_all(s, dis.drop_last()), dis.last(), q);
        if dis.contains(q) && !dis.drop_last().contains(q) {
            let k = choose|k: int| 0 <= k < dis.len() && dis[k] == q;
            if k < dis.len() - 1 {
                assert(dis.drop_last()[k] == q);
            }
        }
        if dis.drop_last().contains(q) {
            let k = choose|k: int| 0 <= k < dis.drop_last().len() && dis.drop_last()[k] == q;
            assert(dis[k] == q);
        }
        if q == dis.last() {
            assert(dis[dis.len() - 1] == q);
        }
    }
}

/// An evolved strategy runs exactly the passes that it ran before or
/// that the proposal enables, less those the proposal disables.
pub proof fn law_evolved_passes(s: Seq<PassId>, en: Seq<PassId>, dis: Seq<PassId>, q: PassId)
    ensures
        spec_evolved_passes(s, en, dis).contains(q) <==> ((s.contains(q) || en.contains(q)) && !dis.contains(q)),
{
    lemma_enable_all_contents(s, en, q);
    lemma_disable_all_contents(enable_all(s, en), dis, q);
}

/// Sum of the counts of name/count entries.
pub open spec fn sum_counts(es: Seq<(String, u64)>) -> nat
    decreases es.len(),
{
    if es.len() == 0 { 0 } else { sum_counts(es.drop_last()) + es.last().1 as nat }
}

/// The evolution rules, in order: 0 high memory use (over 100 accesses)
/// enables memory-tier promotion; 1 frequent operator calls (over 50)
/// enable dispatch specialization; 2 many commitment crossings (over 20)
/// enable batching; 3 many hot functions (over 5) enable inlining. A rule
/// fires only when its pass is not enabled yet.
pub open spec fn rule_fires(k: nat, enabled: Seq<PassId>, p: ProfilingData) -> bool {
    if k == 0 {
        sum_counts(p.memory_tier_usage@) > 100 && !enabled.contains(PassId::MemoryTierPromotion)
    } else if k == 1 {
        sum_counts(p.operator_call_frequency@) > 50 && !enabled.contains(PassId::OperatorDispatchSpecialization)
    } else if k == 2 {
        p.commitment_boundary_crossings > 20 && !enabled.contains(PassId::CommitmentBatching)
    } else {
        p.hot_functions@.len() > 5 && !enabled.contains(PassId::InliningPass)
    }
}

/// The pass a rule enables.
pub open spec fn rule_pass(k: nat) -> PassId {
    if k == 0 {
        PassId::MemoryTierPromotion
    } else if k == 1 {
        PassId::OperatorDispatchSpecialization
    } else if k == 2 {
        PassId::CommitmentBatching
    } else {
        PassId::InliningPass
    }
}

/// The reason a rule gives.
pub open spec fn rule_reason(k: nat) -> Seq<char> {
    if k == 0 {
        "high memory usage"@
    } else if k == 1 {
        "frequent operator calls"@
    } else if k == 2 {
        "many commitment crossings"@
    } else {
        "many hot functions"@
    }
}

/// The rules among the first `k` that fire, in order.
pub open spec fn fired_rules(k: nat, enabled: Seq<PassId>, p: ProfilingData) -> Seq<nat>
    decreases k,
{
    if k == 0 {
        Seq::empty()
    } else if rule_fires((k - 1) as nat, enabled, p) {
        fired_rules((k - 1) as nat, enabled, p).push((k - 1) as nat)
    } else {
        fired_rules((k - 1) as nat, enabled, p)
    }
}

/// The reasons of the given rules joined by `, `.
pub open spec fn joined_reasons(rules: Seq<nat>) -> Seq<char>
    decreases rules.len(),
{
    if rules.len() == 0 {
        Seq::empty()
    } else if rules.len() == 1 {
        rule_reason(rules[0])
    } else {
        joined_reasons(rules.drop_last()) + ", "@ + rule_reason(rules.last())
    }
}

/// The proposal for a strategy with the passes `enabled` and profiling
/// data `p`: enable the passes of the rules that fire, with their
/// reasons, or no change with `no changes recommended`.
pub open spec fn spec_proposal(enabled: Seq<PassId>, p: ProfilingData, r: StrategyProposal) -> bool {
    let fired = fired_rules(4, enabled, p);
    &&& r.enable_passes@ == fired.map_values(|k: nat| rule_pass(k))
    &&& r.disable_passes@.len() == 0
    &&& r.reason@ == if fired.len() == 0 { "no changes recommended"@ } else { joined_reasons(fired) }
}

/// Proposes strategy changes from profiling data.
pub trait StrategyEvolver {
    /// The proposal for the strategy `current`. The profiling tables hold
    /// one count per name, and the counts of each table sum to a `u64`.
    fn propose(&self, current: &CompilationStrategy, profiling: &ProfilingData) -> StrategyProposal
        requires
            profiling.wf(),
            sum_counts(profiling.memory_tier_usage@) <= u64::MAX,
            sum_counts(profiling.operator_call_frequency@) <= u64::MAX,
    ;

    /// Name of the evolver.
    fn name(&self) -> &str;
}

/// The rule-based evolver.
pub struct SimulatedEvolver;

impl SimulatedEvolver {
    /// The evolver.
    pub fn new() -> Self {
        SimulatedEvolver
    }
}

impl Default for SimulatedEvolver {
    fn default() -> Self {
        SimulatedEvolver
    }
}

fn total(es: &Vec<(String, u64)>) -> (t: u128)
    ensures
        t == sum_counts(es@),
{
    let mut t: u128 = 0;
    let mut i: usize = 0;
    while i < es.len()
        invariant
            i <= es@.len(),
            t == sum_counts(es@.take(i as int)),
            t <= i * 0xffff_ffff_ffff_ffff,
        decreases es@.len() - i,
    {
        proof {
            assert(es@.take(i as int + 1).drop_last() =~= es@.take(i as int));
            assert(i * 0xffff_ffff_ffff_ffff + 0xffff_ffff_ffff_ffff == (i + 1) * 0xffff_ffff_ffff_ffff) by (nonlinear_arith);
            assert((i + 1) * 0xffff_ffff_ffff_ffff <= 0xffff_ffff_ffff_ffff * 0xffff_ffff_ffff_ffffint) by (nonlinear_arith)
                requires
                    i + 1 <= 0xffff_ffff_ffff_ffff;
        }
        t = t + es[i].1 as u128;
        i = i + 1;
    }
    proof {
        assert(es@.take(es@.len() as int) =~= es@);
    }
    t
}

fn contains_pass(v: &[PassId], p: PassId) -> (b: bool)
    ensures
        b == v@.contains(p),
{
    let mut i: usize = 0;
    while i < v.len()
        invariant
            i <= v@.len(),
            forall|j: int| 0 <= j < i ==> v@[j] != p,
        decreases v@.len() - i,
    {
        if v[i] == p {
            return true;
        }
        i = i + 1;
    }
    false
}

impl StrategyEvolver for SimulatedEvolver {
    fn propose(&self, current: &CompilationStrategy, profiling: &ProfilingData) -> (r: StrategyProposal)
        ensures
            spec_proposal(current.enabled_passes@, *profiling, r),
    {
        let enabled = current.enabled_passes.as_slice();
        let ghost p = *profiling;
        let ghost en = enabled@;
        let memory = total(&profiling.memory_tier_usage);
        let operators = total(&profiling.operator_call_frequency);
        let fires: [bool; 4] = [
            memory > 100 && !contains_pass(enabled, PassId::MemoryTierPromotion),
            operators > 50 && !contains_pass(enabled, PassId::OperatorDispatchSpecialization),
            profiling.commitment_boundary_crossings > 20 && !contains_pass(enabled, PassId::CommitmentBatching),
            profiling.hot_functions.len() > 5 && !contains_pass(enabled, PassId::InliningPass),
        ];
        let passes: [PassId; 4] = [
            PassId::MemoryTierPromotion,
            PassId::OperatorDispatchSpecialization,
            PassId::CommitmentBatching,
            PassId::InliningPass,
        ];
        let reasons: [&str; 4] = ["high memory usage", "frequent operator calls", "many commitment crossings",
            "many hot functions"];
        let mut enable: Vec<PassId> = Vec::new();
        let mut reason = String::new();
        let mut k: usize = 0;
        while k < 4
            invariant
                k <= 4,
                forall|j: int| 0 <= j < 4 ==> fires@[j] == rule_fires(j as nat, en, p),
                forall|j: int| 0 <= j < 4 ==> passes@[j] == rule_pass(j as nat),
                forall|j: int| 0 <= j < 4 ==> (#[trigger] reasons@[j])@ == rule_reason(j as nat),
                enable@ == fired_rules(k as nat, en, p).map_values(|j: nat| rule_pass(j)),
                reason@ == joined_reasons(fired_rules(k as nat, en, p)),
            decreases 4 - k,
        {
            let ghost before = fired_rules(k as nat, en, p);
            if fires[k] {
                if enable.len() > 0 {
                    reason.append(", ");
                }
                reason.append(reasons[k]);
                enable.push(passes[k]);
                proof {
                    let after = fired_rules(k as nat + 1, en, p);
                    assert(after == before.push(k as nat));
                    assert(after.drop_last() =~= before);
                    assert(enable@ =~= after.map_values(|j: nat| rule_pass(j)));
                    if before.len() == 0 {
                        assert(reason@ =~= joined_reasons(after));
                    } else {
                        assert(reason@ =~= joined_reasons(after));
                    }
                }
            }
            k = k + 1;
        }
        if enable.len() == 0 {
            reason = String::from_str("no changes recommended");
        }
        StrategyProposal { reason, enable_passes: enable, disable_passes: Vec::new() }
    }

    fn name(&self) -> (s: &str)
        ensures
            s@ == "simulated-strategy-evolver"@,
    {
        "simulated-strategy-evolver"
    }
}

} // verus!
