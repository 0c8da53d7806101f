//! Optimization passes over modules: five standard passes and six that
//! are specific to the EVOS substrate. Each pass analyses a module and
//! reports how many changes it would make.
//!
//! Commitment batching only ever batches boundaries of one commitment
//! scope, and fence minimization never removes a fence that guards an
//! invariant assertion.

use vstd::prelude::*;
use crate::compiler::error::CompilerResult;
use crate::compiler::strategy::CompilationStrategy;
use crate::compiler::ir::{spec_is_metadata, spec_total_instructions, BoundaryDirection, WlirFunction, WlirInstruction, WlirModule};
use crate::text::{decimal, decimal_string};

verus! {

/// Identifier of an optimization pass.
#[derive(Clone, Copy, Debug, PartialEq, Eq, Hash, Structural)]
pub enum PassId {
    ConstantFolding,
    DeadCodeElimination,
    CommonSubexpressionElimination,
    InliningPass,
    TailCallOptimization,
    CommitmentBatching,
    ProvenanceCoalescing,
    EventDeduplication,
    OperatorDispatchSpecialization,
    MemoryTierPromotion,
    SafetyFenceMinimization,
}

/// Display name of a pass.
pub open spec fn spec_pass_name(p: PassId) -> Seq<char> {
    match p {
        PassId::ConstantFolding => "constant-folding"@,
        PassId::DeadCodeElimination => "dead-code-elimination"@,
        PassId::CommonSubexpressionElimination => "common-subexpression-elimination"@,
        PassId::InliningPass => "inlining"@,
        PassId::TailCallOptimization => "tail-call-optimization"@,
        PassId::CommitmentBatching => "commitment-batching"@,
        PassId::ProvenanceCoalescing => "provenance-coalescing"@,
        PassId::EventDeduplication => "event-deduplication"@,
        PassId::OperatorDispatchSpecialization => "operator-dispatch-specialization"@,
        PassId::MemoryTierPromotion => "memory-tier-promotion"@,
        PassId::SafetyFenceMinimization => "safety-fence-minimization"@,
    }
}

impl PassId {
    /// Renders the pass name (`constant-folding`, ...).
    pub fn to_string(&self) -> (s: String)
        ensures
            s@ == spec_pass_name(*self),
    {
        let t = match self {
            PassId::ConstantFolding => "constant-folding",
            PassId::DeadCodeElimination => "dead-code-elimination",
            PassId::CommonSubexpressionElimination => "common-subexpression-elimination",
            PassId::InliningPass => "inlining",
            PassId::TailCallOptimization => "tail-call-optimization",
            PassId::CommitmentBatching => "commitment-batching",
            PassId::ProvenanceCoalescing => "provenance-coalescing",
            PassId::EventDeduplication => "event-deduplication",
            PassId::OperatorDispatchSpecialization => "operator-dispatch-specialization",
            PassId::MemoryTierPromotion => "memory-tier-promotion",
            PassId::SafetyFenceMinimization => "safety-fence-minimization",
        };
        String::from_str(t)
    }
}

/// Result of applying one pass.
#[derive(Clone, Debug)]
pub struct PassResult {
    pub pass_id: PassId,
    pub applied: bool,
    pub changes_made: u32,
    pub description: String,
}

/// Display form of a pass result.
pub open spec fn spec_pass_result_text(r: PassResult) -> Seq<char> {
    spec_pass_name(r.pass_id) + ": "@ + (if r.applied { "applied"@ } else { "skipped"@ }) + " ("@
        + decimal(r.changes_made as nat) + " changes) \u{2014} "@ + r.description@
}

impl PassResult {
    /// Renders the result as `<pass>: applied|skipped (<n> changes) — <description>`.
    pub fn to_string(&self) -> (s: String)
        ensures
            s@ == spec_pass_result_text(*self),
    {
        let mut s = self.pass_id.to_string();
        s.append(": ");
        s.append(if self.applied { "applied" } else { "skipped" });
        s.append(" (");
        s.append(decimal_string(self.changes_made as u64).as_str());
        s.append(" changes) \u{2014} ");
        s.append(self.description.as_str());
        s
    }
}

// ── What each pass counts in one function ───────────────────────────

/// Whether three instructions from `i` on are two constant loads and an
/// addition, subtraction or multiplication.
pub open spec fn foldable_at(s: Seq<WlirInstruction>, i: int) -> bool {
    &&& s[i] is LoadConst
    &&& s[i + 1] is LoadConst
    &&& (s[i + 2] is Add || s[i + 2] is Sub || s[i + 2] is Mul)
}

/// Number of windows of three instructions that fold.
pub open spec fn fold_count(s: Seq<WlirInstruction>) -> nat
    decreases s.len(),
{
    if s.len() < 3 {
        0
    } else {
        fold_count(s.drop_last()) + if foldable_at(s, s.len() - 3) { 1nat } else { 0nat }
    }
}

/// Whether a return occurs in `s`.
pub open spec fn has_return(s: Seq<WlirInstruction>) -> bool
    decreases s.len(),
{
    if s.len() == 0 { false } else { has_return(s.drop_last()) || s.last() is Return }
}

/// Number of instructions after the first return, not counting no-ops
/// and source locations.
pub open spec fn dead_count(s: Seq<WlirInstruction>) -> nat
    decreases s.len(),
{
    if s.len() == 0 {
        0
    } else {
        dead_count(s.drop_last()) + if has_return(s.drop_last()) && !(s.last() is Nop || s.last() is SetSourceLocation) {
            1nat
        } else {
            0nat
        }
    }
}

/// The instructions that carry more than metadata, in order.
pub open spec fn non_metadata(s: Seq<WlirInstruction>) -> Seq<WlirInstruction>
    decreases s.len(),
{
    if s.len() == 0 {
        Seq::empty()
    } else if spec_is_metadata(s.last()) {
        non_metadata(s.drop_last())
    } else {
        non_metadata(s.drop_last()).push(s.last())
    }
}

/// Whether the function ends with a call followed by a return (metadata
/// aside).
pub open spec fn has_tail_call(s: Seq<WlirInstruction>) -> bool {
    let nm = non_metadata(s);
    nm.len() >= 2 && nm[nm.len() - 1] is Return && nm[nm.len() - 2] is Call
}

/// The commitment boundary crossings, in order: scope and direction.
pub open spec fn boundaries(s: Seq<WlirInstruction>) -> Seq<(Seq<char>, BoundaryDirection)>
    decreases s.len(),
{
    if s.len() == 0 {
        Seq::empty()
    } else {
        match s.last() {
            WlirInstruction::CrossCommitmentBoundary { commitment_id, direction } =>
                boundaries(s.drop_last()).push((commitment_id@, direction)),
            _ => boundaries(s.drop_last()),
        }
    }
}

/// Whether two consecutive crossings can be batched: an exit from a scope
/// immediately followed by an entry into the same scope.
pub open spec fn batchable(a: (Seq<char>, BoundaryDirection), b: (Seq<char>, BoundaryDirection)) -> bool {
    a.0 == b.0 && a.1 == BoundaryDirection::Exit && b.1 == BoundaryDirection::Enter
}

/// Number of consecutive crossing pairs that can be batched.
pub open spec fn batch_count(b: Seq<(Seq<char>, BoundaryDirection)>) -> nat
    decreases b.len(),
{
    if b.len() < 2 {
        0
    } else {
        batch_count(b.drop_last()) + if batchable(b[b.len() - 2], b.last()) { 1nat } else { 0nat }
    }
}

/// Number of consecutive crossing pairs of different scopes.
pub open spec fn scope_change_count(b: Seq<(Seq<char>, BoundaryDirection)>) -> nat
    decreases b.len(),
{
    if b.len() < 2 {
        0
    } else {
        scope_change_count(b.drop_last()) + if b[b.len() - 2].0 != b.last().0 { 1nat } else { 0nat }
    }
}

/// The instructions a counting pass looks for: provenance records,
/// operator invocations, or memory queries and stores.
pub open spec fn counted_kind(i: WlirInstruction, p: PassId) -> bool {
    match p {
        PassId::ProvenanceCoalescing => i is RecordProvenance,
        PassId::OperatorDispatchSpecialization => i is InvokeOperator,
        PassId::MemoryTierPromotion => i is MemoryQuery || i is MemoryStore,
        _ => false,
    }
}

/// Number of instructions of the kind pass `p` looks for.
pub open spec fn count_kind(s: Seq<WlirInstruction>, p: PassId) -> nat
    decreases s.len(),
{
    if s.len() == 0 { 0 } else { count_kind(s.drop_last(), p) + if counted_kind(s.last(), p) { 1nat } else { 0nat } }
}

/// The event types emitted, in order.
pub open spec fn event_types(s: Seq<WlirInstruction>) -> Seq<Seq<char>>
    decreases s.len(),
{
    if s.len() == 0 {
        Seq::empty()
    } else {
        match s.last() {
            WlirInstruction::EmitEvent { event_type } => event_types(s.drop_last()).push(event_type@),
            _ => event_types(s.drop_last()),
        }
    }
}

/// Number of events whose type was already emitted before: the number of
/// events minus the number of distinct types.
pub open spec fn duplicate_count(e: Seq<Seq<char>>) -> nat
    decreases e.len(),
{
    if e.len() == 0 {
        0
    } else {
        duplicate_count(e.drop_last()) + if e.drop_last().contains(e.last()) { 1nat } else { 0nat }
    }
}

/// Whether the fence at `i` guards an invariant assertion (the next
/// instruction asserts one).
pub open spec fn guards_invariant(s: Seq<WlirInstruction>, i: int) -> bool {
    i + 1 < s.len() && s[i + 1] is AssertInvariant
}

/// Whether another fence stands among the two instructions before `i`.
pub open spec fn fence_nearby(s: Seq<WlirInstruction>, i: int) -> bool {
    (i >= 1 && s[i - 1] is SafetyFence) || (i >= 2 && s[i - 2] is SafetyFence)
}

/// Whether the instruction at `i` is a fence that can be removed: it
/// guards no invariant and another fence stands right before it.
pub open spec fn removable_fence(s: Seq<WlirInstruction>, i: int) -> bool {
    s[i] is SafetyFence && !guards_invariant(s, i) && fence_nearby(s, i)
}

/// Number of removable fences among the first `n` instructions.
pub open spec fn removable_count(s: Seq<WlirInstruction>, n: int) -> nat
    decreases n,
{
    if n <= 0 { 0 } else { removable_count(s, n - 1) + if removable_fence(s, n - 1) { 1nat } else { 0nat } }
}

/// Number of fences among the first `n` instructions.
pub open spec fn fence_count(s: Seq<WlirInstruction>, n: int) -> nat
    decreases n,
{
    if n <= 0 { 0 } else { fence_count(s, n - 1) + if s[n - 1] is SafetyFence { 1nat } else { 0nat } }
}

/// What pass `p` counts in one function. For common subexpressions the
/// count is the number of instructions (a tenth of the module's total is
/// reported), for memory-tier promotion the memory accesses (half of the
/// module's total is reported), for fence minimization the fences kept.
pub open spec fn function_count(f: WlirFunction, p: PassId) -> nat {
    let s = f.instructions@;
    match p {
        PassId::ConstantFolding => fold_count(s),
        PassId::DeadCodeElimination => dead_count(s),
        PassId::CommonSubexpressionElimination => s.len(),
        PassId::InliningPass => if 0 < s.len() < 5 { 1 } else { 0 },
        PassId::TailCallOptimization => if has_tail_call(s) { 1 } else { 0 },
        PassId::CommitmentBatching => batch_count(boundaries(s)),
        PassId::ProvenanceCoalescing => if count_kind(s, p) > 1 { (count_kind(s, p) - 1) as nat } else { 0 },
        PassId::EventDeduplication => duplicate_count(event_types(s)),
        PassId::OperatorDispatchSpecialization => count_kind(s, p),
        PassId::MemoryTierPromotion => count_kind(s, p),
        PassId::SafetyFenceMinimization => removable_count(s, s.len() as int),
    }
}

/// Number of fences a function keeps.
pub open spec fn preserved_fences(f: WlirFunction) -> nat {
    (fence_count(f.instructions@, f.instructions@.len() as int)
        - removable_count(f.instructions@, f.instructions@.len() as int)) as nat
}

/// Number of different-scope crossing pairs in a function.
pub open spec fn scope_changes(f: WlirFunction) -> nat {
    scope_change_count(boundaries(f.instructions@))
}

/// Sum of a per-function count over the functions: 0 the pass's count,
/// 1 the fences kept, 2 the different-scope pairs.
pub open spec fn module_count(fs: Seq<WlirFunction>, p: PassId, which: nat) -> nat
    decreases fs.len(),
{
    if fs.len() == 0 {
        0
    } else {
        module_count(fs.drop_last(), p, which) + if which == 0 {
            function_count(fs.last(), p)
        } else if which == 1 {
            preserved_fences(fs.last())
        } else {
            scope_changes(fs.last())
        }
    }
}

/// The result pass `p` reports for a module.
pub open spec fn spec_apply_pass(p: PassId, m: WlirModule, r: PassResult) -> bool {
    let fs = m.functions@;
    let n = module_count(fs, p, 0);
    &&& r.pass_id == p
    &&& match p {
        PassId::CommonSubexpressionElimination => {
            &&& r.changes_made == ((n / 10) as int) as u32
            &&& r.applied == (n / 10 > 0)
            &&& r.description@ == decimal(n / 10) + " common subexpressions eliminated"@
        },
        PassId::MemoryTierPromotion => {
            &&& r.changes_made == (n as u32) / 2
            &&& r.applied == (r.changes_made > 0)
            &&& r.description@ == decimal(r.changes_made as nat) + " memory accesses promoted to faster tier"@
        },
        _ => {
            &&& r.changes_made == n as u32
            &&& r.applied == (r.changes_made > 0)
            &&& r.description@ == match p {
                PassId::ConstantFolding => decimal(r.changes_made as nat) + " constant expressions folded"@,
                PassId::DeadCodeElimination => decimal(r.changes_made as nat) + " dead instructions eliminated"@,
                PassId::InliningPass => decimal(r.changes_made as nat) + " small functions inlined"@,
                PassId::TailCallOptimization => decimal(r.changes_made as nat) + " tail calls optimized"@,
                PassId::CommitmentBatching => decimal(r.changes_made as nat)
                    + " same-scope commitment boundaries batched, "@
                    + decimal((module_count(fs, p, 2) as u32) as nat) + " different-scope preserved"@,
                PassId::ProvenanceCoalescing => decimal(r.changes_made as nat) + " provenance records coalesced"@,
                PassId::EventDeduplication => decimal(r.changes_made as nat) + " duplicate events deduplicated"@,
                PassId::OperatorDispatchSpecialization => decimal(r.changes_made as nat)
                    + " operator dispatches specialized"@,
                _ => decimal(r.changes_made as nat) + " redundant fences minimized, "@
                    + decimal((module_count(fs, p, 1) as u32) as nat)
                    + " invariant-guarding fences preserved (I.COMPILE-2b)"@,
            }
        },
    }
}

// ── Bounds ──────────────────────────────────────────────────────────

proof fn lemma_fold_bound(s: Seq<WlirInstruction>)
    ensures
        fold_count(s) <= s.len(),
    decreases s.len(),
{
    if s.len() >= 3 {
        lemma_fold_bound(s.drop_last());
    }
}

proof fn lemma_dead_bound(s: Seq<WlirInstruction>)
    ensures
        dead_count(s) <= s.len(),
    decreases s.len(),
{
    if s.len() > 0 {
        lemma_dead_bound(s.drop_last());
    }
}

proof fn lemma_non_metadata_bound(s: Seq<WlirInstruction>)
    ensures
        non_metadata(s).len() <= s.len(),
    decreases s.len(),
{
    if s.len() > 0 {
        lemma_non_metadata_bound(s.drop_last());
    }
}

proof fn lemma_boundaries_bound(s: Seq<WlirInstruction>)
    ensures
        boundaries(s).len() <= s.len(),
    decreases s.len(),
{
    if s.len() > 0 {
        lemma_boundaries_bound(s.drop_last());
    }
}

proof fn lemma_batch_bound(b: Seq<(Seq<char>, BoundaryDirection)>)
    ensures
        batch_count(b) <= b.len(),
        scope_change_count(b) <= b.len(),
    decreases b.len(),
{
    if b.len() >= 2 {
        lemma_batch_bound(b.drop_last());
    }
}

proof fn lemma_kind_bound(s: Seq<WlirInstruction>, p: PassId)
    ensures
        count_kind(s, p) <= s.len(),
    decreases s.len(),
{
    if s.len() > 0 {
        lemma_kind_bound(s.drop_last(), p);
    }
}

proof fn lemma_events_bound(s: Seq<WlirInstruction>)
    ensures
        event_types(s).len() <= s.len(),
    decreases s.len(),
{
    if s.len() > 0 {
        lemma_events_bound(s.drop_last());
    }
}

proof fn lemma_duplicate_bound(e: Seq<Seq<char>>)
    ensures
        duplicate_count(e) <= e.len(),
    decreases e.len(),
{
    if e.len() > 0 {
        lemma_duplicate_bound(e.drop_last());
    }
}

proof fn lemma_fence_bound(s: Seq<WlirInstruction>, n: int)
    ensures
        removable_count(s, n) <= fence_count(s, n),
        n >= 0 ==> fence_count(s, n) <= n,
    decreases n,
{
    if n > 0 {
        lemma_fence_bound(s, n - 1);
    }
}

proof fn lemma_function_bound(f: WlirFunction, p: PassId)
    ensures
        function_count(f, p) <= f.instructions@.len(),
        preserved_fences(f) <= f.instructions@.len(),
        scope_changes(f) <= f.instructions@.len(),
{
    let s = f.instructions@;
    lemma_fold_bound(s);
    lemma_dead_bound(s);
    lemma_non_metadata_bound(s);
    lemma_boundaries_bound(s);
    lemma_batch_bound(boundaries(s));
    lemma_kind_bound(s, p);
    lemma_events_bound(s);
    lemma_duplicate_bound(event_types(s));
    lemma_fence_bound(s, s.len() as int);
}

proof fn lemma_module_bound(fs: Seq<WlirFunction>, p: PassId, which: nat)
    ensures
        module_count(fs, p, which) <= spec_total_instructions(fs),
    decreases fs.len(),
{
    if fs.len() > 0 {
        lemma_module_bound(fs.drop_last(), p, which);
        lemma_function_bound(fs.last(), p);
    }
}

proof fn lemma_take_next<T>(s: Seq<T>, i: int)
    requires
        0 <= i < s.len(),
    ensures
        s.take(i + 1).drop_last() == s.take(i),
        s.take(i + 1).last() == s[i],
{
    assert(s.take(i + 1).drop_last() =~= s.take(i));
}

// ── Counting in one function ────────────────────────────────────────

fn is_load_const(i: &WlirInstruction) -> (b: bool)
    ensures
        b == (*i is LoadConst),
{
    match i {
        WlirInstruction::LoadConst => true,
        _ => false,
    }
}

fn is_arith(i: &WlirInstruction) -> (b: bool)
    ensures
        b == (*i is Add || *i is Sub || *i is Mul),
{
    match i {
        WlirInstruction::Add => true,
        WlirInstruction::Sub => true,
        WlirInstruction::Mul => true,
        _ => false,
    }
}

fn count_folds(s: &Vec<WlirInstruction>) -> (n: usize)
    ensures
        n == fold_count(s@),
{
    if s.len() < 3 {
        return 0;
    }
    let mut n: usize = 0;
    let mut i: usize = 0;
    while i < s.len() - 2
        invariant
            s@.len() >= 3,
            i + 2 <= s@.len(),
            n == fold_count(s@.take(i as int + 2)),
        decreases s@.len() - i,
    {
        let ghost t = s@.take(i as int + 3);
        proof {
            assert(t.drop_last() =~= s@.take(i as int + 2));
            lemma_fold_bound(s@.take(i as int + 2));
            assert(foldable_at(t, i as int) == foldable_at(s@, i as int));
        }
        if is_load_const(&s[i]) && is_load_const(&s[i + 1]) && is_arith(&s[i + 2]) {
            n = n + 1;
        }
        i = i + 1;
    }
    proof {
        assert(s@.take(s@.len() as int) =~= s@);
    }
    n
}

fn count_dead(s: &Vec<WlirInstruction>) -> (n: usize)
    ensures
        n == dead_count(s@),
{
    let mut n: usize = 0;
    let mut after = false;
    let mut i: usize = 0;
    while i < s.len()
        invariant
            i <= s@.len(),
            n == dead_count(s@.take(i as int)),
            after == has_return(s@.take(i as int)),
        decreases s@.len() - i,
    {
        proof {
            lemma_take_next(s@, i as int);
            lemma_dead_bound(s@.take(i as int));
        }
        let skip = match &s[i] {
            WlirInstruction::Nop => true,
            WlirInstruction::SetSourceLocation => true,
            _ => false,
        };
        if after && !skip {
            n = n + 1;
        }
        match &s[i] {
            WlirInstruction::Return => { after = true; },
            _ => {},
        }
        i = i + 1;
    }
    proof {
        assert(s@.take(s@.len() as int) =~= s@);
    }
    n
}

fn tail_call(s: &Vec<WlirInstruction>) -> (b: bool)
    ensures
        b == has_tail_call(s@),
{
    let mut k: usize = 0;
    let mut last_return = false;
    let mut last_call = false;
    let mut second_call = false;
    let mut i: usize = 0;
    while i < s.len()
        invariant
            i <= s@.len(),
            k <= 2,
            ({
                let nm = non_metadata(s@.take(i as int));
                &&& k == if nm.len() >= 2 { 2 } else { nm.len() }
                &&& nm.len() >= 1 ==> (last_return == (nm[nm.len() - 1] is Return) && last_call == (nm[nm.len() - 1] is Call))
                &&& nm.len() >= 2 ==> second_call == (nm[nm.len() - 2] is Call)
            }),
        decreases s@.len() - i,
    {
        proof {
            lemma_take_next(s@, i as int);
        }
        if !s[i].is_metadata() {
            let is_ret = match &s[i] {
                WlirInstruction::Return => true,
                _ => false,
            };
            let is_call = match &s[i] {
                WlirInstruction::Call => true,
                _ => false,
            };
            second_call = last_call;
            last_return = is_ret;
            last_call = is_call;
            if k < 2 {
                k = k + 1;
            }
        }
        i = i + 1;
    }
    proof {
        assert(s@.take(s@.len() as int) =~= s@);
    }
    k >= 2 && last_return && second_call
}

fn count_batches(s: &Vec<WlirInstruction>) -> (r: (usize, usize))
    ensures
        r.0 == batch_count(boundaries(s@)),
        r.1 == scope_change_count(boundaries(s@)),
{
    let mut n: usize = 0;
    let mut d: usize = 0;
    let mut prev: Option<(String, BoundaryDirection)> = None;
    let mut i: usize = 0;
    while i < s.len()
        invariant
            i <= s@.len(),
            ({
                let bs = boundaries(s@.take(i as int));
                &&& n == batch_count(bs)
                &&& d == scope_change_count(bs)
                &&& (prev is None <==> bs.len() == 0)
                &&& prev matches Some(q) ==> q.0@ == bs.last().0 && q.1 == bs.last().1
                &&& bs.len() <= i
            }),
        decreases s@.len() - i,
    {
        proof {
            lemma_take_next(s@, i as int);
            lemma_batch_bound(boundaries(s@.take(i as int)));
        }
        let ghost bs = boundaries(s@.take(i as int));
        let ghost nb = boundaries(s@.take(i as int + 1));
        match &s[i] {
            WlirInstruction::CrossCommitmentBoundary { commitment_id, direction } => {
                proof {
                    assert(nb == bs.push((commitment_id@, *direction)));
                    assert(nb.drop_last() =~= bs);
                    if bs.len() >= 1 {
                        assert(nb[nb.len() - 2] == bs.last());
                    }
                }
                match &prev {
                    Some(q) => {
                        let same = q.0 == *commitment_id;
                        let exit_then_enter = match (q.1, *direction) {
                            (BoundaryDirection::Exit, BoundaryDirection::Enter) => true,
                            _ => false,
                        };
                        if same && exit_then_enter {
                            n = n + 1;
                        }
                        if !same {
                            d = d + 1;
                        }
                    },
                    None => {},
                }
                prev = Some((commitment_id.clone(), *direction));
            },
            _ => {
                assert(nb == bs);
            },
        }
        i = i + 1;
    }
    proof {
        assert(s@.take(s@.len() as int) =~= s@);
    }
    (n, d)
}

fn kind_matches(i: &WlirInstruction, p: PassId) -> (b: bool)
    ensures
        b == counted_kind(*i, p),
{
    match p {
        PassId::ProvenanceCoalescing => match i {
            WlirInstruction::RecordProvenance => true,
            _ => false,
        },
        PassId::OperatorDispatchSpecialization => match i {
            WlirInstruction::InvokeOperator => true,
            _ => false,
        },
        PassId::MemoryTierPromotion => match i {
            WlirInstruction::MemoryQuery => true,
            WlirInstruction::MemoryStore => true,
            _ => false,
        },
        _ => false,
    }
}

fn count_kinds(s: &Vec<WlirInstruction>, p: PassId) -> (n: usize)
    ensures
        n == count_kind(s@, p),
{
    let mut n: usize = 0;
    let mut i: usize = 0;
    while i < s.len()
        invariant
            i <= s@.len(),
            n == count_kind(s@.take(i as int), p),
        decreases s@.len() - i,
    {
        proof {
            lemma_take_next(s@, i as int);
            lemma_kind_bound(s@.take(i as int), p);
        }
        if kind_matches(&s[i], p) {
            n = n + 1;
        }
        i = i + 1;
    }
    proof {
        assert(s@.take(s@.len() as int) =~= s@);
    }
    n
}

fn seen_before(seen: &Vec<String>, x: &String) -> (b: bool)
    ensures
        b == (exists|k: int| 0 <= k < seen@.len() && (#[trigger] seen@[k])@ == x@),
{
    let mut k: usize = 0;
    while k < seen.len()
        invariant
            k <= seen@.len(),
            forall|j: int| 0 <= j < k ==> (#[trigger] seen@[j])@ != x@,
        decreases seen@.len() - k,
    {
        if seen[k] == *x {
            return true;
        }
        k = k + 1;
    }
    false
}

fn count_duplicates(s: &Vec<WlirInstruction>) -> (n: usize)
    ensures
        n == duplicate_count(event_types(s@)),
{
    let mut seen: Vec<String> = Vec::new();
    let mut n: usize = 0;
    let mut i: usize = 0;
    while i < s.len()
        invariant
            i <= s@.len(),
            ({
                let e = event_types(s@.take(i as int));
                &&& seen@.len() == e.len()
                &&& forall|k: int| 0 <= k < e.len() ==> (#[trigger] seen@[k])@ == e[k]
                &&& n == duplicate_count(e)
                &&& e.len() <= i
            }),
        decreases s@.len() - i,
    {
        proof {
            lemma_take_next(s@, i as int);
            lemma_events_bound(s@.take(i as int));
            lemma_duplicate_bound(event_types(s@.take(i as int)));
        }
        match &s[i] {
            WlirInstruction::EmitEvent { event_type } => {
                let ghost e = event_types(s@.take(i as int));
                let dup = seen_before(&seen, event_type);
                proof {
                    if dup {
                        let k = choose|k: int| 0 <= k < seen@.len() && (#[trigger] seen@[k])@ == event_type@;
                        assert(e[k] == event_type@);
                        assert(e.contains(event_type@));
                    } else {
                        assert forall|k: int| 0 <= k < e.len() implies e[k] != event_type@ by {
                            assert(seen@[k]@ == e[k]);
                        }
                    }
                }
                if dup {
                    n = n + 1;
                }
                seen.push(event_type.clone());
                proof {
                    let e2 = event_types(s@.take(i as int + 1));
                    assert(e2 == e.push(event_type@));
                    assert(e2.drop_last() =~= e);
                    assert forall|k: int| 0 <= k < e2.len() implies (#[trigger] seen@[k])@ == e2[k] by {
                        if k < e.len() {
                            assert(seen@[k]@ == e[k]);
                        }
                    }
                }
            },
            _ => {},
        }
        i = i + 1;
    }
    proof {
        assert(s@.take(s@.len() as int) =~= s@);
    }
    n
}

fn count_fences(s: &Vec<WlirInstruction>) -> (r: (usize, usize))
    ensures
        r.0 == removable_count(s@, s@.len() as int),
        r.1 == fence_count(s@, s@.len() as int) - removable_count(s@, s@.len() as int),
{
    let mut removable: usize = 0;
    let mut fences: usize = 0;
    let mut i: usize = 0;
    while i < s.len()
        invariant
            i <= s@.len(),
            removable == removable_count(s@, i as int),
            fences == fence_count(s@, i as int),
        decreases s@.len() - i,
    {
        proof {
            lemma_fence_bound(s@, i as int);
        }
        match &s[i] {
            WlirInstruction::SafetyFence => {
                fences = fences + 1;
                let guards = i + 1 < s.len() && match &s[i + 1] {
                    WlirInstruction::AssertInvariant => true,
                    _ => false,
                };
                let nearby = (i >= 1 && match &s[i - 1] {
                    WlirInstruction::SafetyFence => true,
                    _ => false,
                }) || (i >= 2 && match &s[i - 2] {
                    WlirInstruction::SafetyFence => true,
                    _ => false,
                });
                if !guards && nearby {
                    removable = removable + 1;
                }
            },
            _ => {},
        }
        i = i + 1;
    }
    proof {
        lemma_fence_bound(s@, s@.len() as int);
    }
    (removable, fences - removable)
}

/// What pass `p` counts in one function.
fn count_in_function(f: &WlirFunction, p: PassId) -> (n: usize)
    ensures
        n == function_count(*f, p),
{
    let s = &f.instructions;
    match p {
        PassId::ConstantFolding => count_folds(s),
        PassId::DeadCodeElimination => count_dead(s),
        PassId::CommonSubexpressionElimination => s.len(),
        PassId::InliningPass => if 0 < s.len() && s.len() < 5 { 1 } else { 0 },
        PassId::TailCallOptimization => if tail_call(s) { 1 } else { 0 },
        PassId::CommitmentBatching => count_batches(s).0,
        PassId::ProvenanceCoalescing => {
            let c = count_kinds(s, p);
            if c > 1 { c - 1 } else { 0 }
        },
        PassId::EventDeduplication => count_duplicates(s),
        PassId::OperatorDispatchSpecialization => count_kinds(s, p),
        PassId::MemoryTierPromotion => count_kinds(s, p),
        PassId::SafetyFenceMinimization => count_fences(s).0,
    }
}

/// Sum over the module's functions of a per-function count (see
/// `module_count`).
fn count_in_module(m: &WlirModule, p: PassId, which: u8) -> (n: usize)
    requires
        spec_total_instructions(m.functions@) <= usize::MAX,
        which <= 2,
    ensures
        n == module_count(m.functions@, p, which as nat),
{
    let mut n: usize = 0;
    let mut i: usize = 0;
    while i < m.functions.len()
        invariant
            i <= m.functions@.len(),
            which <= 2,
            spec_total_instructions(m.functions@) <= usize::MAX,
            n == module_count(m.functions@.take(i as int), p, which as nat),
        decreases m.functions@.len() - i,
    {
        let ghost fs = m.functions@;
        proof {
            lemma_take_next(fs, i as int);
            lemma_module_bound(fs.take(i as int + 1), p, which as nat);
            lemma_total_prefix_passes(fs, i as int + 1);
        }
        let f = &m.functions[i];
        let c = if which == 0 {
            count_in_function(f, p)
        } else if which == 1 {
            count_fences(&f.instructions).1
        } else {
            count_batches(&f.instructions).1
        };
        n = n + c;
        i = i + 1;
    }
    proof {
        assert(m.functions@.take(m.functions@.len() as int) =~= m.functions@);
    }
    n
}

proof fn lemma_total_prefix_passes(fs: Seq<WlirFunction>, i: int)
    requires
        0 <= i <= fs.len(),
    ensures
        spec_total_instructions(fs.take(i)) <= spec_total_instructions(fs),
    decreases fs.len() - i,
{
    if i < fs.len() {
        lemma_total_prefix_passes(fs, i + 1);
        assert(fs.take(i + 1).drop_last() =~= fs.take(i));
    } else {
        assert(fs.take(i) =~= fs);
    }
}

/// Applies pass `p` to a module.
pub fn apply_pass(p: PassId, module: &WlirModule) -> (r: PassResult)
    requires
        spec_total_instructions(module.functions@) <= usize::MAX,
    ensures
        spec_apply_pass(p, *module, r),
{
    let n = count_in_module(module, p, 0);
    match p {
        PassId::CommonSubexpressionElimination => {
            let c = n / 10;
            let mut d = decimal_string(c as u64);
            d.append(" common subexpressions eliminated");
            PassResult { pass_id: p, applied: c > 0, changes_made: c as u32, description: d }
        },
        PassId::MemoryTierPromotion => {
            let c = (n as u32) / 2;
            let mut d = decimal_string(c as u64);
            d.append(" memory accesses promoted to faster tier");
            PassResult { pass_id: p, applied: c > 0, changes_made: c, description: d }
        },
        _ => {
            let c = n as u32;
            let mut d = decimal_string(c as u64);
            match p {
                PassId::ConstantFolding => { d.append(" constant expressions folded"); },
                PassId::DeadCodeElimination => { d.append(" dead instructions eliminated"); },
                PassId::InliningPass => { d.append(" small functions inlined"); },
                PassId::TailCallOptimization => { d.append(" tail calls optimized"); },
                PassId::CommitmentBatching => {
                    let different = count_in_module(module, p, 2) as u32;
                    d.append(" same-scope commitment boundaries batched, ");
                    d.append(decimal_string(different as u64).as_str());
                    d.append(" different-scope preserved");
                },
                PassId::ProvenanceCoalescing => { d.append(" provenance records coalesced"); },
                PassId::EventDeduplication => { d.append(" duplicate events deduplicated"); },
                PassId::OperatorDispatchSpecialization => { d.append(" operator dispatches specialized"); },
                _ => {
                    let preserved = count_in_module(module, p, 1) as u32;
                    d.append(" redundant fences minimized, ");
                    d.append(decimal_string(preserved as u64).as_str());
                    d.append(" invariant-guarding fences preserved (I.COMPILE-2b)");
                },
            }
            PassResult { pass_id: p, applied: c > 0, changes_made: c, description: d }
        },
    }
}

// ── Passes ──────────────────────────────────────────────────────────

/// An optimization pass over modules.
pub trait OptimizationPass {
    /// The pass's identifier.
    fn pass_id(&self) -> PassId;

    /// Applies the pass to a module whose instructions fit in memory.
    fn apply(&self, module: &WlirModule) -> CompilerResult<PassResult>
        requires
            spec_total_instructions(module.functions@) <= usize::MAX,
    ;
}

/// Folds constant arithmetic.
pub struct ConstantFoldingPass;
/// Eliminates code after a return.
pub struct DeadCodeEliminationPass;
/// Eliminates common subexpressions.
pub struct CommonSubexpressionEliminationPass;
/// Inlines small functions.
pub struct InliningPass;
/// Turns tail calls into jumps.
pub struct TailCallOptimizationPass;
/// Batches consecutive boundaries of one commitment scope.
pub struct CommitmentBatchingPass;
/// Coalesces provenance records.
pub struct ProvenanceCoalescingPass;
/// Deduplicates emitted events.
pub struct EventDeduplicationPass;
/// Specializes operator dispatch.
pub struct OperatorDispatchSpecializationPass;
/// Promotes memory accesses to faster tiers.
pub struct MemoryTierPromotionPass;
/// Removes redundant safety fences.
pub struct SafetyFenceMinimizationPass;

impl OptimizationPass for ConstantFoldingPass {
    fn pass_id(&self) -> (p: PassId) ensures p == PassId::ConstantFolding, { PassId::ConstantFolding }

    fn apply(&self, module: &WlirModule) -> (r: CompilerResult<PassResult>)
        ensures r matches Ok(x) && spec_apply_pass(PassId::ConstantFolding, *module, x),
    {
        Ok(apply_pass(PassId::ConstantFolding, module))
    }
}

impl OptimizationPass for DeadCodeEliminationPass {
    fn pass_id(&self) -> (p: PassId) ensures p == PassId::DeadCodeElimination, { PassId::DeadCodeElimination }

    fn apply(&self, module: &WlirModule) -> (r: CompilerResult<PassResult>)
        ensures r matches Ok(x) && spec_apply_pass(PassId::DeadCodeElimination, *module, x),
    {
        Ok(apply_pass(PassId::DeadCodeElimination, module))
    }
}

impl OptimizationPass for CommonSubexpressionEliminationPass {
    fn pass_id(&self) -> (p: PassId) ensures p == PassId::CommonSubexpressionElimination, {
        PassId::CommonSubexpressionElimination
    }

    fn apply(&self, module: &WlirModule) -> (r: CompilerResult<PassResult>)
        ensures r matches Ok(x) && spec_apply_pass(PassId::CommonSubexpressionElimination, *module, x),
    {
        Ok(apply_pass(PassId::CommonSubexpressionElimination, module))
    }
}

impl OptimizationPass for InliningPass {
    fn pass_id(&self) -> (p: PassId) ensures p == PassId::InliningPass, { PassId::InliningPass }

    fn apply(&self, module: &WlirModule) -> (r: CompilerResult<PassResult>)
        ensures r matches Ok(x) && spec_apply_pass(PassId::InliningPass, *module, x),
    {
        Ok(apply_pass(PassId::InliningPass, module))
    }
}

impl OptimizationPass for TailCallOptimizationPass {
    fn pass_id(&self) -> (p: PassId) ensures p == PassId::TailCallOptimization, { PassId::TailCallOptimization }

    fn apply(&self, module: &WlirModule) -> (r: CompilerResult<PassResult>)
        ensures r matches Ok(x) && spec_apply_pass(PassId::TailCallOptimization, *module, x),
    {
        Ok(apply_pass(PassId::TailCallOptimization, module))
    }
}

impl OptimizationPass for CommitmentBatchingPass {
    fn pass_id(&self) -> (p: PassId) ensures p == PassId::CommitmentBatching, { PassId::CommitmentBatching }

    fn apply(&self, module: &WlirModule) -> (r: CompilerResult<PassResult>)
        ensures r matches Ok(x) && spec_apply_pass(PassId::CommitmentBatching, *module, x),
    {
        Ok(apply_pass(PassId::CommitmentBatching, module))
    }
}

impl OptimizationPass for ProvenanceCoalescingPass {
    fn pass_id(&self) -> (p: PassId) ensures p == PassId::ProvenanceCoalescing, { PassId::ProvenanceCoalescing }

    fn apply(&self, module: &WlirModule) -> (r: CompilerResult<PassResult>)
        ensures r matches Ok(x) && spec_apply_pass(PassId::ProvenanceCoalescing, *module, x),
    {
        Ok(apply_pass(PassId::ProvenanceCoalescing, module))
    }
}

impl OptimizationPass for EventDeduplicationPass {
    fn pass_id(&self) -> (p: PassId) ensures p == PassId::EventDeduplication, { PassId::EventDeduplication }

    fn apply(&self, module: &WlirModule) -> (r: CompilerResult<PassResult>)
        ensures r matches Ok(x) && spec_apply_pass(PassId::EventDeduplication, *module, x),
    {
        Ok(apply_pass(PassId::EventDeduplication, module))
    }
}

impl OptimizationPass for OperatorDispatchSpecializationPass {
    fn pass_id(&self) -> (p: PassId) ensures p == PassId::OperatorDispatchSpecialization, {
        PassId::OperatorDispatchSpecialization
    }

    fn apply(&self, module: &WlirModule) -> (r: CompilerResult<PassResult>)
        ensures r matches Ok(x) && spec_apply_pass(PassId::OperatorDispatchSpecialization, *module, x),
    {
        Ok(apply_pass(PassId::OperatorDispatchSpecialization, module))
    }
}

impl OptimizationPass for MemoryTierPromotionPass {
    fn pass_id(&self) -> (p: PassId) ensures p == PassId::MemoryTierPromotion, { PassId::MemoryTierPromotion }

    fn apply(&self, module: &WlirModule) -> (r: CompilerResult<PassResult>)
        ensures r matches Ok(x) && spec_apply_pass(PassId::MemoryTierPromotion, *module, x),
    {
        Ok(apply_pass(PassId::MemoryTierPromotion, module))
    }
}

impl OptimizationPass for SafetyFenceMinimizationPass {
    fn pass_id(&self) -> (p: PassId) ensures p == PassId::SafetyFenceMinimization, { PassId::SafetyFenceMinimization }

    fn apply(&self, module: &WlirModule) -> (r: CompilerResult<PassResult>)
        ensures r matches Ok(x) && spec_apply_pass(PassId::SafetyFenceMinimization, *module, x),
    {
        Ok(apply_pass(PassId::SafetyFenceMinimization, module))
    }
}

// ── Pipeline ────────────────────────────────────────────────────────

/// A sequence of passes applied in order.
pub struct OptimizationPipeline {
    passes: Vec<PassId>,
}

impl OptimizationPipeline {
    /// The passes of the pipeline, in order.
    pub closed spec fn pass_ids(&self) -> Seq<PassId> {
        self.passes@
    }

    /// An empty pipeline.
    pub fn new() -> (p: Self)
        ensures
            p.pass_ids().len() == 0,
    {
        OptimizationPipeline { passes: Vec::new() }
    }

    /// The pipeline of the given passes, in the given order.
    pub fn from_passes(passes: &[PassId]) -> (p: Self)
        ensures
            p.pass_ids() == passes@,
    {
        let mut v: Vec<PassId> = Vec::new();
        let mut i: usize = 0;
        while i < passes.len()
            invariant
                i <= passes@.len(),
                v@ == passes@.take(i as int),
            decreases passes@.len() - i,
        {
            v.push(passes[i]);
            proof {
                assert(v@ =~= passes@.take(i as int + 1));
            }
            i = i + 1;
        }
        proof {
            assert(passes@.take(passes@.len() as int) =~= passes@);
        }
        OptimizationPipeline { passes: v }
    }

    /// The pipeline of a strategy's enabled passes, in their order.
    pub fn from_strategy(strategy: &CompilationStrategy) -> (p: Self)
        ensures
            p.pass_ids() == strategy.enabled_passes@,
    {
        Self::from_passes(strategy.enabled_passes.as_slice())
    }

    /// Appends a pass.
    pub fn add_pass(&mut self, p: PassId)
        ensures
            final(self).pass_ids() == old(self).pass_ids().push(p),
    {
        self.passes.push(p);
    }

    /// Applies every pass in order.
    pub fn apply_all(&self, module: &WlirModule) -> (r: CompilerResult<Vec<PassResult>>)
        requires
            spec_total_instructions(module.functions@) <= usize::MAX,
        ensures
            r matches Ok(v) && v@.len() == self.pass_ids().len()
                && forall|k: int| 0 <= k < v@.len() ==> spec_apply_pass(self.pass_ids()[k], *module, #[trigger] v@[k]),
    {
        let mut v: Vec<PassResult> = Vec::new();
        let mut i: usize = 0;
        while i < self.passes.len()
            invariant
                i <= self.passes@.len(),
                spec_total_instructions(module.functions@) <= usize::MAX,
                v@.len() == i,
                forall|k: int| 0 <= k < i ==> spec_apply_pass(self.passes@[k], *module, #[trigger] v@[k]),
            decreases self.passes@.len() - i,
        {
            v.push(apply_pass(self.passes[i], module));
            i = i + 1;
        }
        Ok(v)
    }

    /// Number of passes.
    pub fn len(&self) -> (n: usize)
        ensures
            n == self.pass_ids().len(),
    {
        self.passes.len()
    }

    /// Whether the pipeline has no pass.
    pub fn is_empty(&self) -> (b: bool)
        ensures
            b == (self.pass_ids().len() == 0),
    {
        self.passes.len() == 0
    }
}

impl Default for OptimizationPipeline {
    fn default() -> (p: Self)
        ensures
            p.pass_ids().len() == 0,
    {
        OptimizationPipeline { passes: Vec::new() }
    }
}

// ── Laws ────────────────────────────────────────────────────────────

/// Commitment batching never merges different scopes: every pair it
/// batches is a pair of one scope, so batched pairs and different-scope
/// pairs never overlap and together number at most the consecutive pairs.
pub proof fn law_batching_never_merges_scopes(b: Seq<(Seq<char>, BoundaryDirection)>)
    ensures
        batch_count(b) + scope_change_count(b) <= if b.len() >= 1 { (b.len() - 1) as nat } else { 0 },
        forall|k: int| 1 <= k < b.len() && #[trigger] batchable(b[k - 1], b[k]) ==> b[k - 1].0 == b[k].0,
    decreases b.len(),
{
    if b.len() >= 2 {
        law_batching_never_merges_scopes(b.drop_last());
    }
}

/// Fence minimization never removes a fence that guards an invariant
/// assertion, and every fence is either removed or kept.
pub proof fn law_fences_guarding_invariants_kept(s: Seq<WlirInstruction>)
    ensures
        forall|i: int| 0 <= i < s.len() && #[trigger] guards_invariant(s, i) ==> !removable_fence(s, i),
        removable_count(s, s.len() as int) <= fence_count(s, s.len() as int),
{
    lemma_fence_bound(s, s.len() as int);
}

/// The number of duplicate events is the number of events minus the
/// number of distinct event types.
pub proof fn law_duplicates_are_events_minus_distinct(e: Seq<Seq<char>>)
    ensures
        duplicate_count(e) + e.to_set().len() == e.len(),
    decreases e.len(),
{
    broadcast use vstd::seq_lib::group_seq_properties;
    broadcast use vstd::set::group_set_axioms;
    if e.len() == 0 {
        assert(e.to_set() =~= Set::<Seq<char>>::empty());
    } else {
        let t = e.drop_last();
        law_duplicates_are_events_minus_distinct(t);
        assert(t.push(e.last()) =~= e);
        t.lemma_push_to_set_commute(e.last());
        vstd::seq_lib::seq_to_set_is_finite(t);
        if t.contains(e.last()) {
            assert(t.to_set().contains(e.last()));
            assert(t.to_set().insert(e.last()) =~= t.to_set());
        } else {
            assert(!t.to_set().contains(e.last()));
        }
    }
}


/// Appending an instruction adds one folded expression exactly when it is
/// an addition, subtraction or multiplication that follows two constant
/// loads; any other instruction leaves the count unchanged. An empty body
/// folds nothing.
pub proof fn law_folding_counts_arithmetic_after_two_constants(s: Seq<WlirInstruction>, x: WlirInstruction)
    ensures
        fold_count(Seq::<WlirInstruction>::empty()) == 0,
        fold_count(s.push(x)) == fold_count(s) + if s.len() >= 2 && s[s.len() - 2] is LoadConst
            && s[s.len() - 1] is LoadConst && (x is Add || x is Sub || x is Mul) { 1nat } else { 0nat },
{
    assert(s.push(x).drop_last() =~= s);
}

proof fn lemma_one_function_module(m: WlirModule, p: PassId)
    requires
        m.functions@.len() == 1,
    ensures
        module_count(m.functions@, p, 0) == function_count(m.functions@[0], p),
{
    let fs = m.functions@;
    assert(fs.drop_last().len() == 0);
    assert(module_count(fs.drop_last(), p, 0) == 0);
    assert(fs.last() == fs[0]);
}

/// Constant folding on a one-function module: appending two constant loads
/// and an addition, subtraction or multiplication to the function makes the
/// pass report exactly one more folded expression, and the pass applies.
pub proof fn law_folding_pass_counts_each_window(
    m: WlirModule,
    r: PassResult,
    m2: WlirModule,
    r2: PassResult,
    op: WlirInstruction,
)
    requires
        m.functions@.len() == 1,
        m2.functions@.len() == 1,
        m2.functions@[0].instructions@ == m.functions@[0].instructions@
            + seq![WlirInstruction::LoadConst, WlirInstruction::LoadConst, op],
        op is Add || op is Sub || op is Mul,
        m.functions@[0].instructions@.len() + 3 <= u32::MAX,
        spec_apply_pass(PassId::ConstantFolding, m, r),
        spec_apply_pass(PassId::ConstantFolding, m2, r2),
    ensures
        r2.changes_made == r.changes_made + 1,
        r2.applied,
{
    let s = m.functions@[0].instructions@;
    let a = s.push(WlirInstruction::LoadConst);
    let b = a.push(WlirInstruction::LoadConst);
    assert(m2.functions@[0].instructions@ =~= b.push(op));
    law_folding_counts_arithmetic_after_two_constants(s, WlirInstruction::LoadConst);
    law_folding_counts_arithmetic_after_two_constants(a, WlirInstruction::LoadConst);
    law_folding_counts_arithmetic_after_two_constants(b, op);
    lemma_fold_bound(s);
    lemma_one_function_module(m, PassId::ConstantFolding);
    lemma_one_function_module(m2, PassId::ConstantFolding);
}

/// Constant folding on a one-function module whose body is two constant
/// loads and an addition, subtraction or multiplication reports one folded
/// expression, says so, and applies.
pub proof fn law_folding_pass_folds_a_lone_window(m: WlirModule, r: PassResult, op: WlirInstruction)
    requires
        m.functions@.len() == 1,
        m.functions@[0].instructions@ == seq![WlirInstruction::LoadConst, WlirInstruction::LoadConst, op],
        op is Add || op is Sub || op is Mul,
        spec_apply_pass(PassId::ConstantFolding, m, r),
    ensures
        r.changes_made == 1,
        r.applied,
        r.description@ == "1 constant expressions folded"@,
{
    let e = Seq::<WlirInstruction>::empty();
    let a = e.push(WlirInstruction::LoadConst);
    let b = a.push(WlirInstruction::LoadConst);
    assert(m.functions@[0].instructions@ =~= b.push(op));
    law_folding_counts_arithmetic_after_two_constants(e, WlirInstruction::LoadConst);
    law_folding_counts_arithmetic_after_two_constants(a, WlirInstruction::LoadConst);
    law_folding_counts_arithmetic_after_two_constants(b, op);
    lemma_one_function_module(m, PassId::ConstantFolding);
    reveal_strlit("1 constant expressions folded");
    reveal_strlit(" constant expressions folded");
    assert(decimal(1) =~= seq!['1']);
    assert(r.description@ =~= "1 constant expressions folded"@);
}

} // verus!
