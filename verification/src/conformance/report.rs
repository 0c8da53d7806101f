//! Conformance reports: results grouped by category with their counts.

use vstd::prelude::*;
use crate::conformance::types::{
    spec_all_categories, spec_category_label, spec_result_text, ConformanceSummary, InvariantCategory, InvariantResult,
};
use crate::text::{decimal, decimal_string};

verus! {

/// Timing of one invariant check.
#[derive(Clone, Debug)]
pub struct BenchmarkResult {
    pub invariant_id: String,
    pub category: InvariantCategory,
    pub elapsed_us: u64,
    pub passed: bool,
    pub measured_at: i64,
}

/// Results of one category.
#[derive(Clone, Debug)]
pub struct CategoryReport {
    pub category: InvariantCategory,
    pub results: Vec<InvariantResult>,
    pub passed: usize,
    pub failed: usize,
}

/// Number of passed results.
pub open spec fn count_passed(rs: Seq<InvariantResult>) -> nat
    decreases rs.len(),
{
    if rs.len() == 0 { 0 } else { count_passed(rs.drop_last()) + if rs.last().passed { 1nat } else { 0nat } }
}

/// The results of a category, in order.
pub open spec fn results_in(rs: Seq<InvariantResult>, cat: InvariantCategory) -> Seq<InvariantResult>
    decreases rs.len(),
{
    if rs.len() == 0 {
        Seq::empty()
    } else if rs.last().category == cat {
        results_in(rs.drop_last(), cat).push(rs.last())
    } else {
        results_in(rs.drop_last(), cat)
    }
}

/// The failed results, in order.
pub open spec fn failed_results(rs: Seq<InvariantResult>) -> Seq<InvariantResult>
    decreases rs.len(),
{
    if rs.len() == 0 {
        Seq::empty()
    } else if !rs.last().passed {
        failed_results(rs.drop_last()).push(rs.last())
    } else {
        failed_results(rs.drop_last())
    }
}

proof fn lemma_count_passed_bound(rs: Seq<InvariantResult>)
    ensures
        count_passed(rs) <= rs.len(),
    decreases rs.len(),
{
    if rs.len() > 0 {
        lemma_count_passed_bound(rs.drop_last());
    }
}

fn passed_count(rs: &Vec<InvariantResult>) -> (n: usize)
    ensures
        n == count_passed(rs@),
        n <= rs@.len(),
{
    let mut n: usize = 0;
    let mut i: usize = 0;
    while i < rs.len()
        invariant
            i <= rs@.len(),
            n == count_passed(rs@.take(i as int)),
            n <= i,
        decreases rs@.len() - i,
    {
        proof {
            assert(rs@.take(i as int + 1).drop_last() =~= rs@.take(i as int));
        }
        if rs[i].passed {
            n = n + 1;
        }
        i = i + 1;
    }
    proof {
        assert(rs@.take(rs@.len() as int) =~= rs@);
    }
    n
}

impl CategoryReport {
    /// The report of a category's results.
    pub fn from_results(category: InvariantCategory, results: Vec<InvariantResult>) -> (r: Self)
        ensures
            r.category == category,
            r.results@ == results@,
            r.passed == count_passed(results@),
            r.failed == results@.len() - count_passed(results@),
    {
        let passed = passed_count(&results);
        let failed = results.len() - passed;
        CategoryReport { category, results, passed, failed }
    }

    /// Whether every result of the category passed.
    pub fn all_passed(&self) -> (b: bool)
        ensures
            b == (self.failed == 0),
    {
        self.failed == 0
    }
}

/// A complete conformance report.
#[derive(Clone, Debug)]
pub struct ConformanceReport {
    pub results: Vec<InvariantResult>,
    pub categories: Vec<CategoryReport>,
    pub summary: ConformanceSummary,
    pub benchmarks: Option<Vec<BenchmarkResult>>,
}

/// Whether `v` holds the reports of the first `k` categories that have
/// results, in category order.
pub open spec fn spec_category_reports(rs: Seq<InvariantResult>, k: nat, v: Seq<CategoryReport>) -> bool
    decreases k,
{
    if k == 0 {
        v.len() == 0
    } else {
        let cat = spec_all_categories()[k - 1];
        let mine = results_in(rs, cat);
        if mine.len() > 0 {
            &&& v.len() > 0
            &&& spec_category_reports(rs, (k - 1) as nat, v.drop_last())
            &&& v.last().category == cat
            &&& v.last().results@ == mine
            &&& v.last().passed == count_passed(mine)
            &&& v.last().failed == mine.len() - count_passed(mine)
        } else {
            spec_category_reports(rs, (k - 1) as nat, v)
        }
    }
}

fn results_of(results: &Vec<InvariantResult>, cat: InvariantCategory) -> (v: Vec<InvariantResult>)
    ensures
        v@ == results_in(results@, cat),
{
    let mut v: Vec<InvariantResult> = Vec::new();
    let mut i: usize = 0;
    while i < results.len()
        invariant
            i <= results@.len(),
            v@ == results_in(results@.take(i as int), cat),
        decreases results@.len() - i,
    {
        proof {
            assert(results@.take(i as int + 1).drop_last() =~= results@.take(i as int));
        }
        if results[i].category == cat {
            v.push(results[i].duplicate());
        }
        i = i + 1;
    }
    proof {
        assert(results@.take(results@.len() as int) =~= results@);
    }
    v
}

impl ConformanceReport {
    /// The report of the given results, with `skipped` checks not run:
    /// totals, and one category report per category that has results.
    pub fn from_results(results: Vec<InvariantResult>, skipped: usize, started_at: i64, completed_at: i64) -> (r: Self)
        ensures
            r.results@ == results@,
            spec_category_reports(results@, 7, r.categories@),
            r.summary.total == results@.len(),
            r.summary.passed == count_passed(results@),
            r.summary.failed == results@.len() - count_passed(results@),
            r.summary.skipped == skipped,
            r.summary.started_at == started_at,
            r.summary.completed_at == completed_at,
            r.benchmarks is None,
    {
        let total = results.len();
        let passed = passed_count(&results);
        let all = InvariantCategory::all();
        let mut categories: Vec<CategoryReport> = Vec::new();
        let mut k: usize = 0;
        while k < all.len()
            invariant
                all@ == spec_all_categories(),
                k <= all@.len(),
                spec_category_reports(results@, k as nat, categories@),
            decreases all@.len() - k,
        {
            let cat = all[k];
            let mine = results_of(&results, cat);
            if mine.len() > 0 {
                let ghost before = categories@;
                categories.push(CategoryReport::from_results(cat, mine));
                proof {
                    assert(categories@.drop_last() =~= before);
                }
            }
            k = k + 1;
        }
        ConformanceReport {
            results,
            categories,
            summary: ConformanceSummary { total, passed, failed: total - passed, skipped, started_at, completed_at },
            benchmarks: None,
        }
    }

    /// The report with benchmark measurements attached.
    pub fn with_benchmarks(self, benchmarks: Vec<BenchmarkResult>) -> (r: Self)
        ensures
            r.results == self.results,
            r.categories == self.categories,
            r.summary == self.summary,
            r.benchmarks == Some(benchmarks),
    {
        ConformanceReport { benchmarks: Some(benchmarks), ..self }
    }

    /// Whether no check failed.
    pub fn all_passed(&self) -> (b: bool)
        ensures
            b == (self.summary.failed == 0),
    {
        self.summary.all_passed()
    }

    /// The failed results, in order.
    pub fn failures(&self) -> (v: Vec<&InvariantResult>)
        ensures
            v@.len() == failed_results(self.results@).len(),
            forall|i: int| 0 <= i < v@.len() ==> *(#[trigger] v@[i]) == failed_results(self.results@)[i],
    {
        let mut v: Vec<&InvariantResult> = Vec::new();
        let mut i: usize = 0;
        while i < self.results.len()
            invariant
                i <= self.results@.len(),
                v@.len() == failed_results(self.results@.take(i as int)).len(),
                forall|j: int| 0 <= j < v@.len() ==> *(#[trigger] v@[j]) == failed_results(self.results@.take(i as int))[j],
            decreases self.results@.len() - i,
        {
            proof {
                assert(self.results@.take(i as int + 1).drop_last() =~= self.results@.take(i as int));
            }
            if !self.results[i].passed {
                v.push(&self.results[i]);
            }
            i = i + 1;
        }
        proof {
            assert(self.results@.take(self.results@.len() as int) =~= self.results@);
        }
        v
    }
}

/// `n` in decimal, right-aligned in three columns.
pub open spec fn pad3(n: nat) -> Seq<char> {
    if n < 10 { "  "@ + decimal(n) } else if n < 100 { " "@ + decimal(n) } else { decimal(n) }
}

fn pad3_string(n: u64) -> (s: String)
    ensures
        s@ == pad3(n as nat),
{
    let d = decimal_string(n);
    if n < 10 {
        let mut s = String::from_str("  ");
        s.append(d.as_str());
        s
    } else if n < 100 {
        let mut s = String::from_str(" ");
        s.append(d.as_str());
        s
    } else {
        d
    }
}

/// The lines of a category's results: `      [+|x] <result>`.
pub open spec fn spec_result_lines(rs: Seq<InvariantResult>) -> Seq<char>
    decreases rs.len(),
{
    if rs.len() == 0 {
        Seq::empty()
    } else {
        spec_result_lines(rs.drop_last()) + "      ["@ + (if rs.last().passed { "+"@ } else { "x"@ }) + "] "@
            + spec_result_text(rs.last()) + "\n"@
    }
}

/// Display form of a category report: a heading line with its label and
/// passed count, then one line per result.
pub open spec fn spec_category_report_text(c: CategoryReport) -> Seq<char> {
    "  ["@ + (if c.failed == 0 { "+"@ } else { "!"@ }) + "] "@ + spec_category_label(c.category) + " ("@
        + decimal(c.passed as nat) + "/"@ + decimal(c.results@.len()) + ")\n"@ + spec_result_lines(c.results@)
}

/// The category sections of a report, in order.
pub open spec fn spec_category_sections(cs: Seq<CategoryReport>) -> Seq<char>
    decreases cs.len(),
{
    if cs.len() == 0 { Seq::empty() } else { spec_category_sections(cs.drop_last()) + spec_category_report_text(cs.last()) }
}

/// The benchmark lines: `      [+|x] <id> — <elapsed>us`.
pub open spec fn spec_benchmark_lines(bs: Seq<BenchmarkResult>) -> Seq<char>
    decreases bs.len(),
{
    if bs.len() == 0 {
        Seq::empty()
    } else {
        spec_benchmark_lines(bs.drop_last()) + "      ["@ + (if bs.last().passed { "+"@ } else { "x"@ }) + "] "@
            + bs.last().invariant_id@ + " \u{2014} "@ + decimal(bs.last().elapsed_us as nat) + "us\n"@
    }
}

/// Display form of a report: a boxed header with the totals, the category
/// sections, the benchmarks when measured, and the verdict.
pub open spec fn spec_report_text(r: ConformanceReport) -> Seq<char> {
    "+-------------------------------------------------+\n"@
        + "|   WorldLine Conformance Report                  |\n"@
        + "+-------------------------------------------------+\n"@
        + "| Total: "@ + pad3(r.summary.total as nat) + "  Passed: "@ + pad3(r.summary.passed as nat)
        + "  Failed: "@ + pad3(r.summary.failed as nat) + "             |\n"@
        + "+-------------------------------------------------+\n"@ + "\n"@
        + spec_category_sections(r.categories@)
        + match r.benchmarks {
            Some(bs) => "\n"@ + "  Benchmarks ("@ + decimal(bs@.len()) + " measured):\n"@ + spec_benchmark_lines(bs@),
            None => Seq::empty(),
        }
        + "\n"@
        + if r.summary.failed == 0 {
            "  ALL 22 WORLDLINE SAFETY INVARIANTS SATISFIED\n"@
        } else {
            "  "@ + decimal(r.summary.failed as nat) + " INVARIANT(S) VIOLATED\n"@
        }
}

impl CategoryReport {
    /// Renders the category report.
    pub fn to_string(&self) -> (s: String)
        ensures
            s@ == spec_category_report_text(*self),
    {
        let mut s = String::from_str("  [");
        s.append(if self.all_passed() { "+" } else { "!" });
        s.append("] ");
        s.append(self.category.label());
        s.append(" (");
        s.append(decimal_string(self.passed as u64).as_str());
        s.append("/");
        s.append(decimal_string(self.results.len() as u64).as_str());
        s.append(")\n");
        let ghost head = s@;
        let mut i: usize = 0;
        while i < self.results.len()
            invariant
                i <= self.results@.len(),
                s@ == head + spec_result_lines(self.results@.take(i as int)),
            decreases self.results@.len() - i,
        {
            proof {
                assert(self.results@.take(i as int + 1).drop_last() =~= self.results@.take(i as int));
            }
            let r = &self.results[i];
            s.append("      [");
            s.append(if r.passed { "+" } else { "x" });
            s.append("] ");
            s.append(r.to_string().as_str());
            s.append("\n");
            proof {
                assert(s@ =~= head + spec_result_lines(self.results@.take(i as int + 1)));
            }
            i = i + 1;
        }
        proof {
            assert(self.results@.take(self.results@.len() as int) =~= self.results@);
        }
        s
    }
}

impl ConformanceReport {
    /// Renders the report.
    pub fn to_string(&self) -> (s: String)
        ensures
            s@ == spec_report_text(*self),
    {
        let mut s = String::from_str("+-------------------------------------------------+\n");
        s.append("|   WorldLine Conformance Report                  |\n");
        s.append("+-------------------------------------------------+\n");
        s.append("| Total: ");
        s.append(pad3_string(self.summary.total as u64).as_str());
        s.append("  Passed: ");
        s.append(pad3_string(self.summary.passed as u64).as_str());
        s.append("  Failed: ");
        s.append(pad3_string(self.summary.failed as u64).as_str());
        s.append("             |\n");
        s.append("+-------------------------------------------------+\n");
        s.append("\n");
        let ghost head = s@;
        let mut i: usize = 0;
        while i < self.categories.len()
            invariant
                i <= self.categories@.len(),
                s@ == head + spec_category_sections(self.categories@.take(i as int)),
            decreases self.categories@.len() - i,
        {
            proof {
                assert(self.categories@.take(i as int + 1).drop_last() =~= self.categories@.take(i as int));
            }
            s.append(self.categories[i].to_string().as_str());
            proof {
                assert(s@ =~= head + spec_category_sections(self.categories@.take(i as int + 1)));
            }
            i = i + 1;
        }
        proof {
            assert(self.categories@.take(self.categories@.len() as int) =~= self.categories@);
        }
        let ghost mid = s@;
        match &self.benchmarks {
            Some(bs) => {
                s.append("\n");
                s.append("  Benchmarks (");
                s.append(decimal_string(bs.len() as u64).as_str());
                s.append(" measured):\n");
                let ghost bhead = s@;
                let mut j: usize = 0;
                while j < bs.len()
                    invariant
                        j <= bs@.len(),
                        s@ == bhead + spec_benchmark_lines(bs@.take(j as int)),
                    decreases bs@.len() - j,
                {
                    proof {
                        assert(bs@.take(j as int + 1).drop_last() =~= bs@.take(j as int));
                    }
                    let b = &bs[j];
                    s.append("      [");
                    s.append(if b.passed { "+" } else { "x" });
                    s.append("] ");
                    s.append(b.invariant_id.as_str());
                    s.append(" \u{2014} ");
                    s.append(decimal_string(b.elapsed_us).as_str());
                    s.append("us\n");
                    proof {
                        assert(s@ =~= bhead + spec_benchmark_lines(bs@.take(j as int + 1)));
                    }
                    j = j + 1;
                }
                proof {
                    assert(bs@.take(bs@.len() as int) =~= bs@);
                }
            },
            None => {},
        }
        s.append("\n");
        if self.all_passed() {
            s.append("  ALL 22 WORLDLINE SAFETY INVARIANTS SATISFIED\n");
        } else {
            s.append("  ");
            s.append(decimal_string(self.summary.failed as u64).as_str());
            s.append(" INVARIANT(S) VIOLATED\n");
        }
        proof {
            assert(s@ =~= spec_report_text(*self));
        }
        s
    }
}

/// A benchmark runner that times the checks on the wall clock.
pub struct SimulatedBenchmarkRunner;

impl SimulatedBenchmarkRunner {
    /// The runner.
    pub fn new() -> Self {
        SimulatedBenchmarkRunner
    }

    /// Name of the runner.
    pub fn name(&self) -> (s: &str)
        ensures
            s@ == "simulated-benchmark"@,
    {
        "simulated-benchmark"
    }
}

impl Default for SimulatedBenchmarkRunner {
    fn default() -> Self {
        SimulatedBenchmarkRunner
    }
}

/// Every result falls in exactly one category: the category results
/// together are all the results, and the passed ones are among them.
pub proof fn law_categories_partition_results(rs: Seq<InvariantResult>)
    ensures
        results_in(rs, InvariantCategory::Observation).len() + results_in(rs, InvariantCategory::SelfModGate).len()
            + results_in(rs, InvariantCategory::Consequence).len() + results_in(rs, InvariantCategory::Compiler).len()
            + results_in(rs, InvariantCategory::Sal).len() + results_in(rs, InvariantCategory::Bootstrap).len()
            + results_in(rs, InvariantCategory::Evos).len() == rs.len(),
        count_passed(rs) <= rs.len(),
    decreases rs.len(),
{
    lemma_count_passed_bound(rs);
    if rs.len() > 0 {
        law_categories_partition_results(rs.drop_last());
    }
}

} // verus!
