//! Core types of conformance testing: invariant identifiers and
//! categories, check results, configuration and summary. Times are
//! milliseconds since the Unix epoch.

use vstd::prelude::*;
use crate::platform::now_millis;

verus! {

/// Identifier of a safety invariant (`I.OBS-1`, ...).
#[derive(Clone, Debug, PartialEq, Eq, Hash)]
pub struct InvariantId(pub String);

impl InvariantId {
    /// The identifier `id`.
    pub fn new(id: &str) -> (r: Self)
        ensures
            r.0@ == id@,
    {
        InvariantId(id.to_string())
    }

    /// The identifier's text.
    pub fn as_str(&self) -> (s: &str)
        ensures
            s@ == self.0@,
    {
        self.0.as_str()
    }

    /// A copy of this identifier.
    pub fn duplicate(&self) -> (r: Self)
        ensures
            r == *self,
    {
        InvariantId(self.0.clone())
    }

    /// Renders the identifier (its text).
    pub fn to_string(&self) -> (s: String)
        ensures
            s@ == self.0@,
    {
        self.0.clone()
    }
}

/// Category of a safety invariant.
#[derive(Clone, Copy, Debug, PartialEq, Eq, Hash, Structural)]
pub enum InvariantCategory {
    Observation,
    SelfModGate,
    Consequence,
    Compiler,
    Sal,
    Bootstrap,
    Evos,
}

/// The categories in order.
pub open spec fn spec_all_categories() -> Seq<InvariantCategory> {
    seq![
        InvariantCategory::Observation,
        InvariantCategory::SelfModGate,
        InvariantCategory::Consequence,
        InvariantCategory::Compiler,
        InvariantCategory::Sal,
        InvariantCategory::Bootstrap,
        InvariantCategory::Evos,
    ]
}

/// Number of invariants of a category.
pub open spec fn spec_invariant_count(c: InvariantCategory) -> nat {
    match c {
        InvariantCategory::Observation => 5,
        InvariantCategory::SelfModGate => 7,
        InvariantCategory::Consequence => 2,
        InvariantCategory::Compiler => 2,
        InvariantCategory::Sal => 2,
        InvariantCategory::Bootstrap => 2,
        InvariantCategory::Evos => 2,
    }
}

/// Label of a category.
pub open spec fn spec_category_label(c: InvariantCategory) -> Seq<char> {
    match c {
        InvariantCategory::Observation => "Observation"@,
        InvariantCategory::SelfModGate => "Self-Modification Gate"@,
        InvariantCategory::Consequence => "Consequence"@,
        InvariantCategory::Compiler => "Compiler"@,
        InvariantCategory::Sal => "Substrate Abstraction Layer"@,
        InvariantCategory::Bootstrap => "Bootstrap Protocol"@,
        InvariantCategory::Evos => "EVOS Orchestrator"@,
    }
}

impl InvariantCategory {
    /// All categories, in order.
    pub fn all() -> (v: Vec<InvariantCategory>)
        ensures
            v@ == spec_all_categories(),
    {
        vec![
            InvariantCategory::Observation,
            InvariantCategory::SelfModGate,
            InvariantCategory::Consequence,
            InvariantCategory::Compiler,
            InvariantCategory::Sal,
            InvariantCategory::Bootstrap,
            InvariantCategory::Evos,
        ]
    }

    /// Number of invariants of the category.
    pub fn invariant_count(&self) -> (n: usize)
        ensures
            n == spec_invariant_count(*self),
    {
        match self {
            InvariantCategory::Observation => 5,
            InvariantCategory::SelfModGate => 7,
            InvariantCategory::Consequence => 2,
            InvariantCategory::Compiler => 2,
            InvariantCategory::Sal => 2,
            InvariantCategory::Bootstrap => 2,
            InvariantCategory::Evos => 2,
        }
    }

    /// Label of the category.
    pub fn label(&self) -> (s: &'static str)
        ensures
            s@ == spec_category_label(*self),
    {
        match self {
            InvariantCategory::Observation => "Observation",
            InvariantCategory::SelfModGate => "Self-Modification Gate",
            InvariantCategory::Consequence => "Consequence",
            InvariantCategory::Compiler => "Compiler",
            InvariantCategory::Sal => "Substrate Abstraction Layer",
            InvariantCategory::Bootstrap => "Bootstrap Protocol",
            InvariantCategory::Evos => "EVOS Orchestrator",
        }
    }

    /// Renders the category (its label).
    pub fn to_string(&self) -> (s: String)
        ensures
            s@ == spec_category_label(*self),
    {
        String::from_str(self.label())
    }
}

/// Result of checking one invariant.
#[derive(Clone, Debug)]
pub struct InvariantResult {
    pub id: InvariantId,
    pub category: InvariantCategory,
    pub name: String,
    pub passed: bool,
    pub description: String,
    pub details: Option<String>,
    pub checked_at: i64,
}

/// Display form of a result: `[PASS|FAIL] <id> - <name>: <description>`,
/// followed by ` (<details>)` when there are details.
pub open spec fn spec_result_text(r: InvariantResult) -> Seq<char> {
    "["@ + (if r.passed { "PASS"@ } else { "FAIL"@ }) + "] "@ + r.id.0@ + " - "@ + r.name@ + ": "@ + r.description@
        + match r.details {
            Some(d) => " ("@ + d@ + ")"@,
            None => Seq::empty(),
        }
}

impl InvariantResult {
    /// A passed check, now.
    pub fn pass(id: &str, category: InvariantCategory, name: &str, description: &str) -> (r: Self)
        ensures
            r.id.0@ == id@,
            r.category == category,
            r.name@ == name@,
            r.passed,
            r.description@ == description@,
            r.details is None,
    {
        InvariantResult {
            id: InvariantId::new(id),
            category,
            name: name.to_string(),
            passed: true,
            description: description.to_string(),
            details: None,
            checked_at: now_millis(),
        }
    }

    /// A failed check with details, now.
    pub fn fail(id: &str, category: InvariantCategory, name: &str, description: &str, details: &str) -> (r: Self)
        ensures
            r.id.0@ == id@,
            r.category == category,
            r.name@ == name@,
            !r.passed,
            r.description@ == description@,
            r.details matches Some(d) && d@ == details@,
    {
        InvariantResult {
            id: InvariantId::new(id),
            category,
            name: name.to_string(),
            passed: false,
            description: description.to_string(),
            details: Some(details.to_string()),
            checked_at: now_millis(),
        }
    }

    /// A copy of this result.
    pub fn duplicate(&self) -> (r: Self)
        ensures
            r == *self,
    {
        InvariantResult {
            id: self.id.duplicate(),
            category: self.category,
            name: self.name.clone(),
            passed: self.passed,
            description: self.description.clone(),
            details: match &self.details {
                Some(d) => Some(d.clone()),
                None => None,
            },
            checked_at: self.checked_at,
        }
    }

    /// Renders the result.
    pub fn to_string(&self) -> (s: String)
        ensures
            s@ == spec_result_text(*self),
    {
        let mut s = String::from_str("[");
        s.append(if self.passed { "PASS" } else { "FAIL" });
        s.append("] ");
        s.append(self.id.0.as_str());
        s.append(" - ");
        s.append(self.name.as_str());
        s.append(": ");
        s.append(self.description.as_str());
        match &self.details {
            Some(d) => {
                s.append(" (");
                s.append(d.as_str());
                s.append(")");
            },
            None => {},
        }
        s
    }
}

/// What a conformance run covers: categories and identifiers to filter
/// by (all when both are empty), whether to stop at the first failure,
/// and whether to measure benchmarks.
#[derive(Clone, Debug)]
pub struct ConformanceConfig {
    pub categories: Vec<InvariantCategory>,
    pub invariant_ids: Vec<InvariantId>,
    pub fail_fast: bool,
    pub include_benchmarks: bool,
}

impl Default for ConformanceConfig {
    fn default() -> (c: Self)
        ensures
            c.categories@.len() == 0,
            c.invariant_ids@.len() == 0,
            !c.fail_fast,
            !c.include_benchmarks,
    {
        ConformanceConfig { categories: Vec::new(), invariant_ids: Vec::new(), fail_fast: false, include_benchmarks: false }
    }
}

/// Summary of a conformance run.
#[derive(Clone, Debug)]
pub struct ConformanceSummary {
    pub total: usize,
    pub passed: usize,
    pub failed: usize,
    pub skipped: usize,
    pub started_at: i64,
    pub completed_at: i64,
}

impl ConformanceSummary {
    /// Whether no check failed.
    pub fn all_passed(&self) -> (b: bool)
        ensures
            b == (self.failed == 0),
    {
        self.failed == 0
    }
}

} // verus!
