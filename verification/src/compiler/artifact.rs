//! Compilation artifacts: the output of a compilation run, assembled by
//! a builder that checks every required part is present.

use vstd::prelude::*;
use crate::compiler::codegen::GeneratedCode;
use crate::compiler::error::{CompilerError, CompilerResult};
use crate::compiler::passes::PassResult;
use crate::compiler::strategy::CompilationStrategy;
use crate::compiler::types::CompilationId;
use crate::platform::now_millis;
use crate::text::{decimal, decimal_string};

verus! {

/// Output of a compilation run; times in milliseconds since the Unix
/// epoch.
#[derive(Clone, Debug)]
pub struct CompilationArtifact {
    pub compilation_id: CompilationId,
    pub module_id: String,
    pub module_name: String,
    pub strategy: CompilationStrategy,
    pub optimization_results: Vec<PassResult>,
    pub generated_code: GeneratedCode,
    pub compilation_time_ms: u64,
    pub compiled_at: i64,
}

/// Number of applied passes.
pub open spec fn applied_count(rs: Seq<PassResult>) -> nat
    decreases rs.len(),
{
    if rs.len() == 0 { 0 } else { applied_count(rs.drop_last()) + if rs.last().applied { 1nat } else { 0nat } }
}

/// Total changes made by the applied passes.
pub open spec fn applied_changes(rs: Seq<PassResult>) -> nat
    decreases rs.len(),
{
    if rs.len() == 0 {
        0
    } else {
        applied_changes(rs.drop_last()) + if rs.last().applied { rs.last().changes_made as nat } else { 0nat }
    }
}

proof fn lemma_applied_count_bound(rs: Seq<PassResult>)
    ensures
        applied_count(rs) <= rs.len(),
    decreases rs.len(),
{
    if rs.len() > 0 {
        lemma_applied_count_bound(rs.drop_last());
    }
}

proof fn lemma_applied_changes_prefix(rs: Seq<PassResult>, i: int)
    requires
        0 <= i <= rs.len(),
    ensures
        applied_changes(rs.take(i)) <= applied_changes(rs),
    decreases rs.len() - i,
{
    if i < rs.len() {
        lemma_applied_changes_prefix(rs, i + 1);
        assert(rs.take(i + 1).drop_last() =~= rs.take(i));
    } else {
        assert(rs.take(i) =~= rs);
    }
}

/// Number of applied passes of a list of results.
fn count_applied(rs: &Vec<PassResult>) -> (n: usize)
    ensures
        n == applied_count(rs@),
{
    let mut n: usize = 0;
    let mut i: usize = 0;
    while i < rs.len()
        invariant
            i <= rs@.len(),
            n == applied_count(rs@.take(i as int)),
        decreases rs@.len() - i,
    {
        proof {
            assert(rs@.take(i as int + 1).drop_last() =~= rs@.take(i as int));
            lemma_applied_count_bound(rs@.take(i as int));
        }
        if rs[i].applied {
            n = n + 1;
        }
        i = i + 1;
    }
    proof {
        assert(rs@.take(rs@.len() as int) =~= rs@);
    }
    n
}

/// Display form of the optimization summary.
pub open spec fn spec_optimizations_summary(rs: Seq<PassResult>) -> Seq<char> {
    decimal(applied_count(rs)) + "/"@ + decimal(rs.len()) + " passes applied, "@ + decimal(applied_changes(rs))
        + " total changes"@
}

impl CompilationArtifact {
    /// Total changes made by the applied passes.
    pub fn total_optimizations_applied(&self) -> (n: u32)
        requires
            applied_changes(self.optimization_results@) <= u32::MAX,
        ensures
            n == applied_changes(self.optimization_results@),
    {
        let rs = &self.optimization_results;
        let mut n: u32 = 0;
        let mut i: usize = 0;
        while i < rs.len()
            invariant
                i <= rs@.len(),
                rs@ == self.optimization_results@,
                applied_changes(rs@) <= u32::MAX,
                n == applied_changes(rs@.take(i as int)),
            decreases rs@.len() - i,
        {
            proof {
                assert(rs@.take(i as int + 1).drop_last() =~= rs@.take(i as int));
                lemma_applied_changes_prefix(rs@, i as int + 1);
            }
            if rs[i].applied {
                n = n + rs[i].changes_made;
            }
            i = i + 1;
        }
        proof {
            assert(rs@.take(rs@.len() as int) =~= rs@);
        }
        n
    }

    /// One line: `<applied>/<total> passes applied, <changes> total changes`.
    pub fn optimizations_summary(&self) -> (s: String)
        requires
            applied_changes(self.optimization_results@) <= u32::MAX,
        ensures
            s@ == spec_optimizations_summary(self.optimization_results@),
    {
        let applied = count_applied(&self.optimization_results);
        let total = self.optimization_results.len();
        let changes = self.total_optimizations_applied();
        let mut s = decimal_string(applied as u64);
        s.append("/");
        s.append(decimal_string(total as u64).as_str());
        s.append(" passes applied, ");
        s.append(decimal_string(changes as u64).as_str());
        s.append(" total changes");
        s
    }
}

/// Assembles a compilation artifact part by part.
pub struct ArtifactBuilder {
    compilation_id: CompilationId,
    module: Option<(String, String)>,
    strategy: Option<CompilationStrategy>,
    optimization_results: Vec<PassResult>,
    generated_code: Option<GeneratedCode>,
    start_time: i64,
}

/// Milliseconds from `start` to `end`, zero when `end` is not later.
pub open spec fn spec_elapsed_ms(start: i64, end: i64) -> u64 {
    if end > start { (end - start) as u64 } else { 0 }
}

impl ArtifactBuilder {
    /// The identifier of the compilation.
    pub closed spec fn spec_compilation_id(&self) -> CompilationId {
        self.compilation_id
    }

    /// The module identifier and name, when set (they are set together).
    pub closed spec fn spec_module(&self) -> Option<(String, String)> {
        self.module
    }

    /// The strategy, when set.
    pub closed spec fn spec_strategy(&self) -> Option<CompilationStrategy> {
        self.strategy
    }

    /// The optimization results (none until set).
    pub closed spec fn spec_results(&self) -> Seq<PassResult> {
        self.optimization_results@
    }

    /// The generated code, when set.
    pub closed spec fn spec_code(&self) -> Option<GeneratedCode> {
        self.generated_code
    }

    /// When the builder was started.
    pub closed spec fn spec_start(&self) -> i64 {
        self.start_time
    }

    /// A builder for compilation `compilation_id`, started now, with no
    /// part set.
    pub fn new(compilation_id: CompilationId) -> (b: Self)
        ensures
            b.spec_compilation_id() == compilation_id,
            b.spec_module() is None,
            b.spec_strategy() is None,
            b.spec_results().len() == 0,
            b.spec_code() is None,
    {
        ArtifactBuilder {
            compilation_id,
            module: None,
            strategy: None,
            optimization_results: Vec::new(),
            generated_code: None,
            start_time: now_millis(),
        }
    }

    /// Sets the module.
    pub fn module(self, id: String, name: String) -> (b: Self)
        ensures
            b.spec_module() == Some((id, name)),
            b.spec_compilation_id() == self.spec_compilation_id(),
            b.spec_strategy() == self.spec_strategy(),
            b.spec_results() == self.spec_results(),
            b.spec_code() == self.spec_code(),
            b.spec_start() == self.spec_start(),
    {
        ArtifactBuilder { module: Some((id, name)), ..self }
    }

    /// Sets the strategy.
    pub fn strategy(self, strategy: CompilationStrategy) -> (b: Self)
        ensures
            b.spec_strategy() == Some(strategy),
            b.spec_compilation_id() == self.spec_compilation_id(),
            b.spec_module() == self.spec_module(),
            b.spec_results() == self.spec_results(),
            b.spec_code() == self.spec_code(),
            b.spec_start() == self.spec_start(),
    {
        ArtifactBuilder { strategy: Some(strategy), ..self }
    }

    /// Sets the optimization results.
    pub fn optimization_results(self, results: Vec<PassResult>) -> (b: Self)
        ensures
            b.spec_results() == results@,
            b.spec_compilation_id() == self.spec_compilation_id(),
            b.spec_module() == self.spec_module(),
            b.spec_strategy() == self.spec_strategy(),
            b.spec_code() == self.spec_code(),
            b.spec_start() == self.spec_start(),
    {
        ArtifactBuilder { optimization_results: results, ..self }
    }

    /// Sets the generated code.
    pub fn generated_code(self, code: GeneratedCode) -> (b: Self)
        ensures
            b.spec_code() == Some(code),
            b.spec_compilation_id() == self.spec_compilation_id(),
            b.spec_module() == self.spec_module(),
            b.spec_strategy() == self.spec_strategy(),
            b.spec_results() == self.spec_results(),
            b.spec_start() == self.spec_start(),
    {
        ArtifactBuilder { generated_code: Some(code), ..self }
    }

    /// The artifact, compiled now, or a configuration error naming the
    /// first missing part (module, strategy, generated code).
    pub fn build(self) -> (r: CompilerResult<CompilationArtifact>)
        ensures
            self.spec_module() is None ==> (r matches Err(CompilerError::ConfigurationError(m))
                && m@ == "module_id is required"@),
            self.spec_module() is Some && self.spec_strategy() is None ==> (r matches Err(
                CompilerError::ConfigurationError(m)) && m@ == "strategy is required"@),
            self.spec_module() is Some && self.spec_strategy() is Some && self.spec_code() is None ==> (r matches Err(
                CompilerError::ConfigurationError(m)) && m@ == "generated_code is required"@),
            self.spec_module() is Some && self.spec_strategy() is Some && self.spec_code() is Some ==> (r matches Ok(a)
                && a.compilation_id == self.spec_compilation_id()
                && a.module_id == self.spec_module().unwrap().0
                && a.module_name == self.spec_module().unwrap().1
                && a.strategy == self.spec_strategy()->0
                && a.optimization_results@ == self.spec_results()
                && a.generated_code == self.spec_code()->0
                && a.compilation_time_ms == spec_elapsed_ms(self.spec_start(), a.compiled_at)),
    {
        let (module_id, module_name) = match self.module {
            Some(m) => m,
            None => {
                return Err(CompilerError::ConfigurationError(String::from_str("module_id is required")));
            },
        };
        let strategy = match self.strategy {
            Some(s) => s,
            None => {
                return Err(CompilerError::ConfigurationError(String::from_str("strategy is required")));
            },
        };
        let generated_code = match self.generated_code {
            Some(c) => c,
            None => {
                return Err(CompilerError::ConfigurationError(String::from_str("generated_code is required")));
            },
        };
        let now = now_millis();
        let elapsed: u64 = if now > self.start_time {
            (now as i128 - self.start_time as i128) as u64
        } else {
            0
        };
        Ok(CompilationArtifact {
            compilation_id: self.compilation_id,
            module_id,
            module_name,
            strategy,
            optimization_results: self.optimization_results,
            generated_code,
            compilation_time_ms: elapsed,
            compiled_at: now,
        })
    }
}

} // verus!
