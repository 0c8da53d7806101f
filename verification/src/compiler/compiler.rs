//! The adaptive compiler: checks that a module is verified, runs the
//! strategy's optimization passes, generates code for its target and
//! assembles the artifact.

use vstd::prelude::*;
use crate::compiler::artifact::{ArtifactBuilder, CompilationArtifact};
use crate::compiler::codegen::{
    spec_generated_text, spec_packaged, CodeGenerator, GeneratedCode, NativeCodeGen, OperatorCallCodeGen,
    WasmCodeGen, WlirInterpreterCodeGen,
};
use crate::compiler::error::{CompilerError, CompilerResult};
use crate::compiler::ir::{spec_total_instructions, VerificationStatus, WlirModule};
use crate::compiler::passes::{spec_apply_pass, OptimizationPipeline};
use crate::compiler::strategy::{spec_same_strategy, CompilationStrategy};
use crate::compiler::types::{CompilationId, CompilationTarget, CompilerConfig, OptimizationLevel, TargetArch};

verus! {

/// The adaptive compiler.
pub struct AdaptiveCompiler {
    config: CompilerConfig,
}

/// Debug form of a verification status.
pub open spec fn spec_status_debug(s: VerificationStatus) -> Seq<char> {
    match s {
        VerificationStatus::Unverified => "Unverified"@,
        VerificationStatus::PartiallyVerified => "PartiallyVerified"@,
        VerificationStatus::FullyVerified => "FullyVerified"@,
    }
}

impl AdaptiveCompiler {
    /// The compiler's configuration.
    pub closed spec fn configuration(&self) -> CompilerConfig {
        self.config
    }

    /// A compiler with the default configuration.
    pub fn new() -> (c: Self)
        ensures
            c.configuration().target == (CompilationTarget::Native { arch: TargetArch::X86_64 }),
            c.configuration().optimization_level == OptimizationLevel::Basic,
            c.configuration().enable_safety_checks,
            c.configuration().max_optimization_iterations == 10,
            !c.configuration().preserve_debug_info,
            c.configuration().max_tracked_records == 256,
    {
        AdaptiveCompiler { config: CompilerConfig::default() }
    }

    /// A compiler with the given configuration.
    pub fn with_config(config: CompilerConfig) -> (c: Self)
        ensures
            c.configuration() == config,
    {
        AdaptiveCompiler { config }
    }

    /// The configuration.
    pub fn config(&self) -> (c: &CompilerConfig)
        ensures
            *c == self.configuration(),
    {
        &self.config
    }

    /// With safety checks on, only fully verified modules are compiled.
    pub fn verify_module(&self, module: &WlirModule) -> (r: CompilerResult<()>)
        ensures
            (self.configuration().enable_safety_checks
                && module.verification_status != VerificationStatus::FullyVerified) ==> (r matches Err(
                CompilerError::ModuleNotVerified(m)) && m@ == "Module '"@ + module.name@ + "' has verification status "@
                + spec_status_debug(module.verification_status) + ", expected Verified"@),
            !(self.configuration().enable_safety_checks
                && module.verification_status != VerificationStatus::FullyVerified) ==> r is Ok,
    {
        if self.config.enable_safety_checks && module.verification_status != VerificationStatus::FullyVerified {
            let mut m = String::from_str("Module '");
            m.append(module.name.as_str());
            m.append("' has verification status ");
            m.append(match module.verification_status {
                VerificationStatus::Unverified => "Unverified",
                VerificationStatus::PartiallyVerified => "PartiallyVerified",
                VerificationStatus::FullyVerified => "FullyVerified",
            });
            m.append(", expected Verified");
            return Err(CompilerError::ModuleNotVerified(m));
        }
        Ok(())
    }
}

/// Whether `c` is the code generated for target `t` from module `m`,
/// whose serialized form is `json`: the interpreted target packages the
/// JSON text, the others the rendered text.
pub open spec fn spec_code_for(t: CompilationTarget, m: WlirModule, json: Seq<char>, c: GeneratedCode) -> bool {
    match t {
        CompilationTarget::Interpreted => spec_packaged(t, json, c),
        _ => spec_packaged(t, spec_generated_text(t, m), c),
    }
}

/// Whether `a` is the artifact of compiling module `m` with strategy `s`.
pub open spec fn spec_compiled(m: WlirModule, s: CompilationStrategy, json: Seq<char>, a: CompilationArtifact) -> bool {
    &&& a.module_id == m.id
    &&& a.module_name == m.name
    &&& spec_same_strategy(a.strategy, s)
    &&& a.optimization_results@.len() == s.enabled_passes@.len()
    &&& forall|k: int| 0 <= k < a.optimization_results@.len()
        ==> spec_apply_pass(s.enabled_passes@[k], m, #[trigger] a.optimization_results@[k])
    &&& spec_code_for(s.target, m, json, a.generated_code)
}

impl AdaptiveCompiler {
    /// The code of a module for a target, from the generator of that
    /// target.
    fn generate_for_target(&self, target: CompilationTarget, module: &WlirModule, module_json: &str)
        -> (r: CompilerResult<GeneratedCode>)
        ensures
            r matches Ok(c) && spec_code_for(target, *module, module_json@, c),
    {
        match target {
            CompilationTarget::Native { arch } => NativeCodeGen::new(arch).generate(module),
            CompilationTarget::Wasm { env } => WasmCodeGen::new(env).generate(module),
            CompilationTarget::OperatorCall => OperatorCallCodeGen::new().generate(module),
            CompilationTarget::Interpreted => Ok(WlirInterpreterCodeGen::new().package_json(module_json.to_string())),
        }
    }

    /// Compiles a module with an explicit strategy: the module must pass
    /// the verification check; then the strategy's passes run in order,
    /// code is generated for the strategy's target (the interpreted
    /// target takes the module's serialized form `module_json`), and the
    /// artifact is assembled.
    pub fn compile_with_strategy(&self, module: &WlirModule, strategy: &CompilationStrategy, module_json: &str)
        -> (r: CompilerResult<CompilationArtifact>)
        requires
            spec_total_instructions(module.functions@) <= usize::MAX,
        ensures
            (self.configuration().enable_safety_checks
                && module.verification_status != VerificationStatus::FullyVerified) ==> (r matches Err(
                CompilerError::ModuleNotVerified(m)) && m@ == "Module '"@ + module.name@ + "' has verification status "@
                + spec_status_debug(module.verification_status) + ", expected Verified"@),
            !(self.configuration().enable_safety_checks
                && module.verification_status != VerificationStatus::FullyVerified) ==> (r matches Ok(a)
                && spec_compiled(*module, *strategy, module_json@, a)),
    {
        self.verify_module(module)?;
        let pipeline = OptimizationPipeline::from_strategy(strategy);
        let results = match pipeline.apply_all(module) {
            Ok(v) => v,
            Err(e) => {
                return Err(e);
            },
        };
        let code = match self.generate_for_target(strategy.target, module, module_json) {
            Ok(c) => c,
            Err(e) => {
                return Err(e);
            },
        };
        ArtifactBuilder::new(CompilationId::new())
            .module(module.id.clone(), module.name.clone())
            .strategy(strategy.duplicate())
            .optimization_results(results)
            .generated_code(code)
            .build()
    }
}

impl Default for AdaptiveCompiler {
    fn default() -> (c: Self)
        ensures
            c.configuration().target == (CompilationTarget::Native { arch: TargetArch::X86_64 }),
            c.configuration().optimization_level == OptimizationLevel::Basic,
            c.configuration().enable_safety_checks,
            c.configuration().max_optimization_iterations == 10,
            !c.configuration().preserve_debug_info,
            c.configuration().max_tracked_records == 256,
    {
        AdaptiveCompiler { config: CompilerConfig::default() }
    }
}

} // verus!
