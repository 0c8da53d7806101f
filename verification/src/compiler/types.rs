//! Core types of the adaptive compiler: identifiers, targets,
//! optimization levels, compilation status and configuration.

use vstd::prelude::*;
use crate::platform::fresh_uuid;

verus! {

/// Identifier of a compilation.
#[derive(Clone, Debug, PartialEq, Eq, Hash)]
pub struct CompilationId(pub String);

impl CompilationId {
    /// A fresh random identifier.
    pub fn new() -> (id: Self)
        ensures
            id.0@.len() == 36,
    {
        CompilationId(fresh_uuid())
    }

    /// Renders the identifier as `compile:<id>`.
    pub fn to_string(&self) -> (s: String)
        ensures
            s@ == "compile:"@ + self.0@,
    {
        let mut s = String::from_str("compile:");
        s.append(self.0.as_str());
        s
    }
}

impl Default for CompilationId {
    fn default() -> (id: Self)
        ensures
            id.0@.len() == 36,
    {
        Self::new()
    }
}

/// Identifier of a compilation strategy.
#[derive(Clone, Debug, PartialEq, Eq, Hash)]
pub struct StrategyId(pub String);

impl StrategyId {
    /// A fresh random identifier.
    pub fn new() -> (id: Self)
        ensures
            id.0@.len() == 36,
    {
        StrategyId(fresh_uuid())
    }

    /// The identifier that is the strategy's name.
    pub fn from_name(name: &str) -> (id: Self)
        ensures
            id.0@ == name@,
    {
        StrategyId(name.to_string())
    }

    /// Renders the identifier as `strategy:<id>`.
    pub fn to_string(&self) -> (s: String)
        ensures
            s@ == "strategy:"@ + self.0@,
    {
        let mut s = String::from_str("strategy:");
        s.append(self.0.as_str());
        s
    }

    /// A copy of this identifier.
    pub fn duplicate(&self) -> (r: Self)
        ensures
            r == *self,
    {
        StrategyId(self.0.clone())
    }
}

impl Default for StrategyId {
    fn default() -> (id: Self)
        ensures
            id.0@.len() == 36,
    {
        Self::new()
    }
}

/// Native architecture.
#[derive(Clone, Copy, Debug, PartialEq, Eq, Hash, Structural)]
pub enum TargetArch {
    X86_64,
    Aarch64,
}

/// Display name of an architecture.
pub open spec fn spec_arch_text(a: TargetArch) -> Seq<char> {
    match a {
        TargetArch::X86_64 => "x86-64"@,
        TargetArch::Aarch64 => "aarch64"@,
    }
}

impl TargetArch {
    /// Renders the architecture (`x86-64`, `aarch64`).
    pub fn to_string(&self) -> (s: String)
        ensures
            s@ == spec_arch_text(*self),
    {
        match self {
            TargetArch::X86_64 => String::from_str("x86-64"),
            TargetArch::Aarch64 => String::from_str("aarch64"),
        }
    }
}

/// WebAssembly host environment.
#[derive(Clone, Copy, Debug, PartialEq, Eq, Hash, Structural)]
pub enum WasmEnvironment {
    Browser,
    Edge,
}

/// Display name of an environment.
pub open spec fn spec_env_text(e: WasmEnvironment) -> Seq<char> {
    match e {
        WasmEnvironment::Browser => "browser"@,
        WasmEnvironment::Edge => "edge"@,
    }
}

impl WasmEnvironment {
    /// Renders the environment (`browser`, `edge`).
    pub fn to_string(&self) -> (s: String)
        ensures
            s@ == spec_env_text(*self),
    {
        match self {
            WasmEnvironment::Browser => String::from_str("browser"),
            WasmEnvironment::Edge => String::from_str("edge"),
        }
    }
}

/// What a compilation produces.
#[derive(Clone, Copy, Debug, PartialEq, Eq, Hash, Structural)]
pub enum CompilationTarget {
    Native { arch: TargetArch },
    Wasm { env: WasmEnvironment },
    OperatorCall,
    Interpreted,
}

/// Display name of a target.
pub open spec fn spec_target_text(t: CompilationTarget) -> Seq<char> {
    match t {
        CompilationTarget::Native { arch } => "native-"@ + spec_arch_text(arch),
        CompilationTarget::Wasm { env } => "wasm-"@ + spec_env_text(env),
        CompilationTarget::OperatorCall => "operator-call"@,
        CompilationTarget::Interpreted => "interpreted"@,
    }
}

impl CompilationTarget {
    /// Renders the target (`native-x86-64`, `wasm-browser`, ...).
    pub fn to_string(&self) -> (s: String)
        ensures
            s@ == spec_target_text(*self),
    {
        match self {
            CompilationTarget::Native { arch } => {
                let mut s = String::from_str("native-");
                s.append(arch.to_string().as_str());
                s
            },
            CompilationTarget::Wasm { env } => {
                let mut s = String::from_str("wasm-");
                s.append(env.to_string().as_str());
                s
            },
            CompilationTarget::OperatorCall => String::from_str("operator-call"),
            CompilationTarget::Interpreted => String::from_str("interpreted"),
        }
    }
}

/// How hard the compiler optimizes.
#[derive(Clone, Copy, Debug, PartialEq, Eq, Structural)]
pub enum OptimizationLevel {
    /// No optimization (displayed `none`).
    Disabled,
    Basic,
    Aggressive,
}

/// Display name of a level.
pub open spec fn spec_level_text(l: OptimizationLevel) -> Seq<char> {
    match l {
        OptimizationLevel::Disabled => "none"@,
        OptimizationLevel::Basic => "basic"@,
        OptimizationLevel::Aggressive => "aggressive"@,
    }
}

impl OptimizationLevel {
    /// Renders the level (`none`, `basic`, `aggressive`).
    pub fn to_string(&self) -> (s: String)
        ensures
            s@ == spec_level_text(*self),
    {
        match self {
            OptimizationLevel::Disabled => String::from_str("none"),
            OptimizationLevel::Basic => String::from_str("basic"),
            OptimizationLevel::Aggressive => String::from_str("aggressive"),
        }
    }
}

/// Status of a compilation.
#[derive(Clone, Debug, PartialEq, Eq)]
pub enum CompilationStatus {
    Started,
    Optimizing,
    Generating,
    Complete,
    Failed(String),
}

/// Display form of a status.
pub open spec fn spec_compilation_status_text(s: CompilationStatus) -> Seq<char> {
    match s {
        CompilationStatus::Started => "started"@,
        CompilationStatus::Optimizing => "optimizing"@,
        CompilationStatus::Generating => "generating"@,
        CompilationStatus::Complete => "complete"@,
        CompilationStatus::Failed(r) => "failed: "@ + r@,
    }
}

impl CompilationStatus {
    /// Renders the status (`started`, ..., `failed: <reason>`).
    pub fn to_string(&self) -> (s: String)
        ensures
            s@ == spec_compilation_status_text(*self),
    {
        match self {
            CompilationStatus::Started => String::from_str("started"),
            CompilationStatus::Optimizing => String::from_str("optimizing"),
            CompilationStatus::Generating => String::from_str("generating"),
            CompilationStatus::Complete => String::from_str("complete"),
            CompilationStatus::Failed(r) => {
                let mut s = String::from_str("failed: ");
                s.append(r.as_str());
                s
            },
        }
    }
}

/// Configuration of the compiler.
#[derive(Clone, Debug)]
pub struct CompilerConfig {
    pub target: CompilationTarget,
    pub optimization_level: OptimizationLevel,
    pub enable_safety_checks: bool,
    pub max_optimization_iterations: u32,
    pub preserve_debug_info: bool,
    pub max_tracked_records: usize,
}

impl Default for CompilerConfig {
    fn default() -> (c: Self)
        ensures
            c.target == (CompilationTarget::Native { arch: TargetArch::X86_64 }),
            c.optimization_level == OptimizationLevel::Basic,
            c.enable_safety_checks,
            c.max_optimization_iterations == 10,
            !c.preserve_debug_info,
            c.max_tracked_records == 256,
    {
        CompilerConfig {
            target: CompilationTarget::Native { arch: TargetArch::X86_64 },
            optimization_level: OptimizationLevel::Basic,
            enable_safety_checks: true,
            max_optimization_iterations: 10,
            preserve_debug_info: false,
            max_tracked_records: 256,
        }
    }
}

/// Profiling data gathered from running compiled code: hot functions,
/// memory-tier usage and operator call counts (as name/count entries,
/// one entry per name), and commitment boundary crossings.
#[derive(Clone, Debug)]
pub struct ProfilingData {
    pub hot_functions: Vec<String>,
    pub memory_tier_usage: Vec<(String, u64)>,
    pub operator_call_frequency: Vec<(String, u64)>,
    pub commitment_boundary_crossings: u64,
}

/// Whether no name occurs in two entries.
pub open spec fn distinct_names(es: Seq<(String, u64)>) -> bool {
    forall|i: int, j: int| 0 <= i < j < es.len() ==> (#[trigger] es[i]).0@ != (#[trigger] es[j]).0@
}

impl ProfilingData {
    /// The usage and call-count tables are maps: each name has one count.
    pub open spec fn wf(&self) -> bool {
        &&& distinct_names(self.memory_tier_usage@)
        &&& distinct_names(self.operator_call_frequency@)
    }
}

impl Default for ProfilingData {
    fn default() -> (p: Self)
        ensures
            p.hot_functions@.len() == 0,
            p.memory_tier_usage@.len() == 0,
            p.operator_call_frequency@.len() == 0,
            p.commitment_boundary_crossings == 0,
            p.wf(),
    {
        ProfilingData {
            hot_functions: Vec::new(),
            memory_tier_usage: Vec::new(),
            operator_call_frequency: Vec::new(),
            commitment_boundary_crossings: 0,
        }
    }
}

} // verus!
