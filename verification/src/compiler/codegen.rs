//! Code generators: native pseudo-assembly (x86-64, AArch64), WebAssembly
//! text, direct operator calls, and the interpreter's JSON form.

use vstd::prelude::*;
use crate::compiler::error::CompilerResult;
use crate::compiler::ir::{WlirFunction, WlirModule};
use crate::compiler::types::{spec_arch_text, spec_env_text, CompilationTarget, TargetArch, WasmEnvironment};
use crate::platform::now_millis;
use crate::text::{decimal, decimal_string, hex16_string, hex_fixed};
use vstd::string::StringSliceAdditionalSpecFns;

verus! {

/// Output of code generation; the generation time in milliseconds since
/// the Unix epoch.
#[derive(Clone, Debug)]
pub struct GeneratedCode {
    pub target: CompilationTarget,
    pub content: String,
    pub content_hash: String,
    pub size_bytes: usize,
    pub generated_at: i64,
}

/// The FNV-1a hash of a byte string: from the offset basis, each byte is
/// xored in and the hash multiplied by the FNV prime, wrapping at 2^64.
pub open spec fn spec_fnv1a(bytes: Seq<u8>) -> u64
    decreases bytes.len(),
{
    if bytes.len() == 0 {
        0xcbf29ce484222325
    } else {
        vstd::wrapping::u64_specs::wrapping_mul(spec_fnv1a(bytes.drop_last()) ^ (bytes.last() as u64), 0x100000001b3)
    }
}

impl GeneratedCode {
    /// The FNV-1a hash of the content's UTF-8 bytes, as sixteen
    /// hexadecimal digits.
    pub fn compute_hash(content: &str) -> (h: String)
        ensures
            h@ == hex_fixed(spec_fnv1a(content.spec_bytes()) as nat, 16),
    {
        let bytes = content.as_bytes();
        let mut hash: u64 = 0xcbf29ce484222325;
        let mut i: usize = 0;
        while i < bytes.len()
            invariant
                i <= bytes@.len(),
                bytes@ == content.spec_bytes(),
                hash == spec_fnv1a(bytes@.take(i as int)),
            decreases bytes@.len() - i,
        {
            proof {
                assert(bytes@.take(i as int + 1).drop_last() =~= bytes@.take(i as int));
            }
            hash = (hash ^ (bytes[i] as u64)).wrapping_mul(0x100000001b3);
            i = i + 1;
        }
        proof {
            assert(bytes@.take(bytes@.len() as int) =~= bytes@);
        }
        hex16_string(hash)
    }
}

/// The text before the functions.
pub open spec fn spec_code_header(t: CompilationTarget, m: WlirModule) -> Seq<char> {
    match t {
        CompilationTarget::Native { arch } => "; Native "@ + spec_arch_text(arch) + " assembly for module '"@ + m.name@
            + "' v"@ + m.version@ + "\n"@ + "; Functions: "@ + decimal(m.functions@.len()) + "\n\n"@,
        CompilationTarget::Wasm { env } => ";; WASM module '"@ + m.name@ + "' v"@ + m.version@ + " (target: "@
            + spec_env_text(env) + ")\n"@ + "(module\n"@,
        _ => "// Operator calls for module '"@ + m.name@ + "' v"@ + m.version@ + "\n\n"@,
    }
}

/// The text of one function.
pub open spec fn spec_code_function(t: CompilationTarget, f: WlirFunction) -> Seq<char> {
    let k = decimal(f.instructions@.len());
    match t {
        CompilationTarget::Native { arch } => ".global "@ + f.name@ + "\n"@ + f.name@ + ":\n"@ + match arch {
            TargetArch::X86_64 => "  push rbp\n"@ + "  mov rbp, rsp\n"@ + "  ; "@ + k + " instructions\n"@
                + "  pop rbp\n"@ + "  ret\n\n"@,
            TargetArch::Aarch64 => "  stp x29, x30, [sp, #-16]!\n"@ + "  mov x29, sp\n"@ + "  ; "@ + k
                + " instructions\n"@ + "  ldp x29, x30, [sp], #16\n"@ + "  ret\n\n"@,
        },
        CompilationTarget::Wasm { .. } => "  (func $"@ + f.name@ + " (export \""@ + f.name@ + "\")\n"@
            + "    ;; "@ + k + " instructions\n"@ + "    nop\n"@ + "  )\n"@,
        _ => "fn "@ + f.name@ + "() -> Result<(), OperatorError> {\n"@ + "    // "@ + k
            + " WLIR instructions \u{2192} operator calls\n"@ + "    Ok(())\n"@ + "}\n\n"@,
    }
}

/// The text of all functions, in order.
pub open spec fn spec_code_functions(t: CompilationTarget, fs: Seq<WlirFunction>) -> Seq<char>
    decreases fs.len(),
{
    if fs.len() == 0 {
        Seq::empty()
    } else {
        spec_code_functions(t, fs.drop_last()) + spec_code_function(t, fs.last())
    }
}

/// The text after the functions.
pub open spec fn spec_code_footer(t: CompilationTarget) -> Seq<char> {
    match t {
        CompilationTarget::Wasm { .. } => ")\n"@,
        _ => Seq::empty(),
    }
}

/// The code generated for a module: for a native target, native
/// assembly; for WebAssembly, WAT; otherwise operator calls.
pub open spec fn spec_generated_text(t: CompilationTarget, m: WlirModule) -> Seq<char> {
    spec_code_header(t, m) + spec_code_functions(t, m.functions@) + spec_code_footer(t)
}

fn header_text(t: CompilationTarget, m: &WlirModule) -> (s: String)
    ensures
        s@ == spec_code_header(t, *m),
{
    let mut s = String::new();
    match t {
        CompilationTarget::Native { arch } => {
            s.append("; Native "); s.append(arch.to_string().as_str()); s.append(" assembly for module '");
            s.append(m.name.as_str()); s.append("' v"); s.append(m.version.as_str()); s.append("\n");
            s.append("; Functions: "); s.append(decimal_string(m.functions.len() as u64).as_str()); s.append("\n\n");
        },
        CompilationTarget::Wasm { env } => {
            s.append(";; WASM module '"); s.append(m.name.as_str()); s.append("' v"); s.append(m.version.as_str());
            s.append(" (target: "); s.append(env.to_string().as_str()); s.append(")\n"); s.append("(module\n");
        },
        _ => {
            s.append("// Operator calls for module '"); s.append(m.name.as_str()); s.append("' v");
            s.append(m.version.as_str()); s.append("\n\n");
        },
    }
    proof {
        assert(s@ =~= spec_code_header(t, *m));
    }
    s
}

fn function_text(t: CompilationTarget, f: &WlirFunction) -> (s: String)
    ensures
        s@ == spec_code_function(t, *f),
{
    let k = decimal_string(f.instructions.len() as u64);
    let mut s = String::new();
    match t {
        CompilationTarget::Native { arch } => {
            s.append(".global "); s.append(f.name.as_str()); s.append("\n"); s.append(f.name.as_str()); s.append(":\n");
            match arch {
                TargetArch::X86_64 => {
                    s.append("  push rbp\n"); s.append("  mov rbp, rsp\n"); s.append("  ; "); s.append(k.as_str());
                    s.append(" instructions\n"); s.append("  pop rbp\n"); s.append("  ret\n\n");
                },
                TargetArch::Aarch64 => {
                    s.append("  stp x29, x30, [sp, #-16]!\n"); s.append("  mov x29, sp\n"); s.append("  ; ");
                    s.append(k.as_str()); s.append(" instructions\n"); s.append("  ldp x29, x30, [sp], #16\n");
                    s.append("  ret\n\n");
                },
            }
        },
        CompilationTarget::Wasm { .. } => {
            s.append("  (func $"); s.append(f.name.as_str()); s.append(" (export \""); s.append(f.name.as_str());
            s.append("\")\n"); s.append("    ;; "); s.append(k.as_str()); s.append(" instructions\n");
            s.append("    nop\n"); s.append("  )\n");
        },
        _ => {
            s.append("fn "); s.append(f.name.as_str()); s.append("() -> Result<(), OperatorError> {\n");
            s.append("    // "); s.append(k.as_str()); s.append(" WLIR instructions \u{2192} operator calls\n");
            s.append("    Ok(())\n"); s.append("}\n\n");
        },
    }
    proof {
        assert(s@ =~= spec_code_function(t, *f));
    }
    s
}

/// Renders the code of a module for target `t`.
pub fn render(t: CompilationTarget, m: &WlirModule) -> (s: String)
    ensures
        s@ == spec_generated_text(t, *m),
{
    let mut s = header_text(t, m);
    let ghost head = s@;
    let mut i: usize = 0;
    while i < m.functions.len()
        invariant
            i <= m.functions@.len(),
            s@ == head + spec_code_functions(t, m.functions@.take(i as int)),
        decreases m.functions@.len() - i,
    {
        proof {
            assert(m.functions@.take(i as int + 1).drop_last() =~= m.functions@.take(i as int));
        }
        let piece = function_text(t, &m.functions[i]);
        s.append(piece.as_str());
        proof {
            assert(s@ =~= head + spec_code_functions(t, m.functions@.take(i as int + 1)));
        }
        i = i + 1;
    }
    proof {
        assert(m.functions@.take(m.functions@.len() as int) =~= m.functions@);
    }
    match t {
        CompilationTarget::Wasm { .. } => { s.append(")\n"); },
        _ => {},
    }
    proof {
        assert(s@ =~= spec_generated_text(t, *m));
    }
    s
}

/// Whether `c` is the generated code of `content` for target `t`: its
/// hash and size describe the content.
pub open spec fn spec_packaged(t: CompilationTarget, content: Seq<char>, c: GeneratedCode) -> bool {
    &&& c.target == t
    &&& c.content@ == content
    &&& c.content_hash@ == hex_fixed(spec_fnv1a(vstd::utf8::encode_utf8(content)) as nat, 16)
    &&& c.size_bytes == vstd::utf8::encode_utf8(content).len() as usize
}

/// Packages generated content for target `t`, stamped now.
pub fn package(t: CompilationTarget, content: String) -> (c: GeneratedCode)
    ensures
        spec_packaged(t, content@, c),
{
    let hash = GeneratedCode::compute_hash(content.as_str());
    let size = content.as_str().len();
    GeneratedCode { target: t, content, content_hash: hash, size_bytes: size, generated_at: now_millis() }
}

/// Generates code from a module.
pub trait CodeGenerator {
    /// The target it produces.
    fn target(&self) -> CompilationTarget;

    /// Generates the code of a module.
    fn generate(&self, module: &WlirModule) -> CompilerResult<GeneratedCode>;

    /// Name of the generator.
    fn name(&self) -> &str;
}

/// Native pseudo-assembly for one architecture.
pub struct NativeCodeGen {
    arch: TargetArch,
}

impl NativeCodeGen {
    /// The architecture it generates for.
    pub closed spec fn architecture(&self) -> TargetArch {
        self.arch
    }

    /// A generator for `arch`.
    pub fn new(arch: TargetArch) -> (g: Self)
        ensures
            g.architecture() == arch,
    {
        NativeCodeGen { arch }
    }
}

impl CodeGenerator for NativeCodeGen {
    fn target(&self) -> (t: CompilationTarget)
        ensures
            t == (CompilationTarget::Native { arch: self.architecture() }),
    {
        CompilationTarget::Native { arch: self.arch }
    }

    fn generate(&self, module: &WlirModule) -> (r: CompilerResult<GeneratedCode>)
        ensures
            r matches Ok(c) && spec_packaged(CompilationTarget::Native { arch: self.architecture() },
                spec_generated_text(CompilationTarget::Native { arch: self.architecture() }, *module), c),
    {
        let t = CompilationTarget::Native { arch: self.arch };
        Ok(package(t, render(t, module)))
    }

    fn name(&self) -> (s: &str)
        ensures
            s@ == "native-codegen"@,
    {
        "native-codegen"
    }
}

/// WebAssembly text for one environment.
pub struct WasmCodeGen {
    env: WasmEnvironment,
}

impl WasmCodeGen {
    /// The environment it generates for.
    pub closed spec fn environment(&self) -> WasmEnvironment {
        self.env
    }

    /// A generator for `env`.
    pub fn new(env: WasmEnvironment) -> (g: Self)
        ensures
            g.environment() == env,
    {
        WasmCodeGen { env }
    }
}

impl CodeGenerator for WasmCodeGen {
    fn target(&self) -> (t: CompilationTarget)
        ensures
            t == (CompilationTarget::Wasm { env: self.environment() }),
    {
        CompilationTarget::Wasm { env: self.env }
    }

    fn generate(&self, module: &WlirModule) -> (r: CompilerResult<GeneratedCode>)
        ensures
            r matches Ok(c) && spec_packaged(CompilationTarget::Wasm { env: self.environment() },
                spec_generated_text(CompilationTarget::Wasm { env: self.environment() }, *module), c),
    {
        let t = CompilationTarget::Wasm { env: self.env };
        Ok(package(t, render(t, module)))
    }

    fn name(&self) -> (s: &str)
        ensures
            s@ == "wasm-codegen"@,
    {
        "wasm-codegen"
    }
}

/// Direct operator calls.
pub struct OperatorCallCodeGen;

impl OperatorCallCodeGen {
    /// The generator.
    pub fn new() -> Self {
        OperatorCallCodeGen
    }
}

impl Default for OperatorCallCodeGen {
    fn default() -> Self {
        OperatorCallCodeGen
    }
}

impl CodeGenerator for OperatorCallCodeGen {
    fn target(&self) -> (t: CompilationTarget)
        ensures
            t == CompilationTarget::OperatorCall,
    {
        CompilationTarget::OperatorCall
    }

    fn generate(&self, module: &WlirModule) -> (r: CompilerResult<GeneratedCode>)
        ensures
            r matches Ok(c) && spec_packaged(CompilationTarget::OperatorCall,
                spec_generated_text(CompilationTarget::OperatorCall, *module), c),
    {
        let t = CompilationTarget::OperatorCall;
        Ok(package(t, render(t, module)))
    }

    fn name(&self) -> (s: &str)
        ensures
            s@ == "operator-call-codegen"@,
    {
        "operator-call-codegen"
    }
}

/// The interpreter's form: the module as pretty-printed JSON. The JSON
/// text is produced where the module is serialized and packaged here.
pub struct WlirInterpreterCodeGen;

impl WlirInterpreterCodeGen {
    /// The generator.
    pub fn new() -> Self {
        WlirInterpreterCodeGen
    }

    /// The target it produces.
    pub fn target(&self) -> (t: CompilationTarget)
        ensures
            t == CompilationTarget::Interpreted,
    {
        CompilationTarget::Interpreted
    }

    /// Packages the JSON form of a module.
    pub fn package_json(&self, json: String) -> (c: GeneratedCode)
        ensures
            spec_packaged(CompilationTarget::Interpreted, json@, c),
    {
        package(CompilationTarget::Interpreted, json)
    }

    /// Name of the generator.
    pub fn name(&self) -> (s: &str)
        ensures
            s@ == "wlir-interpreter"@,
    {
        "wlir-interpreter"
    }
}

impl Default for WlirInterpreterCodeGen {
    fn default() -> Self {
        WlirInterpreterCodeGen
    }
}

} // verus!
