//! Errors of the compiler.

use vstd::prelude::*;

verus! {

/// An error of the compiler.
#[derive(Clone, Debug)]
pub enum CompilerError {
    /// The module has not been fully verified.
    ModuleNotVerified(String),
    /// Code generation failed.
    CodeGenerationFailed(String),
    /// A required setting is missing or invalid.
    ConfigurationError(String),
}

/// Display form of an error.
pub open spec fn spec_compiler_error_text(e: CompilerError) -> Seq<char> {
    match e {
        CompilerError::ModuleNotVerified(m) => "module not verified: "@ + m@,
        CompilerError::CodeGenerationFailed(m) => "code generation failed: "@ + m@,
        CompilerError::ConfigurationError(m) => "configuration error: "@ + m@,
    }
}

impl CompilerError {
    /// Renders the error with its message.
    pub fn to_string(&self) -> (s: String)
        ensures
            s@ == spec_compiler_error_text(*self),
    {
        let (prefix, m) = match self {
            CompilerError::ModuleNotVerified(m) => ("module not verified: ", m),
            CompilerError::CodeGenerationFailed(m) => ("code generation failed: ", m),
            CompilerError::ConfigurationError(m) => ("configuration error: ", m),
        };
        let mut s = String::from_str(prefix);
        s.append(m.as_str());
        s
    }
}

/// Result of a compiler operation.
pub type CompilerResult<T> = Result<T, CompilerError>;

} // verus!
