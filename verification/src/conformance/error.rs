//! Errors of conformance runs.

use vstd::prelude::*;

verus! {

/// An error of a conformance run.
#[derive(Clone, Debug)]
pub enum ConformanceError {
    /// The run's configuration names something unknown.
    InvalidConfiguration(String),
}

/// Display form of an error.
pub open spec fn spec_conformance_error_text(e: ConformanceError) -> Seq<char> {
    match e {
        ConformanceError::InvalidConfiguration(m) => "invalid configuration: "@ + m@,
    }
}

impl ConformanceError {
    /// Renders the error (`invalid configuration: <message>`).
    pub fn to_string(&self) -> (s: String)
        ensures
            s@ == spec_conformance_error_text(*self),
    {
        match self {
            ConformanceError::InvalidConfiguration(m) => {
                let mut s = String::from_str("invalid configuration: ");
                s.append(m.as_str());
                s
            },
        }
    }
}

/// Result of a conformance operation.
pub type ConformanceResult<T> = Result<T, ConformanceError>;

} // verus!
