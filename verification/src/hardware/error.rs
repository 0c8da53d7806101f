//! Errors of hardware generation.

use vstd::prelude::*;

verus! {

/// An error of hardware generation.
#[derive(Clone, Debug)]
pub enum HardwareError {
    /// Governance did not approve the generation.
    GovernanceRequired(String),
}

/// Display form of an error.
pub open spec fn spec_hardware_error_text(e: HardwareError) -> Seq<char> {
    match e {
        HardwareError::GovernanceRequired(m) => "governance required: "@ + m@,
    }
}

impl HardwareError {
    /// Renders the error (`governance required: <message>`).
    pub fn to_string(&self) -> (s: String)
        ensures
            s@ == spec_hardware_error_text(*self),
    {
        match self {
            HardwareError::GovernanceRequired(m) => {
                let mut s = String::from_str("governance required: ");
                s.append(m.as_str());
                s
            },
        }
    }
}

/// Result of a hardware operation.
pub type HardwareResult<T> = Result<T, HardwareError>;

} // verus!
