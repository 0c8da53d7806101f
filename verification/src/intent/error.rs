//! Errors of the intent layer.

use vstd::prelude::*;

verus! {

/// What can go wrong while forming intents.
#[derive(Debug)]
pub enum IntentError {
    GenerationFailed(String),
    ValidationFailed(String),
    PrioritizationFailed(String),
    DeferralError(String),
    ProposalError(String),
    ConfigurationError(String),
}

/// Error message of an intent error.
pub open spec fn spec_intent_error_text(e: IntentError) -> Seq<char> {
    match e {
        IntentError::GenerationFailed(m) => "intent generation failed: "@ + m@,
        IntentError::ValidationFailed(m) => "intent validation failed: "@ + m@,
        IntentError::PrioritizationFailed(m) => "prioritization failed: "@ + m@,
        IntentError::DeferralError(m) => "deferral error: "@ + m@,
        IntentError::ProposalError(m) => "proposal error: "@ + m@,
        IntentError::ConfigurationError(m) => "configuration error: "@ + m@,
    }
}

impl IntentError {
    /// The error message.
    pub fn to_string(&self) -> (s: String)
        ensures
            s@ == spec_intent_error_text(*self),
    {
        let (p, m) = match self {
            IntentError::GenerationFailed(m) => ("intent generation failed: ", m),
            IntentError::ValidationFailed(m) => ("intent validation failed: ", m),
            IntentError::PrioritizationFailed(m) => ("prioritization failed: ", m),
            IntentError::DeferralError(m) => ("deferral error: ", m),
            IntentError::ProposalError(m) => ("proposal error: ", m),
            IntentError::ConfigurationError(m) => ("configuration error: ", m),
        };
        let mut s = String::from_str(p);
        s.append(m.as_str());
        s
    }
}

/// Result of an intent operation.
pub type IntentResult<T> = Result<T, IntentError>;

} // verus!
