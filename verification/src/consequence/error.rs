//! Errors of consequence execution.

use vstd::prelude::*;

verus! {

/// What can go wrong while executing a consequence.
#[derive(Debug)]
pub enum ConsequenceError {
    ExecutionFailed(String),
    RollbackFailed(String),
    ReceiptError(String),
    CommitmentNotApproved(String),
    FeedbackError(String),
    ConfigurationError(String),
}

/// Error message of a consequence error.
pub open spec fn spec_consequence_error_text(e: ConsequenceError) -> Seq<char> {
    match e {
        ConsequenceError::ExecutionFailed(m) => "execution failed: "@ + m@,
        ConsequenceError::RollbackFailed(m) => "rollback failed: "@ + m@,
        ConsequenceError::ReceiptError(m) => "receipt error: "@ + m@,
        ConsequenceError::CommitmentNotApproved(m) => "commitment not approved: "@ + m@,
        ConsequenceError::FeedbackError(m) => "feedback error: "@ + m@,
        ConsequenceError::ConfigurationError(m) => "configuration error: "@ + m@,
    }
}

impl ConsequenceError {
    /// The error message.
    pub fn to_string(&self) -> (s: String)
        ensures
            s@ == spec_consequence_error_text(*self),
    {
        let (p, m) = match self {
            ConsequenceError::ExecutionFailed(m) => ("execution failed: ", m),
            ConsequenceError::RollbackFailed(m) => ("rollback failed: ", m),
            ConsequenceError::ReceiptError(m) => ("receipt error: ", m),
            ConsequenceError::CommitmentNotApproved(m) => ("commitment not approved: ", m),
            ConsequenceError::FeedbackError(m) => ("feedback error: ", m),
            ConsequenceError::ConfigurationError(m) => ("configuration error: ", m),
        };
        let mut s = String::from_str(p);
        s.append(m.as_str());
        s
    }
}

/// Result of a consequence operation.
pub type ConsequenceResult<T> = Result<T, ConsequenceError>;

} // verus!
