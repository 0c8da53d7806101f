//! Feedback to the observation layer about finished consequences.

use vstd::prelude::*;
use crate::consequence::types::{spec_consequence_terminal, ConsequenceRecord};

verus! {

/// The submission observation that a finished consequence produces:
/// how many stages (tests) were evaluated, how long it took, and whether
/// it was approved (succeeded).
#[derive(Clone, Debug, PartialEq, Eq)]
pub struct GateSubmissionSignal {
    pub stages_evaluated: u8,
    pub total_latency_ms: u64,
    pub approved: bool,
}

/// Turns consequence records into observation feedback.
#[derive(Clone, Debug)]
pub struct ObservationFeedback;

/// The feedback of a record: none until it is terminal; then the test
/// count (truncated to a byte), the duration (zero when unknown or
/// negative) and whether it succeeded.
pub open spec fn spec_feedback(r: ConsequenceRecord) -> Option<GateSubmissionSignal> {
    if !spec_consequence_terminal(r.status) {
        None
    } else {
        Some(GateSubmissionSignal {
            stages_evaluated: ((r.tests_passed + r.tests_failed) % 256) as u8,
            total_latency_ms: match r.duration_ms {
                Some(ms) => if ms < 0 { 0 } else { ms as u64 },
                None => 0,
            },
            approved: r.status is Succeeded,
        })
    }
}

impl ObservationFeedback {
    /// A feedback generator.
    pub fn new() -> (f: Self) {
        ObservationFeedback
    }

    /// The feedback for a record, once it is terminal.
    pub fn generate_feedback(&self, record: &ConsequenceRecord) -> (f: Option<GateSubmissionSignal>)
        ensures
            f == spec_feedback(*record),
    {
        if !record.status.is_terminal() {
            return None;
        }
        let approved = record.status.is_success();
        let total: u128 = (record.tests_passed as u128) + (record.tests_failed as u128);
        let stages = (total % 256) as u8;
        let latency: u64 = match record.duration_ms {
            Some(ms) => if ms < 0 { 0 } else { ms as u64 },
            None => 0,
        };
        Some(GateSubmissionSignal { stages_evaluated: stages, total_latency_ms: latency, approved })
    }
}

impl Default for ObservationFeedback {
    fn default() -> (f: Self) {
        ObservationFeedback
    }
}

} // verus!
