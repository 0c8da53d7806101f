//! Feedback to the observation layer about finished deployments.

use vstd::prelude::*;
use crate::consequence::feedback::GateSubmissionSignal;
use crate::deployment::types::{spec_deployment_duration, spec_deployment_terminal, DeploymentRecord};

verus! {

/// Turns deployment records into observation feedback.
pub struct DeploymentFeedback;

/// The feedback of a record: none until it is terminal; then the number
/// of completed phases (truncated to a byte), the duration (zero when
/// unknown, wrapped when negative) and whether it succeeded.
pub open spec fn spec_deployment_feedback(r: DeploymentRecord) -> Option<GateSubmissionSignal> {
    if !spec_deployment_terminal(r.status) {
        None
    } else {
        Some(GateSubmissionSignal {
            stages_evaluated: (r.phases_completed@.len() % 256) as u8,
            total_latency_ms: match spec_deployment_duration(r) {
                Some(ms) => ms as u64,
                None => 0,
            },
            approved: r.status is Succeeded,
        })
    }
}

impl DeploymentFeedback {
    /// The feedback for a record, once it is terminal.
    pub fn generate_feedback(record: &DeploymentRecord) -> (f: Option<GateSubmissionSignal>)
        ensures
            f == spec_deployment_feedback(*record),
    {
        if !record.status.is_terminal() {
            return None;
        }
        let duration: i64 = match record.duration_ms() {
            Some(d) => d,
            None => 0,
        };
        let stages = (record.phase_count() % 256) as u8;
        Some(GateSubmissionSignal {
            stages_evaluated: stages,
            total_latency_ms: duration as u64,
            approved: record.status.is_success(),
        })
    }
}

} // verus!
