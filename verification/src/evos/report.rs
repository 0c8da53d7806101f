//! Per-subsystem summaries of a cycle.

use vstd::prelude::*;
use std::collections::HashMap;
use vstd::std_specs::hash::spec_hash_map_len;
use crate::evos::types::{spec_status_text, spec_subsystem_name, SubsystemId, SubsystemStatus};
use crate::text::decimal;
use crate::text::decimal_string;

verus! {

/// Summary of one subsystem's part in a cycle.
#[derive(Clone, Debug)]
pub struct SubsystemSummaryEntry {
    /// Which subsystem.
    pub subsystem_id: SubsystemId,
    /// Its status during the cycle.
    pub status: SubsystemStatus,
    /// Key metrics as name-value pairs.
    pub metrics: HashMap<String, String>,
}

impl SubsystemSummaryEntry {
    /// Renders the entry as `<subsystem>(status=<status>, metrics=<count>)`.
    pub fn to_string(&self) -> (s: String)
        ensures
            s@ == spec_subsystem_name(self.subsystem_id) + "(status="@ + spec_status_text(self.status)
                + ", metrics="@ + decimal(spec_hash_map_len(&self.metrics) as nat) + ")"@,
    {
        let mut s = self.subsystem_id.to_string();
        s.append("(status=");
        s.append(self.status.to_string().as_str());
        s.append(", metrics=");
        s.append(decimal_string(self.metrics.len() as u64).as_str());
        s.append(")");
        s
    }
}

} // verus!
