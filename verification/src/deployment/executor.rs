//! Results of deploying files.

use vstd::prelude::*;

verus! {

/// Result of deploying files at one traffic share.
#[derive(Clone, Debug)]
pub struct FileDeployResult {
    pub files_written: usize,
    pub success: bool,
    pub output: String,
    pub duration_ms: i64,
}

} // verus!
