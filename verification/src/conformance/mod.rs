//! Conformance of the WorldLine safety invariants: their inventory and
//! categories, which of them a run covers, and its report.

pub mod error;
pub mod types;
pub mod invariants;
pub mod runner;
pub mod report;
pub mod run;
