//! EVOS: the cycle that ties the fourteen subsystems together.

pub mod health;
pub mod report;
pub mod substrate;
pub mod types;
