//! Self-commitment: observation periods and the lifecycle of commitments
//! from submission to outcome.

pub mod engine;
pub mod lifecycle;
pub mod mapper;
pub mod observation;
pub mod types;
