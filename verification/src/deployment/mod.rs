//! Deployment of generated code: records, rollback and the engine that
//! settles each deployment.

pub mod types;
pub mod error;
pub mod feedback;
pub mod rollback;
pub mod engine;
pub mod executor;
