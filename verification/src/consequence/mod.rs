//! Consequences: executing approved self-modifications, rolling them back
//! on failure, and issuing receipts.

pub mod engine;
pub mod error;
pub mod executor;
pub mod feedback;
pub mod receipt;
pub mod rollback;
pub mod types;
