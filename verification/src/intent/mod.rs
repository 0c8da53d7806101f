//! Self-regeneration intents: their identifiers, proposals and validation
//! results.

pub mod error;
pub mod proposal;
pub mod types;
pub mod validator;
