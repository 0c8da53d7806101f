//! The adaptive compiler: its types, the intermediate representation it
//! reads, optimization passes, code generators and strategy evolution.

pub mod error;
pub mod ir;
pub mod types;
pub mod passes;
pub mod codegen;
pub mod strategy;
pub mod artifact;
pub mod compiler;
pub mod evolution;
