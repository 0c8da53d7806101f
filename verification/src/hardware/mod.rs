//! Hardware generation for the EVOS Processing Unit: EPU design,
//! governance, HDL generation and simulation.

pub mod types;
pub mod epu;
pub mod error;
pub mod governance;
pub mod hdl;
pub mod simulation;
