//! Verified core of the WorldLine self-regeneration substrate.
#![allow(unused_imports)]

pub mod bounded;
pub mod commitment;
pub mod compiler;
pub mod conformance;
pub mod consequence;
pub mod deployment;
pub mod evos;
pub mod hardware;
pub mod intent;
pub mod platform;
pub mod text;
