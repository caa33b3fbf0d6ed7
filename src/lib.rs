//! Builds course task artifacts with a per-build secret flag embedded in each.
//!
//! The library holds the decisions of a build: flag derivation, flag-type
//! binding, environment assembly and output validation. Running the builder
//! process and touching the file system is left to the caller, which hands
//! the outcomes back as plain values.
pub mod build_process;
pub mod config;
pub mod error;
pub mod flag;
pub mod instance;
pub mod laws;
pub mod primitives;
pub mod resolver;
