//! Orchestration logic for generating Rust bindings from protobuf schema
//! files: how a run is configured, which external commands it issues and in
//! which order, how the compiler's version is read, and which files of a
//! directory walk are handed to the compiler.
//!
//! Everything here works on plain values. Running processes and touching the
//! file system is left to the caller, which performs each step and reports
//! back how it went.

pub mod paths;
pub mod config;
pub mod pipeline;
pub mod invocation;
pub mod version;
pub mod discovery;
pub mod assets;
pub mod report;
pub mod run;

pub use config::{gen_protos, ConfigError, GenProtos};
