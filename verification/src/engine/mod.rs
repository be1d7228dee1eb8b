//! The sandboxed engine: its options, its errors, the execution budget of a
//! script, the check of the Lua build and the log level.
pub mod config;
pub mod error;
pub mod guard;
pub mod logger;
pub mod runtime;
