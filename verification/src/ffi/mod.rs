//! The foreign-facing layer over the embedding API: a flat configuration
//! record and an error whose every variant carries only its message.
pub mod config;
pub mod error;
