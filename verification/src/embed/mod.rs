//! The embedding API: configuration, errors, version tags and the checks a
//! freshly built Lua state has to pass.
pub mod builder;
pub mod config;
pub mod error;
pub mod version;
pub mod runtime;
