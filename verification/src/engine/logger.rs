//! Log verbosity of the host.
use vstd::prelude::*;

verus! {

/// The level type of the tracing crate, carried through unchanged.
#[verifier::external_type_specification]
#[verifier::external_body]
pub struct ExLevel(tracing::Level);

/// Log verbosity, from the most severe messages only to everything.
#[derive(Debug, Clone, Copy, PartialEq, Eq, Structural)]
pub enum LogLevel {
    Error,
    Warn,
    Info,
    Debug,
    Trace,
}

impl From<LogLevel> for tracing::Level {
    /// `Error`, `Warn`, `Info`, `Debug` and `Trace` become the tracing
    /// constants `ERROR`, `WARN`, `INFO`, `DEBUG` and `TRACE`. The body only
    /// picks the constant of each variant; `tracing::Level` is opaque here,
    /// so nothing is stated of the result.
    #[verifier::external_body]
    fn from(value: LogLevel) -> Self {
        match value {
            LogLevel::Error => tracing::Level::ERROR,
            LogLevel::Warn => tracing::Level::WARN,
            LogLevel::Info => tracing::Level::INFO,
            LogLevel::Debug => tracing::Level::DEBUG,
            LogLevel::Trace => tracing::Level::TRACE,
        }
    }
}

} // verus!
