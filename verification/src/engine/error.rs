//! Errors of the sandboxed engine.
use vstd::prelude::*;
use crate::embed::error::LuaFailure;
use crate::engine::guard::{limit_message, LimitExceeded};

verus! {

/// Errors of the sandboxed engine. `ResourceLimit` tells a script that the
/// sandbox stopped apart from one that failed on its own.
#[derive(Debug, Clone, PartialEq, Eq)]
pub enum LuaError {
    Syntax { msg: String },
    Runtime { msg: String },
    ResourceLimit { msg: String },
    UnsupportedVersion { msg: String },
    Other { msg: String },
}

/// The kinds of [`LuaError`].
#[derive(Debug, Clone, Copy, PartialEq, Eq, Structural)]
pub enum ErrorKind {
    Syntax,
    Runtime,
    ResourceLimit,
    UnsupportedVersion,
    Other,
}

/// The kind and message of an engine error.
pub open spec fn error_parts(e: LuaError) -> (ErrorKind, Seq<char>) {
    match e {
        LuaError::Syntax { msg } => (ErrorKind::Syntax, msg@),
        LuaError::Runtime { msg } => (ErrorKind::Runtime, msg@),
        LuaError::ResourceLimit { msg } => (ErrorKind::ResourceLimit, msg@),
        LuaError::UnsupportedVersion { msg } => (ErrorKind::UnsupportedVersion, msg@),
        LuaError::Other { msg } => (ErrorKind::Other, msg@),
    }
}

/// The error a failure of the engine becomes. When the failure was raised
/// by the execution guard (`limit` is the guard's verdict found in the
/// failure's causes), it is a `ResourceLimit` with the guard's message;
/// otherwise syntax and runtime failures keep their kind and message, and
/// anything else is `Other` with its text.
pub open spec fn error_of_failure(failure: LuaFailure, limit: Option<LimitExceeded>) -> (ErrorKind, Seq<char>) {
    match limit {
        Some(l) => (ErrorKind::ResourceLimit, limit_message(l)),
        None => match failure {
            LuaFailure::Syntax { message } => (ErrorKind::Syntax, message@),
            LuaFailure::Runtime { message } => (ErrorKind::Runtime, message@),
            LuaFailure::Other { rendered } => (ErrorKind::Other, rendered@),
        },
    }
}

impl LuaError {
    /// The error a failure of the engine becomes; see [`error_of_failure`].
    pub fn from_failure(failure: LuaFailure, limit: Option<LimitExceeded>) -> (e: LuaError)
        ensures
            error_parts(e) == error_of_failure(failure, limit),
    {
        match limit {
            Some(l) => LuaError::ResourceLimit { msg: l.message() },
            None => match failure {
                LuaFailure::Syntax { message } => LuaError::Syntax { msg: message },
                LuaFailure::Runtime { message } => LuaError::Runtime { msg: message },
                LuaFailure::Other { rendered } => LuaError::Other { msg: rendered },
            },
        }
    }

    /// The kind of the error.
    pub fn kind(&self) -> (k: ErrorKind)
        ensures
            k == error_parts(*self).0,
    {
        match self {
            LuaError::Syntax { .. } => ErrorKind::Syntax,
            LuaError::Runtime { .. } => ErrorKind::Runtime,
            LuaError::ResourceLimit { .. } => ErrorKind::ResourceLimit,
            LuaError::UnsupportedVersion { .. } => ErrorKind::UnsupportedVersion,
            LuaError::Other { .. } => ErrorKind::Other,
        }
    }

    /// The message the error carries.
    pub fn message(&self) -> (m: &str)
        ensures
            m@ == error_parts(*self).1,
    {
        match self {
            LuaError::Syntax { msg } => msg.as_str(),
            LuaError::Runtime { msg } => msg.as_str(),
            LuaError::ResourceLimit { msg } => msg.as_str(),
            LuaError::UnsupportedVersion { msg } => msg.as_str(),
            LuaError::Other { msg } => msg.as_str(),
        }
    }
}

/// A script that the guard stopped fails with `ResourceLimit` and the
/// guard's message, whatever else the engine reported of the failure.
pub proof fn lemma_stopped_script_error(
    g: crate::engine::guard::GuardView,
    now: u64,
    failure: LuaFailure,
)
    requires
        crate::engine::guard::check_outcome(g, now) is Err,
    ensures
        ({
            let l = crate::engine::guard::check_outcome(g, now)->Err_0;
            error_of_failure(failure, Some(l)) == (ErrorKind::ResourceLimit, limit_message(l))
        }),
{
}

} // verus!
