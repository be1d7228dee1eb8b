//! The error offered to foreign callers: the four kinds of the embedding
//! API, each with its message.
use vstd::prelude::*;
use vstd::std_specs::convert::FromSpecImpl;
use crate::embed::error::Error as CoreError;

verus! {

/// Errors offered to foreign callers.
#[derive(Debug, Clone, PartialEq, Eq)]
pub enum LuaError {
    Syntax { msg: String },
    Runtime { msg: String },
    UnsupportedVersion { msg: String },
    Other { msg: String },
}

/// The same kind and message.
pub open spec fn from_core(e: CoreError) -> LuaError {
    match e {
        CoreError::Syntax { msg } => LuaError::Syntax { msg },
        CoreError::Runtime { msg } => LuaError::Runtime { msg },
        CoreError::UnsupportedVersion { msg } => LuaError::UnsupportedVersion { msg },
        CoreError::Other { msg } => LuaError::Other { msg },
    }
}

impl From<CoreError> for LuaError {
    fn from(e: CoreError) -> (r: Self)
        ensures
            r == from_core(e),
    {
        match e {
            CoreError::Syntax { msg } => LuaError::Syntax { msg },
            CoreError::Runtime { msg } => LuaError::Runtime { msg },
            CoreError::UnsupportedVersion { msg } => LuaError::UnsupportedVersion { msg },
            CoreError::Other { msg } => LuaError::Other { msg },
        }
    }
}

impl FromSpecImpl<CoreError> for LuaError {
    open spec fn obeys_from_spec() -> bool {
        true
    }

    open spec fn from_spec(e: CoreError) -> Self {
        from_core(e)
    }
}

impl LuaError {
    /// The message the error carries; it is the error's whole text.
    pub fn message(&self) -> (m: &str)
        ensures
            m@ == match self {
                LuaError::Syntax { msg } => msg@,
                LuaError::Runtime { msg } => msg@,
                LuaError::UnsupportedVersion { msg } => msg@,
                LuaError::Other { msg } => msg@,
            },
    {
        match self {
            LuaError::Syntax { msg } => msg.as_str(),
            LuaError::Runtime { msg } => msg.as_str(),
            LuaError::UnsupportedVersion { msg } => msg.as_str(),
            LuaError::Other { msg } => msg.as_str(),
        }
    }
}

} // verus!
