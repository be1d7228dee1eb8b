//! Errors of the embedding API, and the plain description of a failure that
//! the Lua engine reported (the host reads an `mlua::Error` into a
//! [`LuaFailure`]).
use vstd::prelude::*;

verus! {

/// What the host reads of a failure that the Lua engine reported.
#[derive(Debug, Clone, PartialEq, Eq)]
pub enum LuaFailure {
    /// The chunk did not parse; `message` is the parser's message.
    Syntax { message: String },
    /// The chunk raised an error; `message` is its message.
    Runtime { message: String },
    /// Any other failure, as the engine renders it.
    Other { rendered: String },
}

/// Errors of the embedding API.
#[derive(Debug, Clone, PartialEq, Eq)]
pub enum Error {
    Syntax { msg: String },
    Runtime { msg: String },
    UnsupportedVersion { msg: String },
    Other { msg: String },
}

/// The error a failure of the engine becomes: syntax and runtime failures
/// keep their kind and message; anything else is `Other` with its text.
pub open spec fn error_of_failure(f: LuaFailure) -> Error {
    match f {
        LuaFailure::Syntax { message } => Error::Syntax { msg: message },
        LuaFailure::Runtime { message } => Error::Runtime { msg: message },
        LuaFailure::Other { rendered } => Error::Other { msg: rendered },
    }
}

/// The text of an error.
pub open spec fn error_text(e: Error) -> Seq<char> {
    match e {
        Error::Syntax { msg } => "syntax error: "@ + msg@,
        Error::Runtime { msg } => "runtime error: "@ + msg@,
        Error::UnsupportedVersion { msg } => "unsupported version: "@ + msg@,
        Error::Other { msg } => msg@,
    }
}

impl Error {
    /// The error a failure of the engine becomes.
    pub fn from_failure(f: LuaFailure) -> (e: Error)
        ensures
            e == error_of_failure(f),
    {
        match f {
            LuaFailure::Syntax { message } => Error::Syntax { msg: message },
            LuaFailure::Runtime { message } => Error::Runtime { msg: message },
            LuaFailure::Other { rendered } => Error::Other { msg: rendered },
        }
    }

    /// The error's text: the message after a prefix that names the kind
    /// (`syntax error: `, `runtime error: `, `unsupported version: `); an
    /// `Other` error is its message alone.
    pub fn text(&self) -> (t: String)
        ensures
            t@ == error_text(*self),
    {
        match self {
            Error::Syntax { msg } => String::from_str("syntax error: ").concat(msg.as_str()),
            Error::Runtime { msg } => String::from_str("runtime error: ").concat(msg.as_str()),
            Error::UnsupportedVersion { msg } => String::from_str("unsupported version: ").concat(
                msg.as_str(),
            ),
            Error::Other { msg } => String::from_str(msg.as_str()),
        }
    }

    /// The message the error carries.
    pub fn message(&self) -> (m: &str)
        ensures
            m@ == match self {
                Error::Syntax { msg } => msg@,
                Error::Runtime { msg } => msg@,
                Error::UnsupportedVersion { msg } => msg@,
                Error::Other { msg } => msg@,
            },
    {
        match self {
            Error::Syntax { msg } => msg.as_str(),
            Error::Runtime { msg } => msg.as_str(),
            Error::UnsupportedVersion { msg } => msg.as_str(),
            Error::Other { msg } => msg.as_str(),
        }
    }
}

} // verus!
