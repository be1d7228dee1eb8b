//! The check that a freshly built Lua state is the flavour that was asked
//! for. The engine builds one flavour and does not support LuaJIT.
use vstd::prelude::*;
use crate::engine::config::LuaVersion;
use crate::engine::error::{error_parts, ErrorKind, LuaError};
use crate::text::str_equal;

verus! {

/// The `_VERSION` a build of the requested flavour reports; LuaJIT has none
/// that this engine accepts.
pub open spec fn expected_version(v: LuaVersion) -> Option<Seq<char>> {
    match v {
        LuaVersion::Lua51 => Some("Lua 5.1"@),
        LuaVersion::Lua52 => Some("Lua 5.2"@),
        LuaVersion::Lua53 => Some("Lua 5.3"@),
        LuaVersion::Lua54 => Some("Lua 5.4"@),
        LuaVersion::Lua55 => Some("Lua 5.5"@),
        LuaVersion::Luau => Some("Luau"@),
        LuaVersion::LuaJit => None,
    }
}

/// The `_VERSION` a build of the requested flavour reports, if the engine
/// supports the flavour.
pub fn expected_version_str(v: LuaVersion) -> (r: Option<&'static str>)
    ensures
        r is Some <==> expected_version(v) is Some,
        r matches Some(s) ==> s@ == expected_version(v)->0,
{
    match v {
        LuaVersion::Lua51 => Some("Lua 5.1"),
        LuaVersion::Lua52 => Some("Lua 5.2"),
        LuaVersion::Lua53 => Some("Lua 5.3"),
        LuaVersion::Lua54 => Some("Lua 5.4"),
        LuaVersion::Lua55 => Some("Lua 5.5"),
        LuaVersion::Luau => Some("Luau"),
        LuaVersion::LuaJit => None,
    }
}

/// The message for a flavour the engine does not support.
pub open spec fn luajit_message() -> Seq<char> {
    "LuaJIT is not supported by this build"@
}

/// The `_VERSION` to expect for `v`, or the `UnsupportedVersion` error for
/// LuaJIT; asked before any state is built.
pub fn required_version(v: LuaVersion) -> (r: Result<&'static str, LuaError>)
    ensures
        r is Ok <==> expected_version(v) is Some,
        r matches Ok(s) ==> s@ == expected_version(v)->0,
        r matches Err(e) ==> error_parts(e) == (ErrorKind::UnsupportedVersion, luajit_message()),
{
    match expected_version_str(v) {
        Some(s) => Ok(s),
        None => Err(LuaError::UnsupportedVersion {
            msg: String::from_str("LuaJIT is not supported by this build"),
        }),
    }
}

/// The message for a build that reports another version.
pub open spec fn mismatch_message(expected: Seq<char>, actual: Seq<char>) -> Seq<char> {
    "requested "@ + expected + " but this build provides "@ + actual
}

/// Decides on a built state that reports `actual` as `_VERSION`: `Ok`
/// exactly when it is `expected`, else `UnsupportedVersion` naming both.
pub fn check_reported_version(expected: &str, actual: &str) -> (r: Result<(), LuaError>)
    ensures
        r is Ok <==> actual@ == expected@,
        r matches Err(e) ==> error_parts(e) == (ErrorKind::UnsupportedVersion, mismatch_message(expected@, actual@)),
{
    if !str_equal(actual, expected) {
        let mut msg = String::from_str("requested ");
        msg.append(expected);
        msg.append(" but this build provides ");
        msg.append(actual);
        return Err(LuaError::UnsupportedVersion { msg });
    }
    Ok(())
}

/// The engine accepts a state of the requested flavour exactly when the
/// flavour is supported and the state reports its `_VERSION` to the letter;
/// LuaJIT is never accepted.
pub proof fn lemma_accepted_builds(v: LuaVersion, actual: Seq<char>)
    ensures
        (expected_version(v) is Some && actual == expected_version(v)->0) <==> expected_version(v)
            == Some(actual),
        v == LuaVersion::LuaJit ==> expected_version(v) is None,
        v != LuaVersion::LuaJit ==> expected_version(v) is Some,
{
}

} // verus!
