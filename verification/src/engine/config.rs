//! Options of the sandboxed engine.
use vstd::prelude::*;

verus! {

/// Which part of the Lua standard library a state opens.
#[derive(Debug, Clone, Copy, PartialEq, Eq, Structural)]
pub enum LuaStdLib {
    /// Every safe library, and `debug`.
    All,
    /// Only `table`, `string`, `math` and `coroutine`.
    Safe,
    /// No library at all.
    Empty,
}

/// The Lua flavour a caller asks for.
#[derive(Debug, Clone, Copy, PartialEq, Eq, Structural)]
pub enum LuaVersion {
    Lua51,
    Lua52,
    Lua53,
    Lua54,
    Lua55,
    Luau,
    LuaJit,
}

/// Engine options: version, standard library, and the limits of the
/// sandbox. A limit left at `None` is not enforced.
#[derive(Debug, Clone, Copy)]
pub struct LuaOption {
    pub version: LuaVersion,
    pub stdlib: LuaStdLib,
    /// Bytes the Lua heap may use.
    pub memory_limit: Option<u64>,
    /// VM instructions one top-level call may run.
    pub instruction_limit: Option<u64>,
    /// Nanoseconds one top-level call may take.
    pub timeout_nanos: Option<u64>,
}

} // verus!
