use vstd::prelude::*;

verus! {

/// Which part of the Lua standard library a state opens.
#[derive(Debug, Clone, Copy, PartialEq, Eq, Structural)]
pub enum LuaStdLib {
    /// Every library that is safe to open.
    All,
    /// Only `table`, `string`, `math` and `coroutine`.
    Safe,
    /// No library at all.
    Empty,
}

/// The Lua flavour a caller asks for.
#[derive(Debug, Clone, Copy, PartialEq, Eq, Structural)]
pub enum LuaVersion {
    Lua51,
    Lua52,
    Lua53,
    Lua54,
    Lua55,
    Luau,
    LuaJit,
}

/// Runtime behaviour: a sandboxed runtime loads no host module.
#[derive(Debug, Clone, Copy)]
pub struct LunaConfig {
    pub sandbox: bool,
}

impl Default for LunaConfig {
    /// Not sandboxed.
    fn default() -> (c: Self)
        ensures
            !c.sandbox,
    {
        LunaConfig { sandbox: false }
    }
}

/// Engine options: which standard library subset and which Lua version.
#[derive(Debug, Clone, Copy)]
pub struct LuaOption {
    pub stdlib: LuaStdLib,
    pub version: LuaVersion,
}

impl Default for LuaOption {
    /// The whole safe standard library of Lua 5.4.
    fn default() -> (o: Self)
        ensures
            o.stdlib == LuaStdLib::All,
            o.version == LuaVersion::Lua54,
    {
        LuaOption { stdlib: LuaStdLib::All, version: LuaVersion::Lua54 }
    }
}

} // verus!
