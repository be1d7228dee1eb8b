//! Zero-size tags for each supported Lua build; the JIT tags carry their
//! tuning fields.
use vstd::prelude::*;
use crate::sealed::Sealed;

verus! {

pub struct Lua51;

pub struct Lua52;

pub struct Lua53;

pub struct Lua54;

pub struct Lua55;

pub struct LuaU;

/// LuaJIT with an optimisation level and hot-spot tracing.
pub struct LuaJit {
    /// 0 is off, 1 to 3 are progressively stronger optimisation.
    pub optimize_level: u8,
    /// Trace and compile hot loops.
    pub enable_hotspot: bool,
}

/// LuaJIT in its Lua 5.2 compatibility mode.
pub struct LuaJit52 {
    pub optimize_level: u8,
    pub enable_hotspot: bool,
}

impl Default for LuaJit {
    /// Optimisation level 2, hot-spot tracing on.
    fn default() -> (j: Self)
        ensures
            j.optimize_level == 2,
            j.enable_hotspot,
    {
        LuaJit { optimize_level: 2, enable_hotspot: true }
    }
}

impl Default for LuaJit52 {
    /// Optimisation level 2, hot-spot tracing on.
    fn default() -> (j: Self)
        ensures
            j.optimize_level == 2,
            j.enable_hotspot,
    {
        LuaJit52 { optimize_level: 2, enable_hotspot: true }
    }
}

/// Marker for every supported Lua version tag; sealed, so no other crate
/// can add one.
pub trait LuaVersionTag: Sealed {
}

/// The tags of JIT-capable builds, which alone may start a JIT runtime.
pub trait JitCapable: LuaVersionTag {
}

impl Sealed for Lua51 {
}

impl Sealed for Lua52 {
}

impl Sealed for Lua53 {
}

impl Sealed for Lua54 {
}

impl Sealed for Lua55 {
}

impl Sealed for LuaU {
}

impl Sealed for LuaJit {
}

impl Sealed for LuaJit52 {
}

impl LuaVersionTag for Lua51 {
}

impl LuaVersionTag for Lua52 {
}

impl LuaVersionTag for Lua53 {
}

impl LuaVersionTag for Lua54 {
}

impl LuaVersionTag for Lua55 {
}

impl LuaVersionTag for LuaU {
}

impl LuaVersionTag for LuaJit {
}

impl LuaVersionTag for LuaJit52 {
}

impl JitCapable for LuaJit {
}

impl JitCapable for LuaJit52 {
}

} // verus!
