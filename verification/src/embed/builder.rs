//! The plain parts of the typed VM builder: its options and the JIT
//! counters.
use vstd::prelude::*;
use crate::embed::config::LuaStdLib;
use crate::embed::version::LuaVersionTag;

verus! {

/// Engine options of a typed builder: the standard library subset and the
/// version tag that selects the build.
pub struct LuaOption<V: LuaVersionTag> {
    pub stdlib: LuaStdLib,
    pub version: V,
}

/// JIT trace counters.
#[derive(Debug, Clone, Copy)]
pub struct JitStats {
    pub traces_compiled: u64,
    pub traces_aborted: u64,
}

impl JitStats {
    /// The counters of a build without a JIT compiler: both zero.
    pub fn without_jit() -> (s: JitStats)
        ensures
            s.traces_compiled == 0,
            s.traces_aborted == 0,
    {
        JitStats { traces_compiled: 0, traces_aborted: 0 }
    }
}

} // verus!
