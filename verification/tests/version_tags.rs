use luna::embed::builder::{JitStats, LuaOption};
use luna::embed::config::LuaStdLib;
use luna::embed::version::{Lua54, LuaJit, LuaJit52};

#[test]
fn lua_jit_default_level_and_hotspot() {
    let j = LuaJit::default();
    assert_eq!(j.optimize_level, 2);
    assert!(j.enable_hotspot);
}

#[test]
fn lua_jit52_default_level_and_hotspot() {
    let j = LuaJit52::default();
    assert_eq!(j.optimize_level, 2);
    assert!(j.enable_hotspot);
}

#[test]
fn custom_jit_fields() {
    let j = LuaJit { optimize_level: 0, enable_hotspot: false };
    assert_eq!(j.optimize_level, 0);
    assert!(!j.enable_hotspot);
}

#[test]
fn typed_option_holds_its_tag() {
    let o = LuaOption { stdlib: LuaStdLib::Safe, version: Lua54 };
    assert_eq!(o.stdlib, LuaStdLib::Safe);
    let j = LuaOption { stdlib: LuaStdLib::All, version: LuaJit::default() };
    assert_eq!(j.version.optimize_level, 2);
}

#[test]
fn jit_stats_without_jit_are_zero() {
    let s = JitStats::without_jit();
    assert_eq!(s.traces_compiled, 0);
    assert_eq!(s.traces_aborted, 0);
}
