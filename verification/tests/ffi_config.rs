use luna::embed::config as embed;
use luna::ffi::config::{LuaStdLib, LuaVersion, LunaConfig};

#[test]
fn ffi_config_default() {
    let c = LunaConfig::default();
    assert!(!c.sandbox);
    assert_eq!(c.stdlib, LuaStdLib::All);
    assert_eq!(c.version, LuaVersion::Lua54);
}

#[test]
fn ffi_config_splits_into_embed_options() {
    let c = LunaConfig { sandbox: true, stdlib: LuaStdLib::Safe, version: LuaVersion::Luau };
    let (cfg, opt): (embed::LunaConfig, embed::LuaOption) = c.into();
    assert!(cfg.sandbox);
    assert_eq!(opt.stdlib, embed::LuaStdLib::Safe);
    assert_eq!(opt.version, embed::LuaVersion::Luau);
}

#[test]
fn ffi_enums_map_one_to_one() {
    assert_eq!(embed::LuaStdLib::from(LuaStdLib::Empty), embed::LuaStdLib::Empty);
    assert_eq!(embed::LuaStdLib::from(LuaStdLib::All), embed::LuaStdLib::All);
    assert_eq!(embed::LuaVersion::from(LuaVersion::LuaJit), embed::LuaVersion::LuaJit);
    assert_eq!(embed::LuaVersion::from(LuaVersion::Lua51), embed::LuaVersion::Lua51);
    assert_eq!(embed::LuaVersion::from(LuaVersion::Lua55), embed::LuaVersion::Lua55);
}
