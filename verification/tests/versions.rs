use luna::embed::config::{LuaOption, LuaStdLib, LuaVersion, LunaConfig};
use luna::embed::error::Error;
use luna::embed::runtime::{check_reported_build, version_label};
use luna::engine::config::LuaVersion as EngineVersion;
use luna::engine::error::{ErrorKind, LuaError};
use luna::engine::runtime::{check_reported_version, expected_version_str, required_version};

#[test]
fn embed_defaults() {
    assert!(!LunaConfig::default().sandbox);
    let o = LuaOption::default();
    assert_eq!(o.stdlib, LuaStdLib::All);
    assert_eq!(o.version, LuaVersion::Lua54);
}

#[test]
fn build_check_accepts_matching_prefix() {
    assert!(check_reported_build(LuaVersion::Lua54, "Lua 5.4", false).is_ok());
    assert!(check_reported_build(LuaVersion::Lua51, "Lua 5.1", true).is_ok());
    assert!(check_reported_build(LuaVersion::Luau, "Luau 0.6", false).is_ok());
    assert!(check_reported_build(LuaVersion::LuaJit, "Lua 5.1", true).is_ok());
}

#[test]
fn build_check_refuses_other_builds() {
    assert_eq!(
        check_reported_build(LuaVersion::Lua51, "Lua 5.4", false),
        Err(Error::UnsupportedVersion { msg: "Lua51 requested but build provides \"Lua 5.4\"".to_string() })
    );
    assert_eq!(
        check_reported_build(LuaVersion::LuaJit, "Lua 5.1", false),
        Err(Error::UnsupportedVersion { msg: "LuaJit requested but build provides \"Lua 5.1\"".to_string() })
    );
    assert!(check_reported_build(LuaVersion::Lua53, "", false).is_err());
    assert!(check_reported_build(LuaVersion::Lua55, "Lua 5", false).is_err());
}

#[test]
fn version_labels() {
    assert_eq!(version_label(LuaVersion::Luau), "Luau");
    assert_eq!(version_label(LuaVersion::Lua52), "Lua52");
}

#[test]
fn expected_version_strings() {
    assert_eq!(expected_version_str(EngineVersion::Lua51), Some("Lua 5.1"));
    assert_eq!(expected_version_str(EngineVersion::Lua54), Some("Lua 5.4"));
    assert_eq!(expected_version_str(EngineVersion::Luau), Some("Luau"));
    assert_eq!(expected_version_str(EngineVersion::LuaJit), None);
}

#[test]
fn luajit_is_never_required() {
    let e = required_version(EngineVersion::LuaJit).unwrap_err();
    assert_eq!(e, LuaError::UnsupportedVersion { msg: "LuaJIT is not supported by this build".to_string() });
    assert_eq!(required_version(EngineVersion::Lua53).unwrap(), "Lua 5.3");
}

#[test]
fn reported_version_must_match_exactly() {
    assert!(check_reported_version("Lua 5.4", "Lua 5.4").is_ok());
    let e = check_reported_version("Lua 5.1", "Lua 5.4").unwrap_err();
    assert_eq!(e.kind(), ErrorKind::UnsupportedVersion);
    assert_eq!(e.message(), "requested Lua 5.1 but this build provides Lua 5.4");
    assert!(check_reported_version("Lua 5.4", "Lua 5.4.6").is_err());
}

// The engine is built with Lua 5.4, whose states report "Lua 5.4".
const BUILD_REPORTS: &str = "Lua 5.4";

#[test]
fn wrong_version_returns_unsupported_error() {
    let expected = required_version(EngineVersion::Lua51).unwrap();
    let result = check_reported_version(expected, BUILD_REPORTS);
    assert!(matches!(result, Err(LuaError::UnsupportedVersion { .. })));
}

#[test]
fn luajit_returns_unsupported_error() {
    let result = required_version(EngineVersion::LuaJit);
    assert!(matches!(result, Err(LuaError::UnsupportedVersion { .. })));
}

#[test]
fn matching_version_is_accepted() {
    let expected = required_version(EngineVersion::Lua54).unwrap();
    assert!(check_reported_version(expected, BUILD_REPORTS).is_ok());
}
