use luna::embed::error::{Error, LuaFailure};
use luna::engine::error::{ErrorKind, LuaError};
use luna::engine::guard::LimitExceeded;
use luna::ffi::error::LuaError as FfiError;

fn syntax() -> LuaFailure {
    LuaFailure::Syntax { message: "[string]:1: unexpected symbol".to_string() }
}

#[test]
fn embed_error_from_each_failure() {
    assert_eq!(
        Error::from_failure(syntax()),
        Error::Syntax { msg: "[string]:1: unexpected symbol".to_string() }
    );
    assert_eq!(
        Error::from_failure(LuaFailure::Runtime { message: "boom".to_string() }),
        Error::Runtime { msg: "boom".to_string() }
    );
    assert_eq!(
        Error::from_failure(LuaFailure::Other { rendered: "memory error".to_string() }),
        Error::Other { msg: "memory error".to_string() }
    );
    assert_eq!(Error::Runtime { msg: "boom".to_string() }.message(), "boom");
}

#[test]
fn engine_error_from_each_failure() {
    let e = LuaError::from_failure(syntax(), None);
    assert_eq!(e.kind(), ErrorKind::Syntax);
    assert_eq!(e.message(), "[string]:1: unexpected symbol");
    let e = LuaError::from_failure(LuaFailure::Runtime { message: "boom".to_string() }, None);
    assert_eq!(e, LuaError::Runtime { msg: "boom".to_string() });
    let e = LuaError::from_failure(LuaFailure::Other { rendered: "x".to_string() }, None);
    assert_eq!(e, LuaError::Other { msg: "x".to_string() });
}

#[test]
fn guard_verdict_wins_over_the_failure() {
    let e = LuaError::from_failure(
        LuaFailure::Runtime { message: "callback error".to_string() },
        Some(LimitExceeded::Instructions { limit: 500 }),
    );
    assert_eq!(e, LuaError::ResourceLimit { msg: "script exceeded the instruction limit (500)".to_string() });
    let e = LuaError::from_failure(syntax(), Some(LimitExceeded::Timeout));
    assert_eq!(e.kind(), ErrorKind::ResourceLimit);
    assert_eq!(e.message(), "script exceeded its execution timeout");
}

#[test]
fn ffi_error_keeps_kind_and_message() {
    assert_eq!(
        FfiError::from(Error::Syntax { msg: "a".to_string() }),
        FfiError::Syntax { msg: "a".to_string() }
    );
    assert_eq!(
        FfiError::from(Error::Runtime { msg: "b".to_string() }),
        FfiError::Runtime { msg: "b".to_string() }
    );
    assert_eq!(
        FfiError::from(Error::UnsupportedVersion { msg: "c".to_string() }),
        FfiError::UnsupportedVersion { msg: "c".to_string() }
    );
    let e = FfiError::from(Error::Other { msg: "d".to_string() });
    assert_eq!(e, FfiError::Other { msg: "d".to_string() });
    assert_eq!(e.message(), "d");
}

#[test]
fn embed_error_texts() {
    assert_eq!(Error::Syntax { msg: "x".to_string() }.text(), "syntax error: x");
    assert_eq!(Error::Runtime { msg: "boom".to_string() }.text(), "runtime error: boom");
    assert_eq!(
        Error::UnsupportedVersion { msg: "v".to_string() }.text(),
        "unsupported version: v"
    );
    assert_eq!(Error::Other { msg: "plain".to_string() }.text(), "plain");
}
