//! The flat configuration record offered to foreign callers, and its split
//! into the options of the embedding API.
use vstd::prelude::*;
use vstd::std_specs::convert::FromSpecImpl;
use crate::embed::config as embed;

verus! {

/// Which part of the Lua standard library a state opens.
#[derive(Debug, Clone, Copy, PartialEq, Eq, Structural)]
pub enum LuaStdLib {
    All,
    Safe,
    Empty,
}

/// The Lua flavour a caller asks for.
#[derive(Debug, Clone, Copy, PartialEq, Eq, Structural)]
pub enum LuaVersion {
    Lua51,
    Lua52,
    Lua53,
    Lua54,
    Lua55,
    Luau,
    LuaJit,
}

/// The whole configuration in one record.
#[derive(Debug, Clone, Copy)]
pub struct LunaConfig {
    pub sandbox: bool,
    pub stdlib: LuaStdLib,
    pub version: LuaVersion,
}

impl Default for LunaConfig {
    /// Not sandboxed, the whole safe standard library, Lua 5.4.
    fn default() -> (c: Self)
        ensures
            !c.sandbox,
            c.stdlib == LuaStdLib::All,
            c.version == LuaVersion::Lua54,
    {
        LunaConfig { sandbox: false, stdlib: LuaStdLib::All, version: LuaVersion::Lua54 }
    }
}

/// The same subset in the embedding API.
pub open spec fn embed_stdlib(v: LuaStdLib) -> embed::LuaStdLib {
    match v {
        LuaStdLib::All => embed::LuaStdLib::All,
        LuaStdLib::Safe => embed::LuaStdLib::Safe,
        LuaStdLib::Empty => embed::LuaStdLib::Empty,
    }
}

/// The same version in the embedding API.
pub open spec fn embed_version(v: LuaVersion) -> embed::LuaVersion {
    match v {
        LuaVersion::Lua51 => embed::LuaVersion::Lua51,
        LuaVersion::Lua52 => embed::LuaVersion::Lua52,
        LuaVersion::Lua53 => embed::LuaVersion::Lua53,
        LuaVersion::Lua54 => embed::LuaVersion::Lua54,
        LuaVersion::Lua55 => embed::LuaVersion::Lua55,
        LuaVersion::Luau => embed::LuaVersion::Luau,
        LuaVersion::LuaJit => embed::LuaVersion::LuaJit,
    }
}

impl From<LuaStdLib> for embed::LuaStdLib {
    fn from(v: LuaStdLib) -> (r: Self)
        ensures
            r == embed_stdlib(v),
    {
        match v {
            LuaStdLib::All => embed::LuaStdLib::All,
            LuaStdLib::Safe => embed::LuaStdLib::Safe,
            LuaStdLib::Empty => embed::LuaStdLib::Empty,
        }
    }
}

impl FromSpecImpl<LuaStdLib> for embed::LuaStdLib {
    open spec fn obeys_from_spec() -> bool {
        true
    }

    open spec fn from_spec(v: LuaStdLib) -> Self {
        embed_stdlib(v)
    }
}

impl From<LuaVersion> for embed::LuaVersion {
    fn from(v: LuaVersion) -> (r: Self)
        ensures
            r == embed_version(v),
    {
        match v {
            LuaVersion::Lua51 => embed::LuaVersion::Lua51,
            LuaVersion::Lua52 => embed::LuaVersion::Lua52,
            LuaVersion::Lua53 => embed::LuaVersion::Lua53,
            LuaVersion::Lua54 => embed::LuaVersion::Lua54,
            LuaVersion::Lua55 => embed::LuaVersion::Lua55,
            LuaVersion::Luau => embed::LuaVersion::Luau,
            LuaVersion::LuaJit => embed::LuaVersion::LuaJit,
        }
    }
}

impl FromSpecImpl<LuaVersion> for embed::LuaVersion {
    open spec fn obeys_from_spec() -> bool {
        true
    }

    open spec fn from_spec(v: LuaVersion) -> Self {
        embed_version(v)
    }
}

/// The record split into the runtime behaviour and the engine options of
/// the embedding API.
pub open spec fn split_config(c: LunaConfig) -> (embed::LunaConfig, embed::LuaOption) {
    (
        embed::LunaConfig { sandbox: c.sandbox },
        embed::LuaOption { stdlib: embed_stdlib(c.stdlib), version: embed_version(c.version) },
    )
}

impl From<LunaConfig> for (embed::LunaConfig, embed::LuaOption) {
    fn from(c: LunaConfig) -> (r: Self)
        ensures
            r == split_config(c),
    {
        (
            embed::LunaConfig { sandbox: c.sandbox },
            embed::LuaOption {
                stdlib: embed::LuaStdLib::from(c.stdlib),
                version: embed::LuaVersion::from(c.version),
            },
        )
    }
}

impl FromSpecImpl<LunaConfig> for (embed::LunaConfig, embed::LuaOption) {
    open spec fn obeys_from_spec() -> bool {
        true
    }

    open spec fn from_spec(c: LunaConfig) -> Self {
        split_config(c)
    }
}

/// The split keeps the record: its runtime behaviour has the record's
/// sandbox flag, and records that differ in any field split differently, so
/// no subset or version is lost or merged with another; the default record
/// splits into an unsandboxed runtime with the whole standard library of
/// Lua 5.4.
pub proof fn lemma_split_keeps_record(a: LunaConfig, b: LunaConfig)
    ensures
        split_config(a).0.sandbox == a.sandbox,
        split_config(a) == split_config(b) ==> a.sandbox == b.sandbox && a.stdlib == b.stdlib
            && a.version == b.version,
        a.sandbox == false && a.stdlib == LuaStdLib::All && a.version == LuaVersion::Lua54
            ==> !split_config(a).0.sandbox && split_config(a).1.stdlib == embed::LuaStdLib::All
            && split_config(a).1.version == embed::LuaVersion::Lua54,
{
}

} // verus!
