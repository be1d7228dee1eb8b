//! The check that a freshly built Lua state is the flavour that was asked
//! for. The Lua engine builds one flavour; asking for another is refused.
use vstd::prelude::*;
use crate::embed::config::LuaVersion;
use crate::embed::error::Error;
use crate::text::{has_prefix, starts_with};

verus! {

/// The name a version is written with in messages.
pub open spec fn version_name(v: LuaVersion) -> Seq<char> {
    match v {
        LuaVersion::Lua51 => "Lua51"@,
        LuaVersion::Lua52 => "Lua52"@,
        LuaVersion::Lua53 => "Lua53"@,
        LuaVersion::Lua54 => "Lua54"@,
        LuaVersion::Lua55 => "Lua55"@,
        LuaVersion::Luau => "Luau"@,
        LuaVersion::LuaJit => "LuaJit"@,
    }
}

/// The name a version is written with in messages.
pub fn version_label(v: LuaVersion) -> (s: &'static str)
    ensures
        s@ == version_name(v),
{
    match v {
        LuaVersion::Lua51 => "Lua51",
        LuaVersion::Lua52 => "Lua52",
        LuaVersion::Lua53 => "Lua53",
        LuaVersion::Lua54 => "Lua54",
        LuaVersion::Lua55 => "Lua55",
        LuaVersion::Luau => "Luau",
        LuaVersion::LuaJit => "LuaJit",
    }
}

/// Whether a build that reports `reported` as `_VERSION`, and has a `jit`
/// global exactly when `has_jit`, is the flavour `version`. LuaJIT reports
/// "Lua 5.1" and is told apart by its `jit` table.
pub open spec fn build_matches(version: LuaVersion, reported: Seq<char>, has_jit: bool) -> bool {
    match version {
        LuaVersion::Lua51 => has_prefix(reported, "Lua 5.1"@),
        LuaVersion::Lua52 => has_prefix(reported, "Lua 5.2"@),
        LuaVersion::Lua53 => has_prefix(reported, "Lua 5.3"@),
        LuaVersion::Lua54 => has_prefix(reported, "Lua 5.4"@),
        LuaVersion::Lua55 => has_prefix(reported, "Lua 5.5"@),
        LuaVersion::Luau => has_prefix(reported, "Luau"@),
        LuaVersion::LuaJit => has_jit,
    }
}

/// `p` is no prefix of `s` when they differ at a position inside both.
proof fn lemma_not_prefix(s: Seq<char>, p: Seq<char>, i: int)
    requires
        0 <= i < p.len(),
        i < s.len(),
        s[i] != p[i],
    ensures
        !has_prefix(s, p),
{
    if p.len() <= s.len() {
        assert(s.subrange(0, p.len() as int)[i] == s[i]);
    }
}

/// Which builds each requested version accepts, for every reported
/// `_VERSION` and `jit` table: a Lua version accepts exactly the builds whose
/// `_VERSION` starts with that version's own text, and LuaJIT exactly the
/// builds with a `jit` table; a build that reports another version's text is
/// refused, whatever its `jit` table.
pub proof fn lemma_build_acceptance(reported: Seq<char>, has_jit: bool)
    ensures
        build_matches(LuaVersion::Lua51, reported, has_jit) <==> has_prefix(reported, "Lua 5.1"@),
        build_matches(LuaVersion::Lua52, reported, has_jit) <==> has_prefix(reported, "Lua 5.2"@),
        build_matches(LuaVersion::Lua53, reported, has_jit) <==> has_prefix(reported, "Lua 5.3"@),
        build_matches(LuaVersion::Lua54, reported, has_jit) <==> has_prefix(reported, "Lua 5.4"@),
        build_matches(LuaVersion::Lua55, reported, has_jit) <==> has_prefix(reported, "Lua 5.5"@),
        build_matches(LuaVersion::Luau, reported, has_jit) <==> has_prefix(reported, "Luau"@),
        build_matches(LuaVersion::LuaJit, reported, has_jit) <==> has_jit,
        !build_matches(LuaVersion::Lua51, "Lua 5.2"@, has_jit),
        !build_matches(LuaVersion::Lua51, "Lua 5.3"@, has_jit),
        !build_matches(LuaVersion::Lua51, "Lua 5.4"@, has_jit),
        !build_matches(LuaVersion::Lua51, "Lua 5.5"@, has_jit),
        !build_matches(LuaVersion::Lua51, "Luau"@, has_jit),
        !build_matches(LuaVersion::Lua52, "Lua 5.1"@, has_jit),
        !build_matches(LuaVersion::Lua52, "Lua 5.3"@, has_jit),
        !build_matches(LuaVersion::Lua52, "Lua 5.4"@, has_jit),
        !build_matches(LuaVersion::Lua52, "Lua 5.5"@, has_jit),
        !build_matches(LuaVersion::Lua52, "Luau"@, has_jit),
        !build_matches(LuaVersion::Lua53, "Lua 5.1"@, has_jit),
        !build_matches(LuaVersion::Lua53, "Lua 5.2"@, has_jit),
        !build_matches(LuaVersion::Lua53, "Lua 5.4"@, has_jit),
        !build_matches(LuaVersion::Lua53, "Lua 5.5"@, has_jit),
        !build_matches(LuaVersion::Lua53, "Luau"@, has_jit),
        !build_matches(LuaVersion::Lua54, "Lua 5.1"@, has_jit),
        !build_matches(LuaVersion::Lua54, "Lua 5.2"@, has_jit),
        !build_matches(LuaVersion::Lua54, "Lua 5.3"@, has_jit),
        !build_matches(LuaVersion::Lua54, "Lua 5.5"@, has_jit),
        !build_matches(LuaVersion::Lua54, "Luau"@, has_jit),
        !build_matches(LuaVersion::Lua55, "Lua 5.1"@, has_jit),
        !build_matches(LuaVersion::Lua55, "Lua 5.2"@, has_jit),
        !build_matches(LuaVersion::Lua55, "Lua 5.3"@, has_jit),
        !build_matches(LuaVersion::Lua55, "Lua 5.4"@, has_jit),
        !build_matches(LuaVersion::Lua55, "Luau"@, has_jit),
        !build_matches(LuaVersion::Luau, "Lua 5.1"@, has_jit),
        !build_matches(LuaVersion::Luau, "Lua 5.2"@, has_jit),
        !build_matches(LuaVersion::Luau, "Lua 5.3"@, has_jit),
        !build_matches(LuaVersion::Luau, "Lua 5.4"@, has_jit),
        !build_matches(LuaVersion::Luau, "Lua 5.5"@, has_jit),
{
    reveal_strlit("Lua 5.1");
    reveal_strlit("Lua 5.2");
    reveal_strlit("Lua 5.3");
    reveal_strlit("Lua 5.4");
    reveal_strlit("Lua 5.5");
    reveal_strlit("Luau");
    lemma_not_prefix("Lua 5.2"@, "Lua 5.1"@, 6);
    lemma_not_prefix("Lua 5.3"@, "Lua 5.1"@, 6);
    lemma_not_prefix("Lua 5.4"@, "Lua 5.1"@, 6);
    lemma_not_prefix("Lua 5.5"@, "Lua 5.1"@, 6);
    assert(!has_prefix("Luau"@, "Lua 5.1"@));
    lemma_not_prefix("Lua 5.1"@, "Lua 5.2"@, 6);
    lemma_not_prefix("Lua 5.3"@, "Lua 5.2"@, 6);
    lemma_not_prefix("Lua 5.4"@, "Lua 5.2"@, 6);
    lemma_not_prefix("Lua 5.5"@, "Lua 5.2"@, 6);
    assert(!has_prefix("Luau"@, "Lua 5.2"@));
    lemma_not_prefix("Lua 5.1"@, "Lua 5.3"@, 6);
    lemma_not_prefix("Lua 5.2"@, "Lua 5.3"@, 6);
    lemma_not_prefix("Lua 5.4"@, "Lua 5.3"@, 6);
    lemma_not_prefix("Lua 5.5"@, "Lua 5.3"@, 6);
    assert(!has_prefix("Luau"@, "Lua 5.3"@));
    lemma_not_prefix("Lua 5.1"@, "Lua 5.4"@, 6);
    lemma_not_prefix("Lua 5.2"@, "Lua 5.4"@, 6);
    lemma_not_prefix("Lua 5.3"@, "Lua 5.4"@, 6);
    lemma_not_prefix("Lua 5.5"@, "Lua 5.4"@, 6);
    assert(!has_prefix("Luau"@, "Lua 5.4"@));
    lemma_not_prefix("Lua 5.1"@, "Lua 5.5"@, 6);
    lemma_not_prefix("Lua 5.2"@, "Lua 5.5"@, 6);
    lemma_not_prefix("Lua 5.3"@, "Lua 5.5"@, 6);
    lemma_not_prefix("Lua 5.4"@, "Lua 5.5"@, 6);
    assert(!has_prefix("Luau"@, "Lua 5.5"@));
    lemma_not_prefix("Lua 5.1"@, "Luau"@, 3);
    lemma_not_prefix("Lua 5.2"@, "Luau"@, 3);
    lemma_not_prefix("Lua 5.3"@, "Luau"@, 3);
    lemma_not_prefix("Lua 5.4"@, "Luau"@, 3);
    lemma_not_prefix("Lua 5.5"@, "Luau"@, 3);
}

/// The message of a refused version.
pub open spec fn mismatch_message(version: LuaVersion, reported: Seq<char>) -> Seq<char> {
    version_name(version) + " requested but build provides \""@ + reported + "\""@
}

/// Decides on a build that reports `reported` as `_VERSION` and has a `jit`
/// global exactly when `has_jit`: `Ok` when it is the flavour `version`,
/// else `UnsupportedVersion` naming both.
pub fn check_reported_build(version: LuaVersion, reported: &str, has_jit: bool) -> (r: Result<(), Error>)
    ensures
        r is Ok <==> build_matches(version, reported@, has_jit),
        r matches Err(e) ==> e matches Error::UnsupportedVersion { msg } && msg@
            == mismatch_message(version, reported@),
{
    let ok = match version {
        LuaVersion::Lua51 => starts_with(reported, "Lua 5.1"),
        LuaVersion::Lua52 => starts_with(reported, "Lua 5.2"),
        LuaVersion::Lua53 => starts_with(reported, "Lua 5.3"),
        LuaVersion::Lua54 => starts_with(reported, "Lua 5.4"),
        LuaVersion::Lua55 => starts_with(reported, "Lua 5.5"),
        LuaVersion::Luau => starts_with(reported, "Luau"),
        LuaVersion::LuaJit => has_jit,
    };
    if !ok {
        let mut msg = String::from_str(version_label(version));
        msg.append(" requested but build provides \"");
        msg.append(reported);
        msg.append("\"");
        return Err(Error::UnsupportedVersion { msg });
    }
    Ok(())
}

} // verus!
