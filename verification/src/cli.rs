//! The decisions of the `luna` command: what its first argument asks for,
//! which features a build reports, and what a line typed at the prompt
//! means.
use vstd::prelude::*;
use crate::text::str_equal;

verus! {

/// What the command was asked to do.
#[derive(Debug, Clone, PartialEq, Eq)]
pub enum Command {
    Help,
    Version,
    RunFile(String),
    Repl,
}

/// A command, with the path of a script as characters.
pub enum CommandSpec {
    Help,
    Version,
    RunFile(Seq<char>),
    Repl,
}

impl View for Command {
    type V = CommandSpec;

    open spec fn view(&self) -> CommandSpec {
        match self {
            Command::Help => CommandSpec::Help,
            Command::Version => CommandSpec::Version,
            Command::RunFile(path) => CommandSpec::RunFile(path@),
            Command::Repl => CommandSpec::Repl,
        }
    }
}

/// The command that the first argument asks for: `-h`/`--help`,
/// `-v`/`--version`, `--repl`, any other argument is a script to run, and no
/// argument starts the prompt.
pub open spec fn command_for(arg: Option<Seq<char>>) -> CommandSpec {
    match arg {
        None => CommandSpec::Repl,
        Some(a) => if a == "-h"@ || a == "--help"@ {
            CommandSpec::Help
        } else if a == "-v"@ || a == "--version"@ {
            CommandSpec::Version
        } else if a == "--repl"@ {
            CommandSpec::Repl
        } else {
            CommandSpec::RunFile(a)
        },
    }
}

/// Reads the first command-line argument.
pub fn parse_args(arg: Option<&str>) -> (c: Command)
    ensures
        c@ == command_for(
            match arg {
                Some(a) => Some(a@),
                None => None,
            },
        ),
{
    match arg {
        None => Command::Repl,
        Some(a) => {
            if str_equal(a, "-h") || str_equal(a, "--help") {
                Command::Help
            } else if str_equal(a, "-v") || str_equal(a, "--version") {
                Command::Version
            } else if str_equal(a, "--repl") {
                Command::Repl
            } else {
                Command::RunFile(String::from_str(a))
            }
        },
    }
}

/// The features a build reports, in this order: `send`, `async`,
/// `serialize`, each when it was compiled in.
pub open spec fn feature_names(send: bool, asynchronous: bool, serialize: bool) -> Seq<Seq<char>> {
    let a = if send { seq!["send"@] } else { Seq::<Seq<char>>::empty() };
    let b = if asynchronous { a.push("async"@) } else { a };
    if serialize { b.push("serialize"@) } else { b }
}

/// The features a build reports, given which of them were compiled in.
pub fn active_features(send: bool, asynchronous: bool, serialize: bool) -> (names: Vec<&'static str>)
    ensures
        names@.map_values(|s: &'static str| s@) == feature_names(send, asynchronous, serialize),
{
    let mut names: Vec<&'static str> = Vec::new();
    if send {
        names.push("send");
    }
    if asynchronous {
        names.push("async");
    }
    if serialize {
        names.push("serialize");
    }
    proof {
        let a = if send { seq!["send"@] } else { Seq::<Seq<char>>::empty() };
        let b = if asynchronous { a.push("async"@) } else { a };
        assert(names@.map_values(|s: &'static str| s@) =~= feature_names(send, asynchronous, serialize));
    }
    names
}

/// Whether `c` is white space in the sense of `char::is_whitespace`: the
/// Unicode property `White_Space`.
pub open spec fn is_white_space(c: char) -> bool {
    ('\u{9}' <= c <= '\u{d}') || c == ' ' || c == '\u{85}' || c == '\u{a0}' || c == '\u{1680}'
        || ('\u{2000}' <= c <= '\u{200a}') || c == '\u{2028}' || c == '\u{2029}' || c == '\u{202f}'
        || c == '\u{205f}' || c == '\u{3000}'
}

/// `s` without its leading white space.
pub open spec fn trim_start(s: Seq<char>) -> Seq<char>
    decreases s.len(),
{
    if s.len() > 0 && is_white_space(s[0]) {
        trim_start(s.drop_first())
    } else {
        s
    }
}

/// `s` without its trailing white space.
pub open spec fn trim_end(s: Seq<char>) -> Seq<char>
    decreases s.len(),
{
    if s.len() > 0 && is_white_space(s.last()) {
        trim_end(s.drop_last())
    } else {
        s
    }
}

/// `s` without its leading and trailing white space.
pub open spec fn trimmed(s: Seq<char>) -> Seq<char> {
    trim_end(trim_start(s))
}

/// `str::trim`: std documents it as removing the leading and trailing
/// white space, white space being the Unicode property `White_Space`. The
/// contract restates that documentation; it is not proved here.
#[verifier::external_body]
fn trim_white_space(s: &str) -> (t: &str)
    ensures
        t@ == trimmed(s@),
{
    s.trim()
}

/// What a line typed at the prompt asks for.
#[derive(Debug, Clone, PartialEq, Eq)]
pub enum ReplStep {
    /// Nothing was typed: prompt again.
    Skip,
    /// `.exit`: leave the prompt.
    Exit,
    /// `.help`: show the prompt's commands.
    Help,
    /// Run this source.
    Eval(String),
}

/// A step, with the source as characters.
pub enum ReplStepSpec {
    Skip,
    Exit,
    Help,
    Eval(Seq<char>),
}

impl View for ReplStep {
    type V = ReplStepSpec;

    open spec fn view(&self) -> ReplStepSpec {
        match self {
            ReplStep::Skip => ReplStepSpec::Skip,
            ReplStep::Exit => ReplStepSpec::Exit,
            ReplStep::Help => ReplStepSpec::Help,
            ReplStep::Eval(src) => ReplStepSpec::Eval(src@),
        }
    }
}

/// What a trimmed line asks for.
pub open spec fn step_for(source: Seq<char>) -> ReplStepSpec {
    if source.len() == 0 {
        ReplStepSpec::Skip
    } else if source == ".exit"@ {
        ReplStepSpec::Exit
    } else if source == ".help"@ {
        ReplStepSpec::Help
    } else {
        ReplStepSpec::Eval(source)
    }
}

/// What an already trimmed line asks for.
pub fn classify_source(source: &str) -> (s: ReplStep)
    ensures
        s@ == step_for(source@),
{
    if source.unicode_len() == 0 {
        ReplStep::Skip
    } else if str_equal(source, ".exit") {
        ReplStep::Exit
    } else if str_equal(source, ".help") {
        ReplStep::Help
    } else {
        ReplStep::Eval(String::from_str(source))
    }
}

/// What a line read at the prompt asks for, once its surrounding white
/// space is removed.
pub fn classify_line(line: &str) -> (s: ReplStep)
    ensures
        s@ == step_for(trimmed(line@)),
{
    classify_source(trim_white_space(line))
}

} // verus!
