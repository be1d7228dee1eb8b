use luna::cli::{active_features, classify_line, classify_source, parse_args, Command, ReplStep};

#[test]
fn first_argument_selects_the_command() {
    assert_eq!(parse_args(Some("-h")), Command::Help);
    assert_eq!(parse_args(Some("--help")), Command::Help);
    assert_eq!(parse_args(Some("-v")), Command::Version);
    assert_eq!(parse_args(Some("--version")), Command::Version);
    assert_eq!(parse_args(Some("--repl")), Command::Repl);
    assert_eq!(parse_args(None), Command::Repl);
    assert_eq!(parse_args(Some("script.lua")), Command::RunFile("script.lua".to_string()));
    assert_eq!(parse_args(Some("-x")), Command::RunFile("-x".to_string()));
}

#[test]
fn features_in_fixed_order() {
    assert_eq!(active_features(false, false, false), Vec::<&str>::new());
    assert_eq!(active_features(true, true, true), vec!["send", "async", "serialize"]);
    assert_eq!(active_features(false, true, false), vec!["async"]);
    assert_eq!(active_features(true, false, true), vec!["send", "serialize"]);
}

#[test]
fn prompt_lines() {
    assert_eq!(classify_line("\n"), ReplStep::Skip);
    assert_eq!(classify_line("   \t\r\n"), ReplStep::Skip);
    assert_eq!(classify_line(".exit\n"), ReplStep::Exit);
    assert_eq!(classify_line("  .help  \n"), ReplStep::Help);
    assert_eq!(classify_line(" return 1 + 1 \n"), ReplStep::Eval("return 1 + 1".to_string()));
    assert_eq!(classify_line("\u{3000}x = 1\u{a0}"), ReplStep::Eval("x = 1".to_string()));
    assert_eq!(classify_source(".exit"), ReplStep::Exit);
    assert_eq!(classify_source(" .exit"), ReplStep::Eval(" .exit".to_string()));
}
