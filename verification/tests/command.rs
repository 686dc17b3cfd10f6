use cargo_icmd::command::{failure_message, parse_command, run, Command, Outcome, HELP};

fn args(words: &[&str]) -> Vec<String> {
    words.iter().map(|word| word.to_string()).collect()
}

#[test]
fn commands_parse_with_and_without_the_subcommand_name() {
    assert_eq!(parse_command(&args(&["docs"])), Ok(Command::Docs));
    assert_eq!(parse_command(&args(&["icmd", "docs"])), Ok(Command::Docs));
    assert_eq!(parse_command(&args(&[])), Ok(Command::Help));
    assert_eq!(parse_command(&args(&["icmd"])), Ok(Command::Help));
    for word in ["help", "-h", "--help"] {
        assert_eq!(parse_command(&args(&[word])), Ok(Command::Help));
    }
    for word in ["-V", "--version"] {
        assert_eq!(parse_command(&args(&["icmd", word])), Ok(Command::Version));
    }
}

#[test]
fn unknown_and_extra_arguments_are_errors() {
    assert_eq!(
        parse_command(&args(&["serve"])),
        Err(String::from("unknown command `serve`"))
    );
    assert_eq!(
        parse_command(&args(&["docs", "now"])),
        Err(String::from("unexpected argument `now`"))
    );
    assert_eq!(
        parse_command(&args(&["icmd", "docs", "now"])),
        Err(String::from("unexpected argument `now`"))
    );
    assert_eq!(
        parse_command(&args(&["icmd", "icmd"])),
        Err(String::from("unknown command `icmd`"))
    );
}

#[test]
fn run_decides_what_to_print() {
    assert!(matches!(run(&args(&["docs"]), "1.2.3"), Outcome::OpenDocs));
    match run(&args(&["--version"]), "1.2.3") {
        Outcome::Print(text) => assert_eq!(text, "cargo-icmd 1.2.3"),
        other => panic!("unexpected {other:?}"),
    }
    match run(&args(&[]), "1.2.3") {
        Outcome::Print(text) => assert_eq!(text, HELP),
        other => panic!("unexpected {other:?}"),
    }
    match run(&args(&["nope"]), "1.2.3") {
        Outcome::Fail(report) => {
            assert_eq!(report, format!("cargo-icmd: unknown command `nope`\n\n{HELP}"))
        }
        other => panic!("unexpected {other:?}"),
    }
    assert!(failure_message("boom").starts_with("cargo-icmd: boom\n\nInteractive documentation for icmd"));
}
