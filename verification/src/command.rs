//! Command-line parsing for `cargo icmd` and `cargo-icmd`.
use vstd::prelude::*;
use vstd::string::*;

use crate::text::str_eq;

verus! {

/// Usage text printed by `help` and after an argument error.
pub const HELP: &'static str = "Interactive documentation for icmd

Usage:
    cargo icmd docs
    cargo-icmd docs

Commands:
    docs        Open the interactive documentation browser
    help        Print this help

Options:
    -h, --help       Print this help
    -V, --version    Print the installed version";

/// What the invocation asks for.
#[derive(Debug, Clone, Copy, PartialEq, Eq, Structural)]
pub enum Command {
    /// Open the interactive documentation browser.
    Docs,
    /// Print the usage text.
    Help,
    /// Print the installed version.
    Version,
}

/// The argument at `i`, if present.
pub open spec fn arg_at(args: Seq<Seq<char>>, i: int) -> Option<Seq<char>> {
    if 0 <= i < args.len() {
        Some(args[i])
    } else {
        None
    }
}

/// Where the command word sits: `cargo icmd` passes the subcommand name first.
pub open spec fn command_slot(args: Seq<Seq<char>>) -> int {
    if args.len() > 0 && args[0] == "icmd"@ {
        1
    } else {
        0
    }
}

/// The outcome of parsing `args`, the arguments after the program name.
pub open spec fn parse_outcome(args: Seq<Seq<char>>) -> Result<Command, Seq<char>> {
    let slot = command_slot(args);
    match arg_at(args, slot + 1) {
        Some(extra) => Err("unexpected argument `"@ + extra + "`"@),
        None => match arg_at(args, slot) {
            None => Ok(Command::Help),
            Some(word) => if word == "docs"@ {
                Ok(Command::Docs)
            } else if word == "help"@ || word == "-h"@ || word == "--help"@ {
                Ok(Command::Help)
            } else if word == "-V"@ || word == "--version"@ {
                Ok(Command::Version)
            } else {
                Err("unknown command `"@ + word + "`"@)
            },
        },
    }
}

/// The character sequences of a list of arguments.
pub open spec fn arg_views(args: Seq<String>) -> Seq<Seq<char>> {
    Seq::new(args.len(), |i: int| args[i]@)
}

/// A message naming `word` between backticks after `lead`.
fn quoted(lead: &str, word: &String) -> (message: String)
    ensures
        message@ == lead@ + word@ + "`"@,
{
    let mut message = lead.to_owned();
    message.append(word.as_str());
    message.append("`");
    message
}

/// Parses the arguments after the program name.
///
/// `cargo icmd docs` arrives as `icmd docs` and `cargo-icmd docs` as `docs`; a
/// missing command means `help`, and anything after the command is an error.
pub fn parse_command(args: &Vec<String>) -> (parsed: Result<Command, String>)
    ensures
        match parsed {
            Ok(command) => parse_outcome(arg_views(args@)) == Ok::<Command, Seq<char>>(command),
            Err(message) => parse_outcome(arg_views(args@)) == Err::<Command, Seq<char>>(
                message@,
            ),
        },
{
    let ghost views = arg_views(args@);
    let slot: usize = if args.len() > 0 && str_eq(args[0].as_str(), "icmd") {
        1
    } else {
        0
    };
    proof {
        assert(slot == command_slot(views));
    }
    if slot + 1 < args.len() {
        proof {
            assert(arg_at(views, slot + 1) == Some(args@[slot + 1]@));
        }
        return Err(quoted("unexpected argument `", &args[slot + 1]));
    }
    if slot >= args.len() {
        return Ok(Command::Help);
    }
    let word = args[slot].as_str();
    proof {
        assert(arg_at(views, slot as int) == Some(word@));
    }
    if str_eq(word, "docs") {
        Ok(Command::Docs)
    } else if str_eq(word, "help") || str_eq(word, "-h") || str_eq(word, "--help") {
        Ok(Command::Help)
    } else if str_eq(word, "-V") || str_eq(word, "--version") {
        Ok(Command::Version)
    } else {
        Err(quoted("unknown command `", &args[slot]))
    }
}

/// What one invocation does.
#[derive(Debug)]
pub enum Outcome {
    /// Open the interactive documentation browser.
    OpenDocs,
    /// Print this text to standard output and succeed.
    Print(String),
    /// Print this text to standard error and exit with status 2.
    Fail(String),
}

/// The report printed for a failed invocation: the program name, the error,
/// a blank line, and the usage text.
pub open spec fn failure_text(error: Seq<char>) -> Seq<char> {
    "cargo-icmd: "@ + error + "\n\n"@ + HELP@
}

/// The report printed for a failed invocation.
pub fn failure_message(error: &str) -> (report: String)
    ensures
        report@ == failure_text(error@),
{
    let mut report = "cargo-icmd: ".to_owned();
    report.append(error);
    report.append("\n\n");
    report.append(HELP);
    report
}

/// Decides what an invocation with `args` (after the program name) does, for
/// an installed `version`.
pub fn run(args: &Vec<String>, version: &str) -> (outcome: Outcome)
    ensures
        match parse_outcome(arg_views(args@)) {
            Ok(Command::Docs) => outcome is OpenDocs,
            Ok(Command::Help) => outcome matches Outcome::Print(text) && text@ == HELP@,
            Ok(Command::Version) => outcome matches Outcome::Print(text) && text@ == "cargo-icmd "@
                + version@,
            Err(error) => outcome matches Outcome::Fail(report) && report@ == failure_text(error),
        },
{
    match parse_command(args) {
        Ok(Command::Docs) => Outcome::OpenDocs,
        Ok(Command::Help) => Outcome::Print(HELP.to_owned()),
        Ok(Command::Version) => {
            let mut text = "cargo-icmd ".to_owned();
            text.append(version);
            Outcome::Print(text)
        },
        Err(error) => Outcome::Fail(failure_message(error.as_str())),
    }
}

/// `cargo icmd ARGS` and `cargo-icmd ARGS` mean the same thing, whenever
/// `ARGS` does not itself begin with the subcommand name.
pub proof fn lemma_subcommand_name_is_transparent(args: Seq<Seq<char>>)
    requires
        args.len() == 0 || args[0] != "icmd"@,
    ensures
        parse_outcome(seq!["icmd"@] + args) == parse_outcome(args),
{
    let full = seq!["icmd"@] + args;
    assert(full[0] == "icmd"@);
    assert(command_slot(full) == 1);
    assert(command_slot(args) == 0);
    assert(arg_at(full, 1) == arg_at(args, 0));
    assert(arg_at(full, 2) == arg_at(args, 1));
}

} // verus!
