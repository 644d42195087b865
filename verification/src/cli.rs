//! The command line: without a subcommand the binary runs the JSON-RPC
//! dispatch loop on stdin/stdout; `--print-manifest` prints the bundled
//! manifest. Providers are API-key based with no consent flow, so there
//! is no `--oauth-once` analogue.
use vstd::prelude::*;

verus! {

/// The parsed command line.
#[derive(Debug)]
pub struct Cli {
    pub command: Option<Command>,
}

/// The subcommands.
#[derive(Debug, Clone, Copy, PartialEq, Eq)]
pub enum Command {
    /// Emit the bundled `nexo-plugin.toml` and exit.
    PrintManifest,
}

/// A command line that did not parse, or that asked for help or the
/// version: the text to show, and whether it goes to stderr (errors) or
/// stdout (help, version).
#[derive(Debug)]
pub struct CliError {
    pub message: String,
    pub to_stderr: bool,
}

pub const BIN_NAME: &'static str = "nexo-plugin-web-search";

pub const VERSION: &'static str = "0.1.0";

pub const ABOUT: &'static str = "Multi-provider web search (Brave / Tavily / DuckDuckGo / Perplexity) tool plugin for Nexo agents.";

pub const LONG_ABOUT: &'static str = "Subprocess binary loaded by the nexo-rs daemon via discovery. Without a subcommand, boots the long-lived JSON-RPC dispatch loop on stdin/stdout. Use --print-manifest to dump the bundled manifest (used by the daemon's discovery walker).";

pub const PRINT_MANIFEST: &'static str = "--print-manifest";

pub const PRINT_MANIFEST_ABOUT: &'static str = "Emit the bundled `nexo-plugin.toml` and exit.";

/// What clap's parser makes of `args` for a command named `name` with
/// this version and help text and one optional subcommand `sub`: the
/// subcommand given, if any, or the error's text and stream.
pub uninterp spec fn clap_parse(
    name: Seq<char>,
    version: Seq<char>,
    about: Seq<char>,
    long_about: Seq<char>,
    sub: Seq<char>,
    sub_about: Seq<char>,
    args: Seq<Seq<char>>,
) -> Result<Option<Seq<char>>, (Seq<char>, bool)>;

/// Builds the command with `clap::Command` and runs
/// `try_get_matches_from` on `args`. Claims only that the outcome is the
/// named `clap_parse` of these inputs; clap's grammar is not restated.
#[verifier::external_body]
fn clap_matches(
    name: &'static str,
    version: &'static str,
    about: &'static str,
    long_about: &'static str,
    sub: &'static str,
    sub_about: &'static str,
    args: &Vec<String>,
) -> (r: Result<Option<String>, (String, bool)>)
    ensures
        match r {
            Ok(None) => clap_parse(name@, version@, about@, long_about@, sub@, sub_about@, args.deep_view()) == Ok::<Option<Seq<char>>, (Seq<char>, bool)>(None),
            Ok(Some(s)) => clap_parse(name@, version@, about@, long_about@, sub@, sub_about@, args.deep_view()) == Ok::<Option<Seq<char>>, (Seq<char>, bool)>(Some(s@)),
            Err((m, e)) => clap_parse(name@, version@, about@, long_about@, sub@, sub_about@, args.deep_view()) == Err::<Option<Seq<char>>, (Seq<char>, bool)>((m@, e)),
        },
{
    let command = clap::Command::new(name).version(version).about(about).long_about(long_about)
        .subcommand(clap::Command::new(sub).about(sub_about));
    match command.try_get_matches_from(args.iter()) {
        Ok(m) => Ok(m.subcommand_name().map(|s| s.to_string())),
        Err(e) => Err((e.render().to_string(), e.use_stderr())),
    }
}

/// The command line a parse outcome stands for.
pub open spec fn cli_from_outcome(outcome: Result<Option<Seq<char>>, (Seq<char>, bool)>) -> Result<Option<Command>, (Seq<char>, bool)> {
    match outcome {
        Ok(None) => Ok(None),
        Ok(Some(name)) => if name == PRINT_MANIFEST@ {
            Ok(Some(Command::PrintManifest))
        } else {
            Err((seq![], true))
        },
        Err(e) => Err(e),
    }
}

impl Cli {
    /// Turn a parse outcome into the command line. clap only ever names a
    /// declared subcommand, and `--print-manifest` is the only one; any
    /// other name is reported as an error with empty text.
    pub fn from_outcome(outcome: Result<Option<String>, (String, bool)>) -> (r: Result<Cli, CliError>)
        ensures
            match cli_from_outcome(match outcome {
                Ok(None) => Ok(None),
                Ok(Some(s)) => Ok(Some(s@)),
                Err((m, e)) => Err((m@, e)),
            }) {
                Ok(c) => r is Ok && r->Ok_0.command == c,
                Err((m, e)) => r is Err && r->Err_0.message@ == m && r->Err_0.to_stderr == e,
            },
    {
        match outcome {
            Ok(None) => Ok(Cli { command: None }),
            Ok(Some(name)) => {
                if crate::text::str_eq(name.as_str(), PRINT_MANIFEST) {
                    Ok(Cli { command: Some(Command::PrintManifest) })
                } else {
                    Err(CliError { message: String::new(), to_stderr: true })
                }
            },
            Err((message, to_stderr)) => Err(CliError { message, to_stderr }),
        }
    }

    /// Parse a command line (the first item is the program name).
    pub fn try_parse_from(args: Vec<String>) -> (r: Result<Cli, CliError>)
        ensures
            match cli_from_outcome(clap_parse(BIN_NAME@, VERSION@, ABOUT@, LONG_ABOUT@, PRINT_MANIFEST@, PRINT_MANIFEST_ABOUT@, args.deep_view())) {
                Ok(c) => r is Ok && r->Ok_0.command == c,
                Err((m, e)) => r is Err && r->Err_0.message@ == m && r->Err_0.to_stderr == e,
            },
    {
        let outcome = clap_matches(BIN_NAME, VERSION, ABOUT, LONG_ABOUT, PRINT_MANIFEST, PRINT_MANIFEST_ABOUT, &args);
        Cli::from_outcome(outcome)
    }
}

} // verus!
