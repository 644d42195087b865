use nexo_plugin_web_search::cli::{Cli, Command};

fn args(items: &[&str]) -> Vec<String> {
    items.iter().map(|s| s.to_string()).collect()
}

#[test]
fn parses_print_manifest_subcommand() {
    let cli = Cli::try_parse_from(args(&["nexo-plugin-web-search", "--print-manifest"])).unwrap();
    assert!(matches!(cli.command, Some(Command::PrintManifest)));
}

#[test]
fn no_subcommand_yields_none() {
    let cli = Cli::try_parse_from(args(&["nexo-plugin-web-search"])).unwrap();
    assert!(cli.command.is_none());
}

#[test]
fn unknown_argument_is_an_error_for_stderr() {
    let err = Cli::try_parse_from(args(&["nexo-plugin-web-search", "--bogus"])).unwrap_err();
    assert!(err.to_stderr);
    assert!(err.message.contains("--bogus"));
}

#[test]
fn help_goes_to_stdout() {
    let err = Cli::try_parse_from(args(&["nexo-plugin-web-search", "--help"])).unwrap_err();
    assert!(!err.to_stderr);
    assert!(err.message.contains("--print-manifest"));
}

#[test]
fn version_reports_package_version() {
    let err = Cli::try_parse_from(args(&["nexo-plugin-web-search", "--version"])).unwrap_err();
    assert!(!err.to_stderr);
    assert!(err.message.contains("0.1.0"));
}
