use atlas_sh::args::{Cli, PluginSubCommands};
use atlas_sh::grammar::{ArgsError, OptName};

fn sh(args: &[&str]) -> Result<atlas_sh::args::ShArgs, ArgsError> {
    Cli::try_parse_from(args).map(|cli| {
        let PluginSubCommands::Sh(args) = cli.command;
        args
    })
}

#[test]
fn parses_required_cluster_flag() {
    let cli = Cli::try_parse_from(&["atlas", "sh", "--cluster", "my-cluster"]).unwrap();
    let PluginSubCommands::Sh(args) = cli.command;
    assert_eq!(args.cluster, "my-cluster");
    assert_eq!(args.profile, "default");
    assert!(args.project_id.is_none());
    assert!(args.mongosh_args.is_empty());
}

#[test]
fn missing_cluster_fails() {
    let result = Cli::try_parse_from(&["atlas", "sh"]);
    assert!(result.is_err());
}

#[test]
fn parses_all_flags() {
    let cli = Cli::try_parse_from(&[
        "atlas", "sh",
        "--cluster", "prod",
        "--profile", "staging",
        "--project-id", "abc123",
        "--eval", "db.stats()",
    ])
    .unwrap();
    let PluginSubCommands::Sh(args) = cli.command;
    assert_eq!(args.cluster, "prod");
    assert_eq!(args.profile, "staging");
    assert_eq!(args.project_id.as_deref(), Some("abc123"));
    assert_eq!(args.mongosh_args, vec!["--eval", "db.stats()"]);
}

#[test]
fn attached_values_are_accepted() {
    let a = sh(&["atlas", "sh", "--cluster=c1", "--profile=p=q", "--project-id="]).unwrap();
    assert_eq!(a.cluster, "c1");
    assert_eq!(a.profile, "p=q");
    assert_eq!(a.project_id.as_deref(), Some(""));
}

#[test]
fn option_given_twice_is_refused() {
    assert_eq!(
        sh(&["atlas", "sh", "--cluster", "a", "--cluster=b"]).err(),
        Some(ArgsError::RepeatedOption(OptName::Cluster))
    );
}

#[test]
fn option_without_value_is_refused() {
    assert_eq!(
        sh(&["atlas", "sh", "--cluster"]).err(),
        Some(ArgsError::MissingValue(OptName::Cluster))
    );
    assert_eq!(
        sh(&["atlas", "sh", "--profile", "--cluster", "c"]).err(),
        Some(ArgsError::MissingValue(OptName::Profile))
    );
}

#[test]
fn unknown_flag_can_be_an_option_value() {
    let a = sh(&["atlas", "sh", "--cluster", "--weird", "--quiet"]).unwrap();
    assert_eq!(a.cluster, "--weird");
    assert_eq!(a.mongosh_args, vec!["--quiet"]);
}

#[test]
fn everything_after_the_first_forwarded_argument_is_forwarded() {
    let a = sh(&["atlas", "sh", "--cluster", "c", "--quiet", "--profile", "x", "-h"]).unwrap();
    assert_eq!(a.profile, "default");
    assert_eq!(a.mongosh_args, vec!["--quiet", "--profile", "x", "-h"]);
}

#[test]
fn double_dash_starts_forwarding() {
    let a = sh(&["atlas", "sh", "--cluster", "c", "--", "--profile", "--"]).unwrap();
    assert_eq!(a.profile, "default");
    assert_eq!(a.mongosh_args, vec!["--profile", "--"]);
}

#[test]
fn forwarded_arguments_before_cluster_leave_it_missing() {
    assert_eq!(
        sh(&["atlas", "sh", "db", "--cluster", "c"]).err(),
        Some(ArgsError::MissingCluster)
    );
}

#[test]
fn help_and_version_requests() {
    assert_eq!(sh(&["atlas", "--help"]).err(), Some(ArgsError::DisplayHelp));
    assert_eq!(sh(&["atlas", "-h"]).err(), Some(ArgsError::DisplayHelp));
    assert_eq!(sh(&["atlas", "help", "sh"]).err(), Some(ArgsError::DisplayHelp));
    assert_eq!(sh(&["atlas", "help", "nope"]).err(), Some(ArgsError::UnexpectedArgument));
    assert_eq!(sh(&["atlas", "-V"]).err(), Some(ArgsError::DisplayVersion));
    assert_eq!(sh(&["atlas", "--version"]).err(), Some(ArgsError::DisplayVersion));
    assert_eq!(sh(&["atlas", "sh", "-h"]).err(), Some(ArgsError::DisplayHelp));
    assert_eq!(sh(&["atlas", "sh", "--help=1"]).err(), Some(ArgsError::UnexpectedArgument));
    assert_eq!(
        sh(&["atlas", "sh", "--cluster", "--help"]).err(),
        Some(ArgsError::MissingValue(OptName::Cluster))
    );
}

#[test]
fn version_is_forwarded_by_sh() {
    let a = sh(&["atlas", "sh", "--cluster", "c", "--version"]).unwrap();
    assert_eq!(a.mongosh_args, vec!["--version"]);
}

#[test]
fn subcommand_is_required() {
    assert_eq!(sh(&["atlas"]).err(), Some(ArgsError::MissingSubcommand));
    assert_eq!(sh(&[]).err(), Some(ArgsError::MissingSubcommand));
    assert_eq!(sh(&["atlas", "--"]).err(), Some(ArgsError::MissingSubcommand));
    assert_eq!(sh(&["atlas", "--", "sh"]).err(), Some(ArgsError::UnexpectedArgument));
    assert_eq!(sh(&["atlas", "shell"]).err(), Some(ArgsError::UnexpectedArgument));
}

#[test]
fn law_unrecognized_arguments_are_forwarded_example() {
    let a = sh(&["prog", "sh", "--cluster", "Cl", "--eval", "show dbs", "--quiet"]).unwrap();
    assert_eq!(a.cluster, "Cl");
    assert_eq!(a.profile, "default");
    assert_eq!(a.project_id, None);
    assert_eq!(a.mongosh_args, vec!["--eval", "show dbs", "--quiet"]);
}

#[test]
fn law_cluster_is_required_example() {
    assert!(sh(&["atlas", "sh", "--profile", "p", "--project-id", "x"]).is_err());
}

#[test]
fn law_unnamed_options_take_their_defaults_example() {
    let a = sh(&["atlas", "sh", "--cluster", "c", "x"]).unwrap();
    assert_eq!(a.profile, "default");
    assert_eq!(a.project_id, None);
}
