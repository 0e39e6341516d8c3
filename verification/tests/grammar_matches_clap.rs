//! The grammar of the library, checked against clap configured as the
//! plugin's command line is declared.
use atlas_sh::args::{Cli, PluginSubCommands};
use atlas_sh::grammar::ArgsError;
use clap::error::ErrorKind;
use clap::{Arg, ArgAction, Command};

fn clap_command() -> Command {
    Command::new("atlas")
        .version("0.1.0")
        .subcommand_required(true)
        .arg_required_else_help(true)
        .subcommand(
            Command::new("sh")
                .arg(
                    Arg::new("cluster")
                        .long("cluster")
                        .value_name("NAME")
                        .required(true)
                        .action(ArgAction::Set),
                )
                .arg(
                    Arg::new("profile")
                        .long("profile")
                        .value_name("NAME")
                        .default_value("default")
                        .action(ArgAction::Set),
                )
                .arg(
                    Arg::new("project_id")
                        .long("project-id")
                        .value_name("ID")
                        .action(ArgAction::Set),
                )
                .arg(
                    Arg::new("mongosh_args")
                        .value_name("MONGOSH_ARGS")
                        .num_args(1..)
                        .action(ArgAction::Append)
                        .trailing_var_arg(true)
                        .allow_hyphen_values(true),
                ),
        )
}

fn compare(args: &[&str]) {
    let ours = Cli::try_parse_from(args);
    let theirs = clap_command().try_get_matches_from(args);
    match (ours, theirs) {
        (Ok(cli), Ok(m)) => {
            let PluginSubCommands::Sh(a) = cli.command;
            let sub = m.subcommand_matches("sh").expect("sh");
            assert_eq!(&a.cluster, sub.get_one::<String>("cluster").unwrap(), "{args:?}");
            assert_eq!(&a.profile, sub.get_one::<String>("profile").unwrap(), "{args:?}");
            assert_eq!(a.project_id.as_ref(), sub.get_one::<String>("project_id"), "{args:?}");
            let fwd: Vec<String> = sub
                .get_many::<String>("mongosh_args")
                .map(|v| v.cloned().collect())
                .unwrap_or_default();
            assert_eq!(a.mongosh_args, fwd, "{args:?}");
        }
        (Err(e), Err(c)) => match e {
            ArgsError::DisplayHelp => assert_eq!(c.kind(), ErrorKind::DisplayHelp, "{args:?}"),
            ArgsError::DisplayVersion => {
                assert_eq!(c.kind(), ErrorKind::DisplayVersion, "{args:?}")
            }
            _ => {
                assert_ne!(c.kind(), ErrorKind::DisplayHelp, "{args:?}");
                assert_ne!(c.kind(), ErrorKind::DisplayVersion, "{args:?}");
            }
        },
        (Ok(_), Err(c)) => panic!("{args:?}: accepted here, refused by clap: {c}"),
        (Err(e), Ok(_)) => panic!("{args:?}: refused here ({e:?}), accepted by clap"),
    }
}

const TOKENS: [&str; 22] = [
    "sh", "--cluster", "--cluster=a", "c", "--profile", "--profile=p", "--project-id",
    "--project-id=", "--", "-h", "-x", "-hh", "-hx", "--help", "--help=1", "--eval", "-",
    "--version", "help", "-V", "=", "--=v",
];

#[test]
fn grammar_matches_clap_on_short_command_lines() {
    let mut line: Vec<&str> = vec!["atlas"];
    compare(&line);
    for a in TOKENS {
        line.push(a);
        compare(&line);
        for b in TOKENS {
            line.push(b);
            compare(&line);
            for c in TOKENS {
                line.push(c);
                compare(&line);
                line.pop();
            }
            line.pop();
        }
        line.pop();
    }
}

const FEW_TOKENS: [&str; 11] = [
    "--cluster", "--cluster=a", "c", "--profile", "--project-id=", "--", "-h", "-x",
    "--help", "--eval", "-",
];

#[test]
fn grammar_matches_clap_after_sh() {
    let mut line: Vec<&str> = vec!["atlas", "sh"];
    for a in FEW_TOKENS {
        line.push(a);
        for b in FEW_TOKENS {
            line.push(b);
            for c in FEW_TOKENS {
                line.push(c);
                for d in FEW_TOKENS {
                    line.push(d);
                    compare(&line);
                    line.pop();
                }
                line.pop();
            }
            line.pop();
        }
        line.pop();
    }
}
