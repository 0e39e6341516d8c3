//! The command-line grammar of the plugin, stated over sequences of
//! characters: what `atlas sh ...` means, and which command lines it refuses.
//!
//! The program name comes first and is ignored. The only subcommand that
//! yields a value is `sh`; after it come the options `--cluster <NAME>`
//! (required), `--profile <NAME>` (default `default`) and
//! `--project-id <ID>`, each written either as two arguments or as
//! `--name=value`, and each at most once. The first argument that is not one
//! of these options, or everything after a bare `--`, is forwarded verbatim
//! to mongosh, together with every argument after it.
use vstd::prelude::*;
use crate::text::first_eq;

verus! {

/// The options of `sh` that take a value.
#[derive(Clone, Copy, Debug, PartialEq, Eq, Structural)]
pub enum OptName {
    Cluster,
    Profile,
    ProjectId,
}

/// Why a command line was not turned into a [`crate::args::Cli`]. Requests
/// for help or for the version come out here too, as they end parsing.
#[derive(Clone, Copy, Debug, PartialEq, Eq, Structural)]
pub enum ArgsError {
    /// `-h`, `--help` or the `help` subcommand asked for the help text.
    DisplayHelp,
    /// `-V` or `--version` asked for the version.
    DisplayVersion,
    /// No subcommand follows the program name.
    MissingSubcommand,
    /// An argument stands where the grammar has no place for it.
    UnexpectedArgument,
    /// An option was given without its value.
    MissingValue(OptName),
    /// An option was given twice.
    RepeatedOption(OptName),
    /// `sh` was given without `--cluster`.
    MissingCluster,
}

/// What `sh` was asked to do, as sequences of characters.
pub struct ShArgsView {
    pub cluster: Seq<char>,
    pub profile: Seq<char>,
    pub project_id: Option<Seq<char>>,
    pub mongosh_args: Seq<Seq<char>>,
}

/// The subcommand of a command line.
pub enum CommandView {
    Sh(ShArgsView),
}

/// A whole command line.
pub struct CliView {
    pub command: CommandView,
}

pub open spec fn lit_sh() -> Seq<char> {
    seq!['s', 'h']
}

pub open spec fn lit_help() -> Seq<char> {
    seq!['h', 'e', 'l', 'p']
}

pub open spec fn lit_version() -> Seq<char> {
    seq!['v', 'e', 'r', 's', 'i', 'o', 'n']
}

pub open spec fn lit_cluster() -> Seq<char> {
    seq!['c', 'l', 'u', 's', 't', 'e', 'r']
}

pub open spec fn lit_profile() -> Seq<char> {
    seq!['p', 'r', 'o', 'f', 'i', 'l', 'e']
}

pub open spec fn lit_project_id() -> Seq<char> {
    seq!['p', 'r', 'o', 'j', 'e', 'c', 't', '-', 'i', 'd']
}

pub open spec fn lit_default() -> Seq<char> {
    seq!['d', 'e', 'f', 'a', 'u', 'l', 't']
}

/// `--`: everything after it is forwarded.
pub open spec fn is_escape(t: Seq<char>) -> bool {
    t == seq!['-', '-']
}

/// `--name` or `--name=value`.
pub open spec fn is_long(t: Seq<char>) -> bool {
    t.len() > 2 && t[0] == '-' && t[1] == '-'
}

/// `-x...`: a dash, then anything but a second dash.
pub open spec fn is_short(t: Seq<char>) -> bool {
    t.len() >= 2 && t[0] == '-' && t[1] != '-'
}

/// Every letter after the dash is `h`, the only short flag of `sh`.
pub open spec fn only_h(t: Seq<char>) -> bool {
    forall|i: int| 1 <= i < t.len() ==> t[i] == 'h'
}

/// The name of a long argument: what follows `--`, up to the first `=`.
pub open spec fn long_name(t: Seq<char>) -> Seq<char> {
    let body = t.skip(2);
    body.take(first_eq(body))
}

/// The value attached to a long argument with `=`, if any.
pub open spec fn long_value(t: Seq<char>) -> Option<Seq<char>> {
    let body = t.skip(2);
    if first_eq(body) < body.len() {
        Some(body.skip(first_eq(body) + 1))
    } else {
        None
    }
}

/// The option of `sh` that a long name denotes.
pub open spec fn option_named(name: Seq<char>) -> Option<OptName> {
    if name == lit_cluster() {
        Some(OptName::Cluster)
    } else if name == lit_profile() {
        Some(OptName::Profile)
    } else if name == lit_project_id() {
        Some(OptName::ProjectId)
    } else {
        None
    }
}

/// Where `sh` stands after reading some of its arguments.
pub struct ScanState {
    pub cluster: Option<Seq<char>>,
    pub profile: Option<Seq<char>>,
    pub project_id: Option<Seq<char>>,
    /// An option that was named and whose value is not recorded yet, with
    /// that value once it has been read.
    pub pending: Option<(OptName, Option<Seq<char>>)>,
    /// Every further argument is forwarded.
    pub trailing: bool,
    pub forwarded: Seq<Seq<char>>,
}

pub open spec fn initial_scan() -> ScanState {
    ScanState {
        cluster: None,
        profile: None,
        project_id: None,
        pending: None,
        trailing: false,
        forwarded: Seq::empty(),
    }
}

pub open spec fn get_opt(s: ScanState, o: OptName) -> Option<Seq<char>> {
    match o {
        OptName::Cluster => s.cluster,
        OptName::Profile => s.profile,
        OptName::ProjectId => s.project_id,
    }
}

/// Records the value of an option; an option given before is refused.
pub open spec fn store(s: ScanState, o: OptName, v: Seq<char>) -> Result<ScanState, ArgsError> {
    if get_opt(s, o) is Some {
        Err(ArgsError::RepeatedOption(o))
    } else {
        Ok(
            match o {
                OptName::Cluster => ScanState { cluster: Some(v), ..s },
                OptName::Profile => ScanState { profile: Some(v), ..s },
                OptName::ProjectId => ScanState { project_id: Some(v), ..s },
            },
        )
    }
}

/// Settles the pending option, if any: it must have its value, and must not
/// have been given before.
pub open spec fn resolve(s: ScanState) -> Result<ScanState, ArgsError> {
    match s.pending {
        None => Ok(s),
        Some((o, None)) => Err(ArgsError::MissingValue(o)),
        Some((o, Some(v))) => store(ScanState { pending: None, ..s }, o, v),
    }
}

/// Forwards `t` to mongosh, from where on every argument is forwarded.
pub open spec fn forward(s: ScanState, t: Seq<char>) -> Result<ScanState, ArgsError> {
    match resolve(s) {
        Ok(r) => Ok(ScanState { trailing: true, forwarded: r.forwarded.push(t), ..r }),
        Err(e) => Err(e),
    }
}

/// An argument that names nothing of `sh`: the value of an option that waits
/// for one, else the first forwarded argument.
pub open spec fn value_or_forward(s: ScanState, t: Seq<char>) -> Result<ScanState, ArgsError> {
    match s.pending {
        Some((o, None)) => Ok(ScanState { pending: Some((o, Some(t))), ..s }),
        _ => forward(s, t),
    }
}

/// A request for help, honoured once the pending option is settled.
pub open spec fn help_after(s: ScanState) -> Result<ScanState, ArgsError> {
    match resolve(s) {
        Ok(_) => Err(ArgsError::DisplayHelp),
        Err(e) => Err(e),
    }
}

/// Reads one argument of `sh`.
pub open spec fn step(s: ScanState, t: Seq<char>) -> Result<ScanState, ArgsError> {
    if s.trailing {
        forward(s, t)
    } else if is_escape(t) {
        Ok(ScanState { trailing: true, ..s })
    } else if is_long(t) {
        match option_named(long_name(t)) {
            Some(o) => match resolve(s) {
                Ok(r) => match long_value(t) {
                    Some(v) => store(r, o, v),
                    None => Ok(ScanState { pending: Some((o, None)), ..r }),
                },
                Err(e) => Err(e),
            },
            None => if long_name(t) == lit_help() {
                if long_value(t) is Some {
                    Err(ArgsError::UnexpectedArgument)
                } else {
                    help_after(s)
                }
            } else {
                value_or_forward(s, t)
            },
        }
    } else if is_short(t) && only_h(t) {
        help_after(s)
    } else {
        value_or_forward(s, t)
    }
}

/// Reads the first `n` arguments of `sh`.
pub open spec fn scan(toks: Seq<Seq<char>>, n: nat) -> Result<ScanState, ArgsError>
    decreases n,
{
    if n == 0 {
        Ok(initial_scan())
    } else {
        match scan(toks, (n - 1) as nat) {
            Ok(s) => step(s, toks[n - 1]),
            Err(e) => Err(e),
        }
    }
}

/// Once scanning has failed, it stays failed with the same error.
pub proof fn lemma_scan_err_sticks(toks: Seq<Seq<char>>, k: nat, n: nat, e: ArgsError)
    requires
        k <= n,
        scan(toks, k) == Err::<ScanState, ArgsError>(e),
    ensures
        scan(toks, n) == Err::<ScanState, ArgsError>(e),
    decreases n - k,
{
    if k < n {
        lemma_scan_err_sticks(toks, k, (n - 1) as nat, e);
    }
}

/// What `sh` means once all its arguments are read.
pub open spec fn finish(s: ScanState) -> Result<ShArgsView, ArgsError> {
    match resolve(s) {
        Err(e) => Err(e),
        Ok(r) => match r.cluster {
            None => Err(ArgsError::MissingCluster),
            Some(c) => Ok(
                ShArgsView {
                    cluster: c,
                    profile: match r.profile {
                        Some(p) => p,
                        None => lit_default(),
                    },
                    project_id: r.project_id,
                    mongosh_args: r.forwarded,
                },
            ),
        },
    }
}

/// The meaning of the arguments that follow `sh`.
pub open spec fn parse_sh(toks: Seq<Seq<char>>) -> Result<ShArgsView, ArgsError> {
    match scan(toks, toks.len()) {
        Ok(s) => finish(s),
        Err(e) => Err(e),
    }
}

/// The meaning of a whole command line, the program name first.
pub open spec fn parse_cli(args: Seq<Seq<char>>) -> Result<CliView, ArgsError> {
    if args.len() < 2 {
        Err(ArgsError::MissingSubcommand)
    } else {
        let a = args[1];
        let rest = args.skip(2);
        if a == lit_sh() {
            match parse_sh(rest) {
                Ok(sh) => Ok(CliView { command: CommandView::Sh(sh) }),
                Err(e) => Err(e),
            }
        } else if a == lit_help() {
            if rest.len() == 0 || (rest.len() == 1 && (rest[0] == lit_sh() || rest[0] == lit_help())) {
                Err(ArgsError::DisplayHelp)
            } else {
                Err(ArgsError::UnexpectedArgument)
            }
        } else if is_escape(a) {
            if rest.len() == 0 {
                Err(ArgsError::MissingSubcommand)
            } else {
                Err(ArgsError::UnexpectedArgument)
            }
        } else if is_long(a) {
            if a.skip(2) == lit_help() {
                Err(ArgsError::DisplayHelp)
            } else if a.skip(2) == lit_version() {
                Err(ArgsError::DisplayVersion)
            } else {
                Err(ArgsError::UnexpectedArgument)
            }
        } else if is_short(a) {
            if a[1] == 'h' {
                Err(ArgsError::DisplayHelp)
            } else if a[1] == 'V' {
                Err(ArgsError::DisplayVersion)
            } else {
                Err(ArgsError::UnexpectedArgument)
            }
        } else {
            Err(ArgsError::UnexpectedArgument)
        }
    }
}

} // verus!
