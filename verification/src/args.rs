//! The parsed command line of the plugin, and the parser that produces it
//! from the program's arguments according to [`crate::grammar`].
use vstd::prelude::*;
use crate::grammar::{
    ArgsError, CliView, CommandView, OptName, ScanState, ShArgsView, finish, forward, help_after,
    initial_scan, is_escape, lit_cluster, lit_default, lit_help, lit_profile, lit_project_id,
    lemma_scan_err_sticks, lit_sh, lit_version, long_name, long_value, only_h, option_named,
    parse_cli, resolve, scan, step, store, value_or_forward,
};
use crate::text::{find_eq, same_text};

verus! {

/// The characters of an optional string.
pub open spec fn opt_text(o: Option<String>) -> Option<Seq<char>> {
    match o {
        Some(s) => Some(s@),
        None => None,
    }
}

/// The characters of each string of a sequence.
pub open spec fn texts(v: Seq<String>) -> Seq<Seq<char>> {
    v.map_values(|s: String| s@)
}

/// The characters of each argument of a command line.
pub open spec fn arg_texts(v: Seq<&str>) -> Seq<Seq<char>> {
    v.map_values(|s: &str| s@)
}

/// The command line of the plugin.
pub struct Cli {
    pub command: PluginSubCommands,
}

/// The subcommands of the plugin.
pub enum PluginSubCommands {
    /// Launch mongosh connected to an Atlas cluster.
    Sh(ShArgs),
}

/// The arguments of `sh`.
pub struct ShArgs {
    /// Name of the Atlas cluster to connect to.
    pub cluster: String,
    /// Atlas CLI profile to load credentials and project from.
    pub profile: String,
    /// Atlas project ID, overriding the profile's.
    pub project_id: Option<String>,
    /// Arguments forwarded verbatim to mongosh.
    pub mongosh_args: Vec<String>,
}

impl View for ShArgs {
    type V = ShArgsView;

    open spec fn view(&self) -> ShArgsView {
        ShArgsView {
            cluster: self.cluster@,
            profile: self.profile@,
            project_id: opt_text(self.project_id),
            mongosh_args: texts(self.mongosh_args@),
        }
    }
}

impl View for PluginSubCommands {
    type V = CommandView;

    open spec fn view(&self) -> CommandView {
        match self {
            PluginSubCommands::Sh(a) => CommandView::Sh(a@),
        }
    }
}

impl View for Cli {
    type V = CliView;

    open spec fn view(&self) -> CliView {
        CliView { command: self.command@ }
    }
}

/// The outcome of parsing, with the command line taken by its view.
pub open spec fn cli_outcome(r: Result<Cli, ArgsError>) -> Result<CliView, ArgsError> {
    match r {
        Ok(c) => Ok(c@),
        Err(e) => Err(e),
    }
}

/// Where the parser of `sh` stands (see [`ScanState`]).
struct Scan {
    cluster: Option<String>,
    profile: Option<String>,
    project_id: Option<String>,
    pending: Option<OptName>,
    pending_value: Option<String>,
    trailing: bool,
    forwarded: Vec<String>,
}

impl View for Scan {
    type V = ScanState;

    closed spec fn view(&self) -> ScanState {
        ScanState {
            cluster: opt_text(self.cluster),
            profile: opt_text(self.profile),
            project_id: opt_text(self.project_id),
            pending: match self.pending {
                None => None,
                Some(o) => Some((o, opt_text(self.pending_value))),
            },
            trailing: self.trailing,
            forwarded: texts(self.forwarded@),
        }
    }
}

spec fn scan_outcome(r: Result<Scan, ArgsError>) -> Result<ScanState, ArgsError> {
    match r {
        Ok(s) => Ok(s@),
        Err(e) => Err(e),
    }
}

fn store_value(s: Scan, o: OptName, v: String) -> (r: Result<Scan, ArgsError>)
    ensures
        scan_outcome(r) == store(s@, o, v@),
{
    let mut s = s;
    match o {
        OptName::Cluster => {
            if s.cluster.is_some() {
                return Err(ArgsError::RepeatedOption(o));
            }
            s.cluster = Some(v);
        },
        OptName::Profile => {
            if s.profile.is_some() {
                return Err(ArgsError::RepeatedOption(o));
            }
            s.profile = Some(v);
        },
        OptName::ProjectId => {
            if s.project_id.is_some() {
                return Err(ArgsError::RepeatedOption(o));
            }
            s.project_id = Some(v);
        },
    }
    Ok(s)
}

fn resolve_pending(s: Scan) -> (r: Result<Scan, ArgsError>)
    ensures
        scan_outcome(r) == resolve(s@),
{
    let mut s = s;
    match s.pending {
        None => Ok(s),
        Some(o) => {
            let v = s.pending_value.take();
            s.pending = None;
            match v {
                None => Err(ArgsError::MissingValue(o)),
                Some(v) => store_value(s, o, v),
            }
        },
    }
}

fn forward_arg(s: Scan, t: &str) -> (r: Result<Scan, ArgsError>)
    ensures
        scan_outcome(r) == forward(s@, t@),
{
    match resolve_pending(s) {
        Err(e) => Err(e),
        Ok(mut r) => {
            let ghost before = r.forwarded@;
            r.trailing = true;
            r.forwarded.push(String::from_str(t));
            assert(texts(r.forwarded@) =~= texts(before).push(t@));
            Ok(r)
        },
    }
}

fn value_or_forward_arg(s: Scan, t: &str) -> (r: Result<Scan, ArgsError>)
    ensures
        scan_outcome(r) == value_or_forward(s@, t@),
{
    if s.pending.is_some() && s.pending_value.is_none() {
        let mut s = s;
        s.pending_value = Some(String::from_str(t));
        Ok(s)
    } else {
        forward_arg(s, t)
    }
}

fn help_after_pending(s: Scan) -> (e: ArgsError)
    ensures
        help_after(s@) == Err::<ScanState, ArgsError>(e),
{
    match resolve_pending(s) {
        Ok(_) => ArgsError::DisplayHelp,
        Err(e) => e,
    }
}

/// The option of `sh` that `name` denotes.
fn option_named_exec(name: &str) -> (r: Option<OptName>)
    ensures
        r == option_named(name@),
{
    proof {
        reveal_strlit("cluster");
        reveal_strlit("profile");
        reveal_strlit("project-id");
        assert("cluster"@ =~= lit_cluster());
        assert("profile"@ =~= lit_profile());
        assert("project-id"@ =~= lit_project_id());
    }
    if same_text(name, "cluster") {
        Some(OptName::Cluster)
    } else if same_text(name, "profile") {
        Some(OptName::Profile)
    } else if same_text(name, "project-id") {
        Some(OptName::ProjectId)
    } else {
        None
    }
}

/// Every character of `t` after its first is `h`.
fn all_h_after_first(t: &str) -> (r: bool)
    ensures
        r == only_h(t@),
{
    let n = t.unicode_len();
    let mut i: usize = 1;
    while i < n
        invariant
            n == t@.len(),
            1 <= i,
            forall|j: int| 1 <= j < i && j < n ==> t@[j] == 'h',
        decreases n - i,
    {
        if t.get_char(i) != 'h' {
            return false;
        }
        i = i + 1;
    }
    true
}

/// Reads one argument of `sh`.
fn step_arg(s: Scan, t: &str) -> (r: Result<Scan, ArgsError>)
    ensures
        scan_outcome(r) == step(s@, t@),
{
    if s.trailing {
        return forward_arg(s, t);
    }
    let n = t.unicode_len();
    let c0 = if n > 0 { t.get_char(0) } else { ' ' };
    let c1 = if n > 1 { t.get_char(1) } else { ' ' };
    if n == 2 && c0 == '-' && c1 == '-' {
        assert(t@ =~= seq!['-', '-']);
        let mut s = s;
        s.trailing = true;
        return Ok(s);
    }
    assert(!is_escape(t@)) by {
        if is_escape(t@) {
            assert(t@.len() == 2 && t@[0] == '-' && t@[1] == '-');
        }
    }
    if n > 2 && c0 == '-' && c1 == '-' {
        let body = t.substring_char(2, n);
        assert(body@ =~= t@.skip(2));
        let bn = n - 2;
        let e = find_eq(body);
        let name = body.substring_char(0, e);
        assert(name@ =~= long_name(t@));
        let value = if e < bn {
            let v = body.substring_char(e + 1, bn);
            assert(v@ =~= body@.skip(e + 1));
            Some(String::from_str(v))
        } else {
            None
        };
        assert(opt_text(value) == long_value(t@));
        match option_named_exec(name) {
            Some(o) => match resolve_pending(s) {
                Err(e) => Err(e),
                Ok(r) => match value {
                    Some(v) => store_value(r, o, v),
                    None => {
                        let mut r = r;
                        r.pending = Some(o);
                        r.pending_value = None;
                        Ok(r)
                    },
                },
            },
            None => {
                proof {
                    reveal_strlit("help");
                    assert("help"@ =~= lit_help());
                }
                if same_text(name, "help") {
                    if value.is_some() {
                        Err(ArgsError::UnexpectedArgument)
                    } else {
                        Err(help_after_pending(s))
                    }
                } else {
                    value_or_forward_arg(s, t)
                }
            },
        }
    } else if n >= 2 && c0 == '-' && c1 != '-' && all_h_after_first(t) {
        Err(help_after_pending(s))
    } else {
        value_or_forward_arg(s, t)
    }
}

impl Cli {
    /// Parses a command line, the program name first, as the plugin reads
    /// it (see [`crate::grammar`]). A request for help or for the version
    /// comes out as an error.
    pub fn try_parse_from(args: &[&str]) -> (r: Result<Cli, ArgsError>)
        ensures
            cli_outcome(r) == parse_cli(arg_texts(args@)),
    {
        let ghost all = arg_texts(args@);
        let n = args.len();
        proof {
            reveal_strlit("sh");
            reveal_strlit("help");
            reveal_strlit("version");
            reveal_strlit("default");
            assert("sh"@ =~= lit_sh());
            assert("help"@ =~= lit_help());
            assert("version"@ =~= lit_version());
            assert("default"@ =~= lit_default());
        }
        if n < 2 {
            return Err(ArgsError::MissingSubcommand);
        }
        let a = args[1];
        assert(a@ == all[1]);
        let ghost rest = all.skip(2);
        assert(rest.len() == n - 2);
        if same_text(a, "sh") {
            let mut s = Scan {
                cluster: None,
                profile: None,
                project_id: None,
                pending: None,
                pending_value: None,
                trailing: false,
                forwarded: Vec::new(),
            };
            assert(s@.forwarded =~= initial_scan().forwarded);
            let mut i: usize = 2;
            while i < n
                invariant
                    n == args@.len(),
                    all == arg_texts(args@),
                    rest == all.skip(2),
                    rest.len() == n - 2,
                    all.len() == n,
                    all[1] == lit_sh(),
                    2 <= i <= n,
                    scan(rest, (i - 2) as nat) == Ok::<ScanState, ArgsError>(s@),
                decreases n - i,
            {
                let t = args[i];
                assert(rest[i - 2] == t@);
                match step_arg(s, t) {
                    Ok(next) => {
                        s = next;
                    },
                    Err(e) => {
                        assert(scan(rest, (i - 1) as nat) == Err::<ScanState, ArgsError>(e));
                        proof {
                            lemma_scan_err_sticks(rest, (i - 1) as nat, rest.len(), e);
                        }
                        return Err(e);
                    },
                }
                i = i + 1;
            }
            assert(rest.len() == n - 2);
            let sh = finish_scan(s);
            match sh {
                Ok(sh) => Ok(Cli { command: PluginSubCommands::Sh(sh) }),
                Err(e) => Err(e),
            }
        } else if same_text(a, "help") {
            if n == 2 {
                Err(ArgsError::DisplayHelp)
            } else if n == 3 && (same_text(args[2], "sh") || same_text(args[2], "help")) {
                assert(rest[0] == args@[2]@);
                Err(ArgsError::DisplayHelp)
            } else {
                proof {
                    if n == 3 {
                        assert(rest[0] == args@[2]@);
                    }
                }
                Err(ArgsError::UnexpectedArgument)
            }
        } else {
            let m = a.unicode_len();
            let c0 = if m > 0 { a.get_char(0) } else { ' ' };
            let c1 = if m > 1 { a.get_char(1) } else { ' ' };
            if m == 2 && c0 == '-' && c1 == '-' {
                assert(is_escape(a@)) by {
                    assert(a@ =~= seq!['-', '-']);
                }
                if n == 2 {
                    Err(ArgsError::MissingSubcommand)
                } else {
                    Err(ArgsError::UnexpectedArgument)
                }
            } else if m > 2 && c0 == '-' && c1 == '-' {
                assert(!is_escape(a@));
                let body = a.substring_char(2, m);
                assert(body@ =~= a@.skip(2));
                if same_text(body, "help") {
                    Err(ArgsError::DisplayHelp)
                } else if same_text(body, "version") {
                    Err(ArgsError::DisplayVersion)
                } else {
                    Err(ArgsError::UnexpectedArgument)
                }
            } else if m >= 2 && c0 == '-' && c1 != '-' {
                assert(!is_escape(a@));
                if c1 == 'h' {
                    Err(ArgsError::DisplayHelp)
                } else if c1 == 'V' {
                    Err(ArgsError::DisplayVersion)
                } else {
                    Err(ArgsError::UnexpectedArgument)
                }
            } else {
                assert(!is_escape(a@)) by {
                    if is_escape(a@) {
                        assert(a@.len() == 2 && a@[0] == '-' && a@[1] == '-');
                    }
                }
                Err(ArgsError::UnexpectedArgument)
            }
        }
    }
}

/// What `sh` means once all its arguments are read.
fn finish_scan(s: Scan) -> (r: Result<ShArgs, ArgsError>)
    ensures
        match r {
            Ok(a) => finish(s@) == Ok::<ShArgsView, ArgsError>(a@),
            Err(e) => finish(s@) == Err::<ShArgsView, ArgsError>(e),
        },
{
    proof {
        reveal_strlit("default");
        assert("default"@ =~= lit_default());
    }
    match resolve_pending(s) {
        Err(e) => Err(e),
        Ok(r) => match r.cluster {
            None => Err(ArgsError::MissingCluster),
            Some(c) => {
                let profile = match r.profile {
                    Some(p) => p,
                    None => String::from_str("default"),
                };
                Ok(ShArgs { cluster: c, profile, project_id: r.project_id, mongosh_args: r.forwarded })
            },
        },
    }
}

} // verus!
