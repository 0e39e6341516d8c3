//! Properties of the command-line grammar that hold of every command line.
use vstd::prelude::*;
use crate::grammar::{
    ArgsError, CliView, CommandView, OptName, ScanState, ShArgsView, finish, get_opt,
    initial_scan, is_escape, lemma_scan_err_sticks, is_long, is_short, lit_cluster, lit_default, lit_help, lit_sh,
    long_name, long_value, only_h, option_named, parse_cli, parse_sh, resolve, scan, step,
    lit_profile, lit_project_id,
};

verus! {

/// `t` names nothing of `sh`: it is not `--`, not one of its options, and not
/// a request for help. Such an argument is a value or is forwarded.
pub open spec fn names_nothing(t: Seq<char>) -> bool {
    &&& !is_escape(t)
    &&& !(is_long(t) && (option_named(long_name(t)) is Some || long_name(t) == lit_help()))
    &&& !(is_short(t) && only_h(t))
}

/// `t` names the option `o` (as `--name` or `--name=value`).
pub open spec fn names_option(t: Seq<char>, o: OptName) -> bool {
    is_long(t) && option_named(long_name(t)) == Some(o)
}

pub open spec fn dashdash_cluster() -> Seq<char> {
    seq!['-', '-'] + lit_cluster()
}

/// Once forwarding has begun and no option waits, every further argument is
/// forwarded as it is.
proof fn lemma_trailing_forwards(toks: Seq<Seq<char>>, k: nat, s: ScanState, j: nat)
    requires
        k <= j <= toks.len(),
        scan(toks, k) == Ok::<ScanState, ArgsError>(s),
        s.trailing,
        s.pending is None,
    ensures
        scan(toks, j) == Ok::<ScanState, ArgsError>(
            ScanState { forwarded: s.forwarded + toks.subrange(k as int, j as int), ..s },
        ),
    decreases j - k,
{
    if j == k {
        assert(s.forwarded + toks.subrange(k as int, j as int) =~= s.forwarded);
    } else {
        lemma_trailing_forwards(toks, k, s, (j - 1) as nat);
        let prev = ScanState { forwarded: s.forwarded + toks.subrange(k as int, j - 1), ..s };
        assert(resolve(prev) == Ok::<ScanState, ArgsError>(prev));
        assert(prev.forwarded.push(toks[j - 1]) =~= s.forwarded + toks.subrange(k as int, j as int));
        assert(step(prev, toks[j - 1]) == Ok::<ScanState, ArgsError>(
            ScanState { forwarded: s.forwarded + toks.subrange(k as int, j as int), ..s },
        ));
    }
}

/// Arguments that `sh` does not recognise are forwarded to mongosh verbatim
/// and in order, after the cluster: `prog sh --cluster C A1 ... An` names
/// cluster `C`, profile `default`, no project, and forwards `A1 ... An`,
/// whenever `C` and `A1` name nothing of `sh`.
pub proof fn law_unrecognized_arguments_are_forwarded(
    prog: Seq<char>,
    cluster: Seq<char>,
    extra: Seq<Seq<char>>,
)
    requires
        names_nothing(cluster),
        extra.len() > 0 ==> names_nothing(extra[0]),
    ensures
        parse_cli(seq![prog, lit_sh(), dashdash_cluster(), cluster] + extra) == Ok::<
            CliView,
            ArgsError,
        >(
            CliView {
                command: CommandView::Sh(
                    ShArgsView {
                        cluster,
                        profile: lit_default(),
                        project_id: None,
                        mongosh_args: extra,
                    },
                ),
            },
        ),
{
    let args = seq![prog, lit_sh(), dashdash_cluster(), cluster] + extra;
    let toks = args.skip(2);
    assert(args[1] == lit_sh());
    assert(toks =~= seq![dashdash_cluster(), cluster] + extra);
    let t0 = dashdash_cluster();
    let body = t0.skip(2);
    assert(body =~= lit_cluster());
    crate::text::lemma_first_eq_from_bounds(body, 0);
    assert(crate::text::first_eq(body) == body.len()) by {
        if crate::text::first_eq(body) < body.len() {
            let i = crate::text::first_eq(body);
            assert(body[i] == '=');
        }
    }
    assert(long_name(t0) =~= lit_cluster());
    assert(is_long(t0));
    assert(!is_escape(t0));
    let s0 = initial_scan();
    assert(scan(toks, 0) == Ok::<ScanState, ArgsError>(s0));
    let s1 = ScanState { pending: Some((OptName::Cluster, None)), ..s0 };
    assert(scan(toks, 1) == Ok::<ScanState, ArgsError>(s1));
    let s2 = ScanState { pending: Some((OptName::Cluster, Some(cluster))), ..s0 };
    assert(toks[1] == cluster);
    assert(scan(toks, 2) == Ok::<ScanState, ArgsError>(s2));
    let r = ScanState { cluster: Some(cluster), pending: None, ..s0 };
    assert(resolve(s2) == Ok::<ScanState, ArgsError>(r));
    if extra.len() == 0 {
        assert(toks.len() == 2);
        assert(finish(s2) == Ok::<ShArgsView, ArgsError>(
            ShArgsView { cluster, profile: lit_default(), project_id: None, mongosh_args: extra },
        )) by {
            assert(r.forwarded =~= extra);
        }
    } else {
        assert(toks[2] == extra[0]);
        let s3 = ScanState { trailing: true, forwarded: seq![extra[0]], ..r };
        assert(r.forwarded.push(extra[0]) =~= seq![extra[0]]);
        assert(step(s2, extra[0]) == Ok::<ScanState, ArgsError>(s3));
        assert(scan(toks, 3) == Ok::<ScanState, ArgsError>(s3));
        lemma_trailing_forwards(toks, 3, s3, toks.len());
        assert(s3.forwarded + toks.subrange(3, toks.len() as int) =~= extra);
        let fin = ScanState { forwarded: extra, ..s3 };
        assert(scan(toks, toks.len()) == Ok::<ScanState, ArgsError>(fin));
        assert(resolve(fin) == Ok::<ScanState, ArgsError>(fin));
    }
}

/// Before forwarding begins, nothing has been forwarded.
proof fn lemma_nothing_forwarded_before_trailing(toks: Seq<Seq<char>>, k: nat)
    requires
        k <= toks.len(),
    ensures
        scan(toks, k) matches Ok(s) ==> (!s.trailing ==> s.forwarded.len() == 0),
    decreases k,
{
    if k > 0 {
        lemma_nothing_forwarded_before_trailing(toks, (k - 1) as nat);
    }
}

/// The options of `sh` end at argument `k`: reading the arguments before it
/// neither began forwarding nor left an option waiting for its value, and
/// argument `k` names nothing of `sh`.
pub open spec fn options_end_at(toks: Seq<Seq<char>>, k: nat) -> bool {
    &&& k < toks.len()
    &&& scan(toks, k) matches Ok(s) && !s.trailing && !(s.pending matches Some((_, None)))
    &&& names_nothing(toks[k as int])
}

/// The meaning of `sh`'s arguments when its options end at `k`: the options
/// read so far, and every argument from `k` on forwarded as it is.
pub open spec fn options_then_forwarded(toks: Seq<Seq<char>>, k: nat) -> Result<
    ShArgsView,
    ArgsError,
> {
    match scan(toks, k) {
        Err(e) => Err(e),
        Ok(s) => match resolve(s) {
            Err(e) => Err(e),
            Ok(r) => finish(ScanState { trailing: true, forwarded: toks.skip(k as int), ..r }),
        },
    }
}

/// Whatever options precede them, the arguments from the first one that names
/// nothing of `sh` on are forwarded to mongosh verbatim and in order, and
/// nothing else is.
pub proof fn law_arguments_after_the_options_are_forwarded(toks: Seq<Seq<char>>, k: nat)
    requires
        options_end_at(toks, k),
    ensures
        parse_sh(toks) == options_then_forwarded(toks, k),
{
    let s = scan(toks, k)->Ok_0;
    let t = toks[k as int];
    lemma_nothing_forwarded_before_trailing(toks, k);
    assert(scan(toks, k + 1) == step(s, t));
    match resolve(s) {
        Err(e) => {
            assert(scan(toks, k + 1) == Err::<ScanState, ArgsError>(e));
            lemma_scan_err_sticks(toks, k + 1, toks.len(), e);
        },
        Ok(r) => {
            let s3 = ScanState { trailing: true, forwarded: seq![t], ..r };
            assert(r.forwarded.push(t) =~= seq![t]);
            assert(scan(toks, k + 1) == Ok::<ScanState, ArgsError>(s3));
            lemma_trailing_forwards(toks, k + 1, s3, toks.len());
            assert(seq![t] + toks.subrange(k as int + 1, toks.len() as int) =~= toks.skip(k as int));
        },
    }
}

/// While no argument has named `o`, the option has no value and does not wait
/// for one.
proof fn lemma_unnamed_option_stays_unset(toks: Seq<Seq<char>>, o: OptName, k: nat)
    requires
        k <= toks.len(),
        forall|i: int| 0 <= i < k ==> !names_option(#[trigger] toks[i], o),
    ensures
        scan(toks, k) matches Ok(s) ==> get_opt(s, o) is None && !(s.pending matches Some((p, _))
            && p == o),
    decreases k,
{
    if k > 0 {
        lemma_unnamed_option_stays_unset(toks, o, (k - 1) as nat);
        assert(!names_option(toks[k - 1], o));
    }
}

/// `--cluster` is required: a command line whose arguments after `sh` never
/// name it is refused.
pub proof fn law_cluster_is_required(args: Seq<Seq<char>>)
    requires
        args.len() >= 2,
        args[1] == lit_sh(),
        forall|i: int| 2 <= i < args.len() ==> !names_option(#[trigger] args[i], OptName::Cluster),
    ensures
        parse_cli(args) is Err,
{
    let toks = args.skip(2);
    assert forall|i: int| 0 <= i < toks.len() implies !names_option(#[trigger] toks[i], OptName::Cluster) by {
        assert(toks[i] == args[i + 2]);
    }
    lemma_unnamed_option_stays_unset(toks, OptName::Cluster, toks.len());
    assert(parse_sh(toks) is Err);
}

/// The profile is `default` unless `--profile` is given, and there is no
/// project ID unless `--project-id` is given.
pub proof fn law_unnamed_options_take_their_defaults(toks: Seq<Seq<char>>, v: ShArgsView)
    requires
        parse_sh(toks) == Ok::<ShArgsView, ArgsError>(v),
    ensures
        (forall|i: int| 0 <= i < toks.len() ==> !names_option(#[trigger] toks[i], OptName::Profile))
            ==> v.profile == lit_default(),
        (forall|i: int| 0 <= i < toks.len() ==> !names_option(#[trigger] toks[i], OptName::ProjectId))
            ==> v.project_id is None,
{
    if forall|i: int| 0 <= i < toks.len() ==> !names_option(#[trigger] toks[i], OptName::Profile) {
        lemma_unnamed_option_stays_unset(toks, OptName::Profile, toks.len());
    }
    if forall|i: int| 0 <= i < toks.len() ==> !names_option(#[trigger] toks[i], OptName::ProjectId) {
        lemma_unnamed_option_stays_unset(toks, OptName::ProjectId, toks.len());
    }
}

/// `--name` for a name without `=`: a long argument of that name with no
/// attached value.
proof fn lemma_plain_long(name: Seq<char>)
    requires
        name.len() > 0,
        !name.contains('='),
    ensures
        is_long(seq!['-', '-'] + name),
        long_name(seq!['-', '-'] + name) == name,
        long_value(seq!['-', '-'] + name) is None,
        !is_escape(seq!['-', '-'] + name),
{
    let t = seq!['-', '-'] + name;
    let body = t.skip(2);
    assert(body =~= name);
    crate::text::lemma_first_eq_from_bounds(body, 0);
    assert(crate::text::first_eq(body) == body.len()) by {
        if crate::text::first_eq(body) < body.len() {
            let i = crate::text::first_eq(body);
            assert(name[i] == '=');
            assert(name.contains('='));
        }
    }
    assert(body.take(body.len() as int) =~= body);
    assert(t.len() > 2);
}

/// The value an option was given in a parse result: the cluster and the
/// profile always have one, the project ID may not.
pub open spec fn given_value(v: ShArgsView, o: OptName) -> Option<Seq<char>> {
    match o {
        OptName::Cluster => Some(v.cluster),
        OptName::Profile => Some(v.profile),
        OptName::ProjectId => v.project_id,
    }
}

/// An option named before the last argument gets that argument as its value,
/// even though nothing follows it: when the arguments before the last have
/// named option `o` (not given before) without its value, and the last
/// argument names nothing of `sh`, the result gives `o` exactly that last
/// argument, forwards nothing, and succeeds exactly when the cluster is known.
pub proof fn law_last_argument_is_the_pending_value(toks: Seq<Seq<char>>)
    requires
        toks.len() >= 1,
        scan(toks, (toks.len() - 1) as nat) matches Ok(s) && !s.trailing && (s.pending matches Some(
            (o, None),
        ) && get_opt(s, o) is None),
        names_nothing(toks.last()),
    ensures
        ({
            let s = scan(toks, (toks.len() - 1) as nat)->Ok_0;
            let o = (s.pending->0).0;
            &&& parse_sh(toks) is Ok <==> (o == OptName::Cluster || s.cluster is Some)
            &&& parse_sh(toks) matches Ok(v) ==> given_value(v, o) == Some(toks.last())
                && v.mongosh_args.len() == 0
        }),
{
    let k = (toks.len() - 1) as nat;
    let s = scan(toks, k)->Ok_0;
    let o = (s.pending->0).0;
    let t = toks.last();
    lemma_nothing_forwarded_before_trailing(toks, k);
    let s1 = ScanState { pending: Some((o, Some(t))), ..s };
    assert(step(s, t) == Ok::<ScanState, ArgsError>(s1));
    assert(scan(toks, toks.len()) == Ok::<ScanState, ArgsError>(s1));
}

pub open spec fn dashdash_project_id() -> Seq<char> {
    seq!['-', '-'] + lit_project_id()
}

/// `prog sh --cluster C --project-id P` names cluster `C`, profile
/// `default`, project `P`, and forwards nothing, whenever `C` and `P` name
/// nothing of `sh`.
pub proof fn law_cluster_and_project_are_kept(
    prog: Seq<char>,
    cluster: Seq<char>,
    project: Seq<char>,
)
    requires
        names_nothing(cluster),
        names_nothing(project),
    ensures
        parse_cli(seq![prog, lit_sh(), dashdash_cluster(), cluster, dashdash_project_id(), project])
            == Ok::<CliView, ArgsError>(
            CliView {
                command: CommandView::Sh(
                    ShArgsView {
                        cluster,
                        profile: lit_default(),
                        project_id: Some(project),
                        mongosh_args: Seq::empty(),
                    },
                ),
            },
        ),
{
    let args = seq![prog, lit_sh(), dashdash_cluster(), cluster, dashdash_project_id(), project];
    let toks = args.skip(2);
    assert(args[1] == lit_sh());
    assert(toks =~= seq![dashdash_cluster(), cluster, dashdash_project_id(), project]);
    assert(!lit_cluster().contains('=')) by {
        if lit_cluster().contains('=') {
            let i = choose|i: int| 0 <= i < lit_cluster().len() && lit_cluster()[i] == '=';
        }
    }
    assert(!lit_project_id().contains('=')) by {
        if lit_project_id().contains('=') {
            let i = choose|i: int| 0 <= i < lit_project_id().len() && lit_project_id()[i] == '=';
        }
    }
    lemma_plain_long(lit_cluster());
    lemma_plain_long(lit_project_id());
    let s0 = initial_scan();
    assert(scan(toks, 0) == Ok::<ScanState, ArgsError>(s0));
    assert(toks[0] == dashdash_cluster());
    assert(option_named(long_name(toks[0])) == Some(OptName::Cluster));
    let s1 = ScanState { pending: Some((OptName::Cluster, None)), ..s0 };
    assert(step(s0, toks[0]) == Ok::<ScanState, ArgsError>(s1));
    assert(scan(toks, 1) == Ok::<ScanState, ArgsError>(s1));
    assert(toks[1] == cluster);
    let s2 = ScanState { pending: Some((OptName::Cluster, Some(cluster))), ..s0 };
    assert(scan(toks, 2) == Ok::<ScanState, ArgsError>(s2));
    let s3 = ScanState { cluster: Some(cluster), pending: Some((OptName::ProjectId, None)), ..s0 };
    assert(resolve(s2) == Ok::<ScanState, ArgsError>(ScanState { cluster: Some(cluster), ..s0 }));
    assert(toks[2] == dashdash_project_id());
    assert(lit_project_id() != lit_cluster());
    assert(lit_project_id() != lit_profile()) by {
        assert(lit_project_id().len() != lit_profile().len());
    }
    assert(option_named(long_name(toks[2])) == Some(OptName::ProjectId));
    assert(scan(toks, 3) == Ok::<ScanState, ArgsError>(s3));
    let s4 = ScanState {
        cluster: Some(cluster),
        pending: Some((OptName::ProjectId, Some(project))),
        ..s0
    };
    assert(toks[3] == project);
    assert(scan(toks, 4) == Ok::<ScanState, ArgsError>(s4));
    let fin = ScanState { cluster: Some(cluster), project_id: Some(project), ..s0 };
    assert(resolve(s4) == Ok::<ScanState, ArgsError>(fin));
    assert(fin.forwarded =~= Seq::<Seq<char>>::empty());
}

} // verus!
