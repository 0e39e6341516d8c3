//! The course of an `sh` session, as a machine that the program drives: it
//! names the next piece of outside work (an action), the program performs it
//! and reports what came of it (an event), and the machine decides what
//! follows. mongosh is located before the keychain or Atlas is used, cached
//! credentials are reused only while they have not expired, a new user's
//! credentials are cached only when the keychain could be read, and a failed
//! write to the cache does not stop the session.
use vstd::prelude::*;
use crate::args::{ShArgs, texts};
use crate::credentials::{CachedCredentials, TTL_SECS};
use crate::domain::{ClusterName, KeyringAccount, ProjectId, account_text};
use crate::session::{
    CachedLookup, CredentialPlan, MongoshLocation, mongosh_argv, mongosh_location,
    plan_credentials, resolve_project_id, spec_mongosh_argv, spec_plan,
    law_mongosh_gets_every_forwarded_argument,
};
use crate::temp_user::{
    TempUserRequest, is_ascii_alphanumeric, is_uuid_v4_text, prepare_temp_user, username_prefix,
};
use crate::session::GENERATED_PASSWORD_LEN;
use crate::time::{Timestamp, spec_add_seconds, spec_rfc3339, valid_instant};

verus! {

/// Where a session stands.
pub enum Stage {
    /// Waiting for the profile to be loaded.
    LoadingProfile { args: ShArgs },
    /// Waiting for a search of `PATH` for mongosh.
    SearchingMongosh { args: ShArgs, profile_project: Option<String> },
    /// Waiting for the credential cache to be read.
    ReadingCache { mongosh: String, project: ProjectId, cluster: ClusterName, extra: Vec<String> },
    /// Waiting for Atlas to give the cluster's address.
    FindingCluster {
        mongosh: String,
        project: ProjectId,
        cluster: ClusterName,
        extra: Vec<String>,
        cache: bool,
    },
    /// Waiting for Atlas to create the temporary user.
    CreatingUser {
        mongosh: String,
        project: ProjectId,
        cluster: ClusterName,
        extra: Vec<String>,
        cache: bool,
        request: TempUserRequest,
        srv: String,
        now: Timestamp,
    },
    /// Waiting for the new credentials to be written to the cache.
    WritingCache { mongosh: String, argv: Vec<String>, expires_at: Timestamp, now: Timestamp },
    /// Nothing more to do.
    Finished,
}

/// What came of the last action.
pub enum SessionEvent {
    /// The profile was loaded: the mongosh path it sets, whether that path
    /// exists, and the project it names.
    ProfileLoaded { mongosh_path: Option<String>, mongosh_path_exists: bool, project_id: Option<String> },
    /// The search of `PATH` found mongosh here, or found nothing.
    MongoshSearched(Option<String>),
    /// Reading the cache gave `lookup`; the clock read `now`.
    CacheRead { lookup: CachedLookup, now: Timestamp },
    /// Atlas gave the cluster's SRV address; the clock read `now`.
    ClusterFound { srv: String, now: Timestamp },
    /// Atlas created the temporary user.
    UserCreated,
    /// Writing the cache has finished, whether it succeeded or not.
    CacheWritten,
}

/// The next piece of outside work.
pub enum SessionAction {
    /// Load the Atlas CLI profile of this name.
    LoadProfile { profile: String },
    /// Search `PATH` for mongosh.
    SearchMongosh,
    /// Read the cached credentials of this keychain account.
    ReadCache { account: KeyringAccount },
    /// Ask Atlas for the SRV address of the cluster.
    FindCluster { project: ProjectId, cluster: ClusterName },
    /// Ask Atlas to create this user, to be deleted at `delete_after`.
    CreateUser {
        project: ProjectId,
        cluster: ClusterName,
        username: String,
        password: String,
        delete_after: String,
    },
    /// Write these credentials to the cache.
    WriteCache { account: KeyringAccount, creds: CachedCredentials },
    /// Start mongosh with these arguments; its credentials expire at
    /// `expires_at`.
    Launch { mongosh: String, argv: Vec<String>, expires_at: Timestamp },
    /// Stop with this message.
    Fail { message: String },
}

/// A session of `sh`.
pub struct Session {
    stage: Stage,
}

impl Session {
    /// Where the session stands.
    pub closed spec fn stage(&self) -> Stage {
        self.stage
    }

    /// Credentials waiting to be used have not expired at the clock reading
    /// that produced them.
    #[verifier::type_invariant]
    spec fn inv(self) -> bool {
        match self.stage {
            Stage::CreatingUser { request, now, .. } => !request.expires_at.spec_le(now),
            Stage::WritingCache { expires_at, now, .. } => !expires_at.spec_le(now),
            _ => true,
        }
    }
}

/// The project of the session: the flag's, else the profile's.
pub open spec fn chosen_project(flag: Option<String>, profile: Option<String>) -> Option<Seq<char>> {
    match flag {
        Some(p) => Some(p@),
        None => match profile {
            Some(p) => Some(p@),
            None => None,
        },
    }
}

/// With mongosh found at `mongosh`, the session reads the cache of its
/// project's cluster, or stops when no project is known.
pub open spec fn located(
    args: ShArgs,
    mongosh: String,
    profile_project: Option<String>,
    rs: Stage,
    ra: SessionAction,
) -> bool {
    match chosen_project(args.project_id, profile_project) {
        None => {
            &&& rs is Finished
            &&& ra matches SessionAction::Fail { message } && message@
                == "No project ID configured. Use --project-id or run 'atlas config set project_id <id>'"@
        },
        Some(p) => {
            &&& rs matches Stage::ReadingCache { mongosh: m, project, cluster, extra } && m == mongosh
                && project@ == p && cluster@ == args.cluster@ && extra == args.mongosh_args
            &&& ra matches SessionAction::ReadCache { account } && account@ == account_text(
                p,
                args.cluster@,
            )
        },
    }
}

/// The clock reading that the credentials launched by this step are measured
/// against.
pub open spec fn latest_reading(st: Stage, e: SessionEvent) -> Timestamp {
    match e {
        SessionEvent::CacheRead { now, .. } => now,
        _ => match st {
            Stage::CreatingUser { now, .. } => now,
            Stage::WritingCache { now, .. } => now,
            _ => Timestamp { secs: 0, nanos: 0 },
        },
    }
}

/// The stage holds the location of mongosh.
pub open spec fn knows_mongosh(st: Stage) -> bool {
    ||| st is ReadingCache
    ||| st is FindingCluster
    ||| st is CreatingUser
    ||| st is WritingCache
}

/// The action works with the keychain or with Atlas.
pub open spec fn uses_keychain_or_atlas(a: SessionAction) -> bool {
    ||| a is ReadCache
    ||| a is FindCluster
    ||| a is CreateUser
    ||| a is WriteCache
}

/// What follows stage `st` when `e` is reported: the next stage `rs` and
/// action `ra`.
pub open spec fn next(st: Stage, e: SessionEvent, rs: Stage, ra: SessionAction) -> bool {
    match st {
        Stage::LoadingProfile { args } => match e {
            SessionEvent::ProfileLoaded { mongosh_path, mongosh_path_exists, project_id } => {
                if mongosh_path is Some && mongosh_path_exists {
                    located(args, mongosh_path->0, project_id, rs, ra)
                } else {
                    rs == (Stage::SearchingMongosh { args, profile_project: project_id })
                        && ra is SearchMongosh
                }
            },
            _ => unexpected(rs, ra),
        },
        Stage::SearchingMongosh { args, profile_project } => match e {
            SessionEvent::MongoshSearched(found) => match found {
                Some(p) => located(args, p, profile_project, rs, ra),
                None => {
                    &&& rs is Finished
                    &&& ra matches SessionAction::Fail { message } && message@
                        == "mongosh not found. Install: https://www.mongodb.com/try/download/shell"@
                },
            },
            _ => unexpected(rs, ra),
        },
        Stage::ReadingCache { mongosh, project, cluster, extra } => match e {
            SessionEvent::CacheRead { lookup, now } => match spec_plan(lookup, now) {
                CredentialPlan::UseCached(c) => {
                    &&& rs is Finished
                    &&& ra matches SessionAction::Launch { mongosh: m, argv, expires_at }
                    &&& m == mongosh
                    &&& texts(argv@) == spec_mongosh_argv(
                        c.connection_string@,
                        c.username@,
                        c.password@,
                        texts(extra@),
                    )
                    &&& expires_at == c.expires_at
                },
                plan => {
                    &&& rs == (Stage::FindingCluster {
                        mongosh,
                        project,
                        cluster,
                        extra,
                        cache: plan is CreateAndCache,
                    })
                    &&& ra matches SessionAction::FindCluster { project: p, cluster: c }
                    &&& p@ == project@ && c@ == cluster@
                },
            },
            _ => unexpected(rs, ra),
        },
        Stage::FindingCluster { mongosh, project, cluster, extra, cache } => match e {
            SessionEvent::ClusterFound { srv, now } => {
                let (secs, nanos) = spec_add_seconds(now, TTL_SECS as int);
                if !valid_instant(secs, nanos) {
                    &&& rs is Finished
                    &&& ra matches SessionAction::Fail { message } && message@
                        == "credential expiry is out of the representable range"@
                } else {
                    &&& rs matches Stage::CreatingUser {
                        mongosh: m,
                        project: p,
                        cluster: c,
                        extra: x,
                        cache: k,
                        request: q,
                        srv: s,
                        now: n,
                    }
                    &&& m == mongosh && p == project && c == cluster && x == extra && k == cache
                        && s == srv && n == now
                    &&& q.expires_at.secs == secs && q.expires_at.nanos == nanos
                    &&& q.delete_after@ == spec_rfc3339(q.expires_at.secs, q.expires_at.nanos)
                    &&& q.username@.len() == 45 && q.username@.take(9) == username_prefix()
                        && is_uuid_v4_text(q.username@.skip(9))
                    &&& q.password@.len() == GENERATED_PASSWORD_LEN && forall|i: int|
                        0 <= i < q.password@.len() ==> is_ascii_alphanumeric(#[trigger] q.password@[i])
                    &&& ra matches SessionAction::CreateUser {
                        project: p2,
                        cluster: c2,
                        username,
                        password,
                        delete_after,
                    }
                    &&& p2@ == project@ && c2@ == cluster@
                    &&& username@ == q.username@ && password@ == q.password@ && delete_after
                        == q.delete_after
                }
            },
            _ => unexpected(rs, ra),
        },
        Stage::CreatingUser { mongosh, project, cluster, extra, cache, request, srv, now } => match e {
            SessionEvent::UserCreated => {
                let argv_text = spec_mongosh_argv(
                    srv@,
                    request.username@,
                    request.password@,
                    texts(extra@),
                );
                if cache {
                    &&& rs matches Stage::WritingCache { mongosh: m, argv, expires_at, now: n }
                    &&& m == mongosh && texts(argv@) == argv_text && expires_at
                        == request.expires_at && n == now
                    &&& ra matches SessionAction::WriteCache { account, creds }
                    &&& account@ == account_text(project@, cluster@)
                    &&& creds.username == request.username && creds.password == request.password
                        && creds.connection_string@ == srv@ && creds.expires_at
                        == request.expires_at
                } else {
                    &&& rs is Finished
                    &&& ra matches SessionAction::Launch { mongosh: m, argv, expires_at }
                    &&& m == mongosh && texts(argv@) == argv_text && expires_at
                        == request.expires_at
                }
            },
            _ => unexpected(rs, ra),
        },
        Stage::WritingCache { mongosh, argv, expires_at, now } => match e {
            SessionEvent::CacheWritten => rs is Finished && ra == (SessionAction::Launch {
                mongosh,
                argv,
                expires_at,
            }),
            _ => unexpected(rs, ra),
        },
        Stage::Finished => unexpected(rs, ra),
    }
}

/// An event that the stage does not wait for ends the session.
pub open spec fn unexpected(rs: Stage, ra: SessionAction) -> bool {
    &&& rs is Finished
    &&& ra matches SessionAction::Fail { message } && message@ == "unexpected step in the session"@
}

fn copy_project(p: &ProjectId) -> (r: ProjectId)
    ensures
        r@ == p@,
{
    ProjectId::new(p.as_str())
}

fn copy_cluster(c: &ClusterName) -> (r: ClusterName)
    ensures
        r@ == c@,
{
    ClusterName::new(c.as_str())
}

fn unexpected_step() -> (r: (Session, SessionAction))
    ensures
        unexpected(r.0.stage(), r.1),
{
    (
        Session { stage: Stage::Finished },
        SessionAction::Fail { message: String::from_str("unexpected step in the session") },
    )
}

fn on_located(args: ShArgs, mongosh: String, profile_project: Option<String>) -> (r: (
    Session,
    SessionAction,
))
    ensures
        located(args, mongosh, profile_project, r.0.stage(), r.1),
{
    let ShArgs { cluster, profile: _, project_id, mongosh_args } = args;
    match resolve_project_id(project_id, profile_project) {
        Err(e) => (Session { stage: Stage::Finished }, SessionAction::Fail { message: e.message() }),
        Ok(project) => {
            let cluster = ClusterName::from_string(cluster);
            let account = KeyringAccount::new(&project, &cluster);
            (
                Session {
                    stage: Stage::ReadingCache {
                        mongosh,
                        project,
                        cluster,
                        extra: mongosh_args,
                    },
                },
                SessionAction::ReadCache { account },
            )
        },
    }
}

impl Session {
    /// Starts a session for `args`: its profile is loaded first.
    pub fn start(args: ShArgs) -> (r: (Session, SessionAction))
        ensures
            r.0.stage() == (Stage::LoadingProfile { args }),
            r.1 matches SessionAction::LoadProfile { profile } && profile@ == args.profile@,
    {
        let profile = String::from_str(args.profile.as_str());
        (Session { stage: Stage::LoadingProfile { args } }, SessionAction::LoadProfile { profile })
    }

    /// What follows when `e` is reported to the session.
    pub fn step(self, e: SessionEvent) -> (r: (Session, SessionAction))
        requires
            e matches SessionEvent::ClusterFound { now, .. } ==> now.wf(),
        ensures
            next(self.stage(), e, r.0.stage(), r.1),
            uses_keychain_or_atlas(r.1) ==> knows_mongosh(r.0.stage()),
            r.1 matches SessionAction::Launch { expires_at, .. } ==> !expires_at.spec_le(
                latest_reading(self.stage(), e),
            ),
    {
        proof {
            use_type_invariant(&self);
        }
        let Session { stage } = self;
        match stage {
            Stage::LoadingProfile { args } => match e {
                SessionEvent::ProfileLoaded { mongosh_path, mongosh_path_exists, project_id } => {
                    match mongosh_location(mongosh_path, mongosh_path_exists) {
                        MongoshLocation::Configured(p) => on_located(args, p, project_id),
                        MongoshLocation::SearchPath => (
                            Session {
                                stage: Stage::SearchingMongosh { args, profile_project: project_id },
                            },
                            SessionAction::SearchMongosh,
                        ),
                    }
                },
                _ => unexpected_step(),
            },
            Stage::SearchingMongosh { args, profile_project } => match e {
                SessionEvent::MongoshSearched(found) => match found {
                    Some(p) => on_located(args, p, profile_project),
                    None => (
                        Session { stage: Stage::Finished },
                        SessionAction::Fail {
                            message: String::from_str(
                                "mongosh not found. Install: https://www.mongodb.com/try/download/shell",
                            ),
                        },
                    ),
                },
                _ => unexpected_step(),
            },
            Stage::ReadingCache { mongosh, project, cluster, extra } => match e {
                SessionEvent::CacheRead { lookup, now } => {
                    let ghost plan = spec_plan(lookup, now);
                    match plan_credentials(lookup, now) {
                        CredentialPlan::UseCached(c) => {
                            let argv = mongosh_argv(&c, extra.as_slice());
                            (
                                Session { stage: Stage::Finished },
                                SessionAction::Launch { mongosh, argv, expires_at: c.expires_at },
                            )
                        },
                        CredentialPlan::CreateAndCache => {
                            let action = SessionAction::FindCluster {
                                project: copy_project(&project),
                                cluster: copy_cluster(&cluster),
                            };
                            (
                                Session {
                                    stage: Stage::FindingCluster {
                                        mongosh,
                                        project,
                                        cluster,
                                        extra,
                                        cache: true,
                                    },
                                },
                                action,
                            )
                        },
                        CredentialPlan::CreateUncached => {
                            let action = SessionAction::FindCluster {
                                project: copy_project(&project),
                                cluster: copy_cluster(&cluster),
                            };
                            (
                                Session {
                                    stage: Stage::FindingCluster {
                                        mongosh,
                                        project,
                                        cluster,
                                        extra,
                                        cache: false,
                                    },
                                },
                                action,
                            )
                        },
                    }
                },
                _ => unexpected_step(),
            },
            Stage::FindingCluster { mongosh, project, cluster, extra, cache } => match e {
                SessionEvent::ClusterFound { srv, now } => match prepare_temp_user(now) {
                    None => (
                        Session { stage: Stage::Finished },
                        SessionAction::Fail {
                            message: String::from_str(
                                "credential expiry is out of the representable range",
                            ),
                        },
                    ),
                    Some(request) => {
                        let action = SessionAction::CreateUser {
                            project: copy_project(&project),
                            cluster: copy_cluster(&cluster),
                            username: String::from_str(request.username.as_str()),
                            password: String::from_str(request.password.as_str()),
                            delete_after: request.delete_after.clone(),
                        };
                        (
                            Session {
                                stage: Stage::CreatingUser {
                                    mongosh,
                                    project,
                                    cluster,
                                    extra,
                                    cache,
                                    request,
                                    srv,
                                    now,
                                },
                            },
                            action,
                        )
                    },
                },
                _ => unexpected_step(),
            },
            Stage::CreatingUser { mongosh, project, cluster, extra, cache, request, srv, now } => {
                match e {
                    SessionEvent::UserCreated => {
                        let creds = request.into_credentials(srv);
                        let argv = mongosh_argv(&creds, extra.as_slice());
                        let expires_at = creds.expires_at;
                        if cache {
                            let account = KeyringAccount::new(&project, &cluster);
                            (
                                Session {
                                    stage: Stage::WritingCache { mongosh, argv, expires_at, now },
                                },
                                SessionAction::WriteCache { account, creds },
                            )
                        } else {
                            (
                                Session { stage: Stage::Finished },
                                SessionAction::Launch { mongosh, argv, expires_at },
                            )
                        }
                    },
                    _ => unexpected_step(),
                }
            },
            Stage::WritingCache { mongosh, argv, expires_at, now } => match e {
                SessionEvent::CacheWritten => (
                    Session { stage: Stage::Finished },
                    SessionAction::Launch { mongosh, argv, expires_at },
                ),
                _ => unexpected_step(),
            },
            Stage::Finished => unexpected_step(),
        }
    }
}

/// The arguments for mongosh that a stage carries: those the session was
/// started with until mongosh's arguments are built, and then the part of them
/// after the credentials.
pub open spec fn forwarded_of(st: Stage) -> Seq<Seq<char>> {
    match st {
        Stage::LoadingProfile { args } => texts(args.mongosh_args@),
        Stage::SearchingMongosh { args, .. } => texts(args.mongosh_args@),
        Stage::ReadingCache { extra, .. } => texts(extra@),
        Stage::FindingCluster { extra, .. } => texts(extra@),
        Stage::CreatingUser { extra, .. } => texts(extra@),
        Stage::WritingCache { argv, .. } => texts(argv@).skip(7),
        Stage::Finished => Seq::empty(),
    }
}

/// No step loses or changes the arguments for mongosh: a stage that follows
/// carries the same ones, and mongosh is launched with the connection
/// arguments followed by exactly those, whatever the cache gave.
pub proof fn law_forwarded_arguments_survive_every_step(
    st: Stage,
    e: SessionEvent,
    rs: Stage,
    ra: SessionAction,
)
    requires
        next(st, e, rs, ra),
    ensures
        !(rs is Finished) ==> forwarded_of(rs) == forwarded_of(st),
        ra matches SessionAction::Launch { argv, .. } ==> texts(argv@).skip(7) == forwarded_of(st)
            && !(st is Finished),
{
    match st {
        Stage::ReadingCache { extra, .. } => {
            if let SessionEvent::CacheRead { lookup, now } = e {
                if let CredentialPlan::UseCached(c) = spec_plan(lookup, now) {
                    law_mongosh_gets_every_forwarded_argument(
                        c.connection_string@,
                        c.username@,
                        c.password@,
                        texts(extra@),
                    );
                }
            }
        },
        Stage::CreatingUser { extra, request, srv, .. } => {
            law_mongosh_gets_every_forwarded_argument(
                srv@,
                request.username@,
                request.password@,
                texts(extra@),
            );
        },
        _ => {},
    }
}

/// A run of the session: `stages[i]` followed by `events[i]` gives
/// `stages[i + 1]` and `actions[i]`.
pub open spec fn is_run(
    stages: Seq<Stage>,
    events: Seq<SessionEvent>,
    actions: Seq<SessionAction>,
) -> bool {
    &&& stages.len() == events.len() + 1
    &&& actions.len() == events.len()
    &&& forall|i: int|
        0 <= i < events.len() ==> next(#[trigger] stages[i], events[i], stages[i + 1], actions[i])
}

proof fn lemma_run_keeps_forwarded(
    stages: Seq<Stage>,
    events: Seq<SessionEvent>,
    actions: Seq<SessionAction>,
    j: int,
)
    requires
        is_run(stages, events, actions),
        0 <= j < stages.len(),
    ensures
        !(stages[j] is Finished) ==> forwarded_of(stages[j]) == forwarded_of(stages[0]),
    decreases j,
{
    if j > 0 {
        lemma_run_keeps_forwarded(stages, events, actions, j - 1);
        assert(next(stages[j - 1], events[j - 1], stages[j], actions[j - 1]));
        law_forwarded_arguments_survive_every_step(
            stages[j - 1],
            events[j - 1],
            stages[j],
            actions[j - 1],
        );
    }
}

/// In every run of a session started for `args`, every launch of mongosh
/// passes it, after the connection arguments, exactly the arguments of `args`
/// that were to be forwarded, whether the credentials were cached, created and
/// cached, or created without a keychain.
pub proof fn law_every_launch_forwards_the_arguments(
    args: ShArgs,
    stages: Seq<Stage>,
    events: Seq<SessionEvent>,
    actions: Seq<SessionAction>,
)
    requires
        is_run(stages, events, actions),
        stages[0] == (Stage::LoadingProfile { args }),
    ensures
        forall|i: int|
            0 <= i < actions.len() ==> (#[trigger] actions[i] matches SessionAction::Launch { argv, .. }
                ==> texts(argv@).skip(7) == texts(args.mongosh_args@)),
{
    assert forall|i: int|
        0 <= i < actions.len() implies (#[trigger] actions[i] matches SessionAction::Launch {
        argv,
        ..
    } ==> texts(argv@).skip(7) == texts(args.mongosh_args@)) by {
        assert(next(stages[i], events[i], stages[i + 1], actions[i]));
        lemma_run_keeps_forwarded(stages, events, actions, i);
        law_forwarded_arguments_survive_every_step(stages[i], events[i], stages[i + 1], actions[i]);
    }
}

/// The project of a session is the `--project-id` flag if given, else the
/// project of the loaded profile, whether mongosh is found at the profile's
/// path or on `PATH`; without either, the session stops with the
/// configuration error. The cache read is that of `<project>:<cluster>`.
pub proof fn law_project_comes_from_flag_else_profile(
    args: ShArgs,
    mongosh_path: Option<String>,
    mongosh_path_exists: bool,
    profile_project: Option<String>,
    s1: Stage,
    a1: SessionAction,
    found: String,
    s2: Stage,
    a2: SessionAction,
)
    requires
        next(
            Stage::LoadingProfile { args },
            SessionEvent::ProfileLoaded {
                mongosh_path,
                mongosh_path_exists,
                project_id: profile_project,
            },
            s1,
            a1,
        ),
        a1 is SearchMongosh ==> next(s1, SessionEvent::MongoshSearched(Some(found)), s2, a2),
        !(a1 is SearchMongosh) ==> s2 == s1 && a2 == a1,
    ensures
        match args.project_id {
            Some(flag) => a2 matches SessionAction::ReadCache { account } && account@ == flag@ + seq![':']
                + args.cluster@,
            None => match profile_project {
                Some(p) => a2 matches SessionAction::ReadCache { account } && account@ == p@ + seq![
                    ':',
                ] + args.cluster@,
                None => a2 matches SessionAction::Fail { message } && message@
                    == "No project ID configured. Use --project-id or run 'atlas config set project_id <id>'"@,
            },
        },
{
}

/// When the cache could be read (something or nothing was cached) and the
/// cached credentials are not reused, the new user's credentials are written
/// to the cache of `<project>:<cluster>` before mongosh is launched; only when
/// the keychain is unavailable are they not written. Cached credentials are
/// reused exactly when some were cached and they expire after `now`.
pub proof fn law_new_credentials_are_cached_when_the_keychain_works(
    mongosh: String,
    project: ProjectId,
    cluster: ClusterName,
    extra: Vec<String>,
    lookup: CachedLookup,
    now: Timestamp,
    s1: Stage,
    a1: SessionAction,
    srv: String,
    later: Timestamp,
    s2: Stage,
    a2: SessionAction,
    s3: Stage,
    a3: SessionAction,
)
    requires
        next(
            Stage::ReadingCache { mongosh, project, cluster, extra },
            SessionEvent::CacheRead { lookup, now },
            s1,
            a1,
        ),
        !(a1 is Launch) ==> next(s1, SessionEvent::ClusterFound { srv, now: later }, s2, a2),
        a2 is CreateUser ==> next(s2, SessionEvent::UserCreated, s3, a3),
    ensures
        (a1 is Launch) <==> (lookup matches CachedLookup::Found(c) && !c.expires_at.spec_le(now)),
        !(a1 is Launch) ==> (a1 matches SessionAction::FindCluster { project: p, cluster: c } && p@
            == project@ && c@ == cluster@),
        !(a1 is Launch) && a2 is CreateUser ==> ((a3 is WriteCache) <==> !(lookup is Unavailable)),
        !(a1 is Launch) && a2 is CreateUser && !(lookup is Unavailable) ==> (a3 matches SessionAction::WriteCache {
            account,
            creds,
        } && account@ == project@ + seq![':'] + cluster@ && creds.connection_string@ == srv@),
        !(a1 is Launch) && a2 is CreateUser && lookup is Unavailable ==> a3 is Launch,
{
    let plan = spec_plan(lookup, now);
    if !(a1 is Launch) {
        assert(!(plan is UseCached));
        assert((plan is CreateAndCache) <==> !(lookup is Unavailable));
        assert(s1 == (Stage::FindingCluster {
            mongosh,
            project,
            cluster,
            extra,
            cache: plan is CreateAndCache,
        }));
        if a2 is CreateUser {
            let (secs, nanos) = spec_add_seconds(later, TTL_SECS as int);
            assert(valid_instant(secs, nanos));
            assert(s2 matches Stage::CreatingUser { cache: k, project: p, cluster: c, srv: v, .. } && k
                == (plan is CreateAndCache) && p == project && c == cluster && v == srv);
        }
    }
}

} // verus!
