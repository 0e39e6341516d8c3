//! The decisions the plugin takes to open a mongosh session: which project
//! to use, whether cached credentials can be reused, what temporary user to
//! create, and how mongosh is invoked.
use vstd::prelude::*;
use crate::args::texts;
use crate::credentials::CachedCredentials;
use crate::domain::{ClusterName, ProjectId};
use crate::time::Timestamp;

verus! {

/// Length of a generated password. Atlas accepts passwords of 4 to 128
/// characters; 32 alphanumerics carry about 190 bits of entropy.
pub const GENERATED_PASSWORD_LEN: usize = 32;

/// Why no project could be chosen.
#[derive(Clone, Copy, Debug, PartialEq, Eq, Structural)]
pub enum ConfigError {
    /// Neither `--project-id` nor the profile names a project.
    NoProjectId,
}

impl ConfigError {
    /// The message shown to the user.
    pub fn message(&self) -> (r: String)
        ensures
            r@ == "No project ID configured. Use --project-id or run 'atlas config set project_id <id>'"@,
    {
        String::from_str("No project ID configured. Use --project-id or run 'atlas config set project_id <id>'")
    }
}

/// The project to work in: the one given with `--project-id`, else the one
/// of the profile.
pub fn resolve_project_id(flag: Option<String>, configured: Option<String>) -> (r: Result<
    ProjectId,
    ConfigError,
>)
    ensures
        match flag {
            Some(p) => r matches Ok(id) && id@ == p@,
            None => match configured {
                Some(c) => r matches Ok(id) && id@ == c@,
                None => r == Err::<ProjectId, ConfigError>(ConfigError::NoProjectId),
            },
        },
{
    match flag {
        Some(p) => Ok(ProjectId::from_string(p)),
        None => match configured {
            Some(c) => Ok(ProjectId::from_string(c)),
            None => Err(ConfigError::NoProjectId),
        },
    }
}

/// Where mongosh is taken from.
pub enum MongoshLocation {
    /// The path set in the profile.
    Configured(String),
    /// A search of `PATH`.
    SearchPath,
}

/// Mongosh is taken from the profile's path when one is set and exists, and
/// searched for on `PATH` otherwise.
pub fn mongosh_location(configured: Option<String>, configured_exists: bool) -> (r: MongoshLocation)
    ensures
        match configured {
            Some(p) => if configured_exists {
                r matches MongoshLocation::Configured(q) && q == p
            } else {
                r is SearchPath
            },
            None => r is SearchPath,
        },
{
    match configured {
        Some(p) => if configured_exists {
            MongoshLocation::Configured(p)
        } else {
            MongoshLocation::SearchPath
        },
        None => MongoshLocation::SearchPath,
    }
}

/// What reading the credential cache gave.
pub enum CachedLookup {
    /// Credentials were cached.
    Found(CachedCredentials),
    /// Nothing was cached.
    Missing,
    /// The keychain could not be used.
    Unavailable,
}

/// Where the credentials of the session come from.
pub enum CredentialPlan {
    /// Cached credentials that have not expired.
    UseCached(CachedCredentials),
    /// A new temporary user, whose credentials are then cached.
    CreateAndCache,
    /// A new temporary user, not cached because the keychain is unavailable.
    CreateUncached,
}

/// The choice of credentials for a session started at `now`.
pub open spec fn spec_plan(lookup: CachedLookup, now: Timestamp) -> CredentialPlan {
    match lookup {
        CachedLookup::Found(c) => if c.expired_at(now) {
            CredentialPlan::CreateAndCache
        } else {
            CredentialPlan::UseCached(c)
        },
        CachedLookup::Missing => CredentialPlan::CreateAndCache,
        CachedLookup::Unavailable => CredentialPlan::CreateUncached,
    }
}

/// Chooses the credentials of a session started at `now`: cached ones while
/// they have not expired, else a new user, cached when the keychain works.
pub fn plan_credentials(lookup: CachedLookup, now: Timestamp) -> (r: CredentialPlan)
    ensures
        r == spec_plan(lookup, now),
        r matches CredentialPlan::UseCached(c) ==> !c.expired_at(now),
{
    match lookup {
        CachedLookup::Found(c) => if c.is_expired_at(now) {
            CredentialPlan::CreateAndCache
        } else {
            CredentialPlan::UseCached(c)
        },
        CachedLookup::Missing => CredentialPlan::CreateAndCache,
        CachedLookup::Unavailable => CredentialPlan::CreateUncached,
    }
}

/// The arguments mongosh is started with: the connection string, the
/// credentials, the authentication database, then the forwarded arguments.
pub open spec fn spec_mongosh_argv(
    connection: Seq<char>,
    username: Seq<char>,
    password: Seq<char>,
    extra: Seq<Seq<char>>,
) -> Seq<Seq<char>> {
    seq![
        connection,
        "--username"@,
        username,
        "--password"@,
        password,
        "--authenticationDatabase"@,
        "admin"@,
    ] + extra
}

/// The arguments mongosh is started with for `creds`, the arguments that the
/// plugin did not recognise coming last and unchanged.
pub fn mongosh_argv(creds: &CachedCredentials, extra: &[String]) -> (r: Vec<String>)
    ensures
        texts(r@) == spec_mongosh_argv(
            creds.connection_string@,
            creds.username@,
            creds.password@,
            texts(extra@),
        ),
{
    let mut r: Vec<String> = Vec::new();
    r.push(String::from_str(creds.connection_string.as_str()));
    r.push(String::from_str("--username"));
    r.push(String::from_str(creds.username.as_str()));
    r.push(String::from_str("--password"));
    r.push(String::from_str(creds.password.as_str()));
    r.push(String::from_str("--authenticationDatabase"));
    r.push(String::from_str("admin"));
    let ghost head = texts(r@);
    assert(head =~= spec_mongosh_argv(
        creds.connection_string@,
        creds.username@,
        creds.password@,
        Seq::empty(),
    ));
    let n = extra.len();
    let mut i: usize = 0;
    while i < n
        invariant
            n == extra@.len(),
            i <= n,
            r@.len() == 7 + i,
            texts(r@) =~= head + texts(extra@).take(i as int),
        decreases n - i,
    {
        let ghost before = r@;
        let item = extra[i].clone();
        assert(item@ == extra@[i as int]@);
        r.push(item);
        assert(texts(r@) =~= texts(before).push(extra@[i as int]@));
        assert(texts(extra@).take(i + 1) =~= texts(extra@).take(i as int).push(extra@[i as int]@));
        i = i + 1;
    }
    assert(texts(extra@).take(n as int) =~= texts(extra@));
    r
}

/// The message shown after clearing the cache of `cluster` in `project`.
pub fn logout_message(removed: bool, cluster: &ClusterName, project: &ProjectId) -> (r: String)
    ensures
        r@ == (if removed {
            "Removed cached credentials for cluster '"@
        } else {
            "No cached credentials for cluster '"@
        }) + cluster@ + "' in project '"@ + project@ + "'."@,
{
    let head = if removed {
        String::from_str("Removed cached credentials for cluster '")
    } else {
        String::from_str("No cached credentials for cluster '")
    };
    head.concat(cluster.as_str()).concat("' in project '").concat(project.as_str()).concat("'.")
}

/// mongosh is started with the connection string, `--username` and the user,
/// `--password` and the password, `--authenticationDatabase admin`, and then
/// every forwarded argument, in order and unchanged, and nothing else.
pub proof fn law_mongosh_gets_every_forwarded_argument(
    connection: Seq<char>,
    username: Seq<char>,
    password: Seq<char>,
    extra: Seq<Seq<char>>,
)
    ensures
        ({
            let argv = spec_mongosh_argv(connection, username, password, extra);
            &&& argv.len() == 7 + extra.len()
            &&& argv[0] == connection
            &&& argv[1] == "--username"@
            &&& argv[2] == username
            &&& argv[3] == "--password"@
            &&& argv[4] == password
            &&& argv[5] == "--authenticationDatabase"@
            &&& argv[6] == "admin"@
            &&& forall|i: int| 0 <= i < extra.len() ==> #[trigger] argv[7 + i] == extra[i]
            &&& argv.skip(7) == extra
        }),
{
    let argv = spec_mongosh_argv(connection, username, password, extra);
    assert(argv.skip(7) =~= extra);
}

} // verus!
