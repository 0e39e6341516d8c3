use atlas_sh::args::ShArgs;
use atlas_sh::credentials::{CachedCredentials, TTL_SECS};
use atlas_sh::domain::{ConnectionString, Password, Username};
use atlas_sh::flow::{Session, SessionAction, SessionEvent};
use atlas_sh::session::CachedLookup;
use atlas_sh::time::Timestamp;

fn args(project: Option<&str>) -> ShArgs {
    ShArgs {
        cluster: "c".to_string(),
        profile: "staging".to_string(),
        project_id: project.map(|p| p.to_string()),
        mongosh_args: vec!["--quiet".to_string()],
    }
}

fn located(project: Option<&str>) -> Session {
    let (s, a) = Session::start(args(project));
    assert!(matches!(a, SessionAction::LoadProfile { ref profile } if profile == "staging"));
    let (s, a) = s.step(SessionEvent::ProfileLoaded {
        mongosh_path: Some("/bin/mongosh".to_string()),
        mongosh_path_exists: true,
        project_id: Some("profile-project".to_string()),
    });
    match a {
        SessionAction::ReadCache { account } => {
            assert_eq!(account.as_str(), format!("{}:c", project.unwrap_or("profile-project")))
        }
        _ => panic!("expected a cache read"),
    }
    s
}

#[test]
fn cached_credentials_are_launched_while_fresh() {
    let s = located(Some("p"));
    let creds = CachedCredentials::new(
        Username::new("u"),
        Password::new("pw"),
        ConnectionString::new("srv://x"),
        Timestamp { secs: 100, nanos: 0 },
    );
    let (_, a) = s.step(SessionEvent::CacheRead {
        lookup: CachedLookup::Found(creds),
        now: Timestamp { secs: 50, nanos: 0 },
    });
    match a {
        SessionAction::Launch { mongosh, argv, expires_at } => {
            assert_eq!(mongosh, "/bin/mongosh");
            assert_eq!(
                argv,
                vec!["srv://x", "--username", "u", "--password", "pw", "--authenticationDatabase", "admin", "--quiet"]
            );
            assert_eq!(expires_at, Timestamp { secs: 100, nanos: 0 });
        }
        _ => panic!("expected a launch"),
    }
}

#[test]
fn a_new_user_is_created_cached_and_launched() {
    let s = located(None);
    let (s, a) = s.step(SessionEvent::CacheRead {
        lookup: CachedLookup::Missing,
        now: Timestamp { secs: 50, nanos: 0 },
    });
    assert!(matches!(a, SessionAction::FindCluster { ref project, ref cluster }
        if project.as_str() == "profile-project" && cluster.as_str() == "c"));
    let now = Timestamp { secs: 1_000, nanos: 0 };
    let (s, a) = s.step(SessionEvent::ClusterFound { srv: "mongodb+srv://c.net".to_string(), now });
    let (user, pw) = match a {
        SessionAction::CreateUser { project, cluster, username, password, delete_after } => {
            assert_eq!(project.as_str(), "profile-project");
            assert_eq!(cluster.as_str(), "c");
            assert!(username.starts_with("atlas-sh-"));
            assert_eq!(password.len(), 32);
            assert_eq!(delete_after, "1970-01-01T08:16:40+00:00");
            (username, password)
        }
        _ => panic!("expected a user creation"),
    };
    let (s, a) = s.step(SessionEvent::UserCreated);
    match a {
        SessionAction::WriteCache { account, creds } => {
            assert_eq!(account.as_str(), "profile-project:c");
            assert_eq!(creds.username.as_str(), user);
            assert_eq!(creds.password.as_str(), pw);
            assert_eq!(creds.connection_string.as_str(), "mongodb+srv://c.net");
            assert_eq!(creds.expires_at, Timestamp { secs: 1_000 + TTL_SECS, nanos: 0 });
        }
        _ => panic!("expected a cache write"),
    }
    let (_, a) = s.step(SessionEvent::CacheWritten);
    match a {
        SessionAction::Launch { argv, expires_at, .. } => {
            assert_eq!(argv[0], "mongodb+srv://c.net");
            assert_eq!(argv[2], user);
            assert_eq!(argv.last().unwrap(), "--quiet");
            assert_eq!(expires_at, Timestamp { secs: 1_000 + TTL_SECS, nanos: 0 });
        }
        _ => panic!("expected a launch"),
    }
}

#[test]
fn without_a_keychain_the_new_user_is_not_cached() {
    let s = located(Some("p"));
    let (s, _) = s.step(SessionEvent::CacheRead {
        lookup: CachedLookup::Unavailable,
        now: Timestamp { secs: 50, nanos: 0 },
    });
    let (s, _) = s.step(SessionEvent::ClusterFound {
        srv: "srv".to_string(),
        now: Timestamp { secs: 60, nanos: 0 },
    });
    let (_, a) = s.step(SessionEvent::UserCreated);
    assert!(matches!(a, SessionAction::Launch { .. }));
}

#[test]
fn mongosh_is_searched_for_when_the_profile_sets_none() {
    let (s, _) = Session::start(args(Some("p")));
    let (s, a) = s.step(SessionEvent::ProfileLoaded {
        mongosh_path: Some("/missing".to_string()),
        mongosh_path_exists: false,
        project_id: None,
    });
    assert!(matches!(a, SessionAction::SearchMongosh));
    let (_, a) = s.step(SessionEvent::MongoshSearched(None));
    assert!(matches!(a, SessionAction::Fail { ref message }
        if message == "mongosh not found. Install: https://www.mongodb.com/try/download/shell"));
}

#[test]
fn no_project_ends_the_session() {
    let (s, _) = Session::start(args(None));
    let (s, a) = s.step(SessionEvent::ProfileLoaded {
        mongosh_path: None,
        mongosh_path_exists: false,
        project_id: None,
    });
    assert!(matches!(a, SessionAction::SearchMongosh));
    let (_, a) = s.step(SessionEvent::MongoshSearched(Some("/usr/bin/mongosh".to_string())));
    assert!(matches!(a, SessionAction::Fail { ref message }
        if message.starts_with("No project ID configured")));
}

#[test]
fn an_unexpected_event_ends_the_session() {
    let (s, _) = Session::start(args(Some("p")));
    let (s, a) = s.step(SessionEvent::UserCreated);
    assert!(matches!(a, SessionAction::Fail { ref message } if message == "unexpected step in the session"));
    let (_, a) = s.step(SessionEvent::CacheWritten);
    assert!(matches!(a, SessionAction::Fail { .. }));
}

#[test]
fn law_arguments_after_the_options_are_forwarded_example() {
    let cli = atlas_sh::args::Cli::try_parse_from(&[
        "atlas", "sh", "--profile=x", "--project-id", "p", "--cluster=c", "run", "--cluster", "d",
    ])
    .unwrap();
    let atlas_sh::args::PluginSubCommands::Sh(a) = cli.command;
    assert_eq!(a.profile, "x");
    assert_eq!(a.mongosh_args, vec!["run", "--cluster", "d"]);
}
