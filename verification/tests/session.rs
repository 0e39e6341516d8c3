use atlas_sh::credentials::{CachedCredentials, TTL_SECS};
use atlas_sh::domain::{ClusterName, ConnectionString, Password, ProjectId, Username};
use atlas_sh::session::{
    logout_message, mongosh_argv, mongosh_location, plan_credentials, resolve_project_id,
    CachedLookup, ConfigError, CredentialPlan, MongoshLocation, GENERATED_PASSWORD_LEN,
};
use atlas_sh::temp_user::{
    credential_expiry, generate_password, new_temp_username, prepare_temp_user, temp_username,
};
use atlas_sh::time::Timestamp;

fn creds(expiry: i64) -> CachedCredentials {
    CachedCredentials::new(
        Username::new("user"),
        Password::new("pw"),
        ConnectionString::new("mongodb+srv://c.example.net"),
        Timestamp { secs: expiry, nanos: 0 },
    )
}

#[test]
fn project_flag_wins_over_profile() {
    let id = resolve_project_id(Some("flag".to_string()), Some("cfg".to_string())).unwrap();
    assert_eq!(id.as_str(), "flag");
    let id = resolve_project_id(None, Some("cfg".to_string())).unwrap();
    assert_eq!(id.as_str(), "cfg");
    let err = resolve_project_id(None, None).err().unwrap();
    assert_eq!(err, ConfigError::NoProjectId);
    assert_eq!(
        err.message(),
        "No project ID configured. Use --project-id or run 'atlas config set project_id <id>'"
    );
}

#[test]
fn mongosh_location_prefers_existing_configured_path() {
    assert!(matches!(
        mongosh_location(Some("/opt/mongosh".to_string()), true),
        MongoshLocation::Configured(p) if p == "/opt/mongosh"
    ));
    assert!(matches!(
        mongosh_location(Some("/opt/mongosh".to_string()), false),
        MongoshLocation::SearchPath
    ));
    assert!(matches!(mongosh_location(None, true), MongoshLocation::SearchPath));
}

#[test]
fn fresh_cached_credentials_are_reused() {
    let now = Timestamp { secs: 1000, nanos: 0 };
    assert!(matches!(
        plan_credentials(CachedLookup::Found(creds(2000)), now),
        CredentialPlan::UseCached(c) if c.username.as_str() == "user"
    ));
    assert!(matches!(
        plan_credentials(CachedLookup::Found(creds(1000)), now),
        CredentialPlan::CreateAndCache
    ));
    assert!(matches!(plan_credentials(CachedLookup::Missing, now), CredentialPlan::CreateAndCache));
    assert!(matches!(
        plan_credentials(CachedLookup::Unavailable, now),
        CredentialPlan::CreateUncached
    ));
}

#[test]
fn mongosh_is_called_with_credentials_then_forwarded_arguments() {
    let extra = vec!["--eval".to_string(), "show dbs".to_string()];
    let argv = mongosh_argv(&creds(0), &extra);
    assert_eq!(
        argv,
        vec![
            "mongodb+srv://c.example.net",
            "--username",
            "user",
            "--password",
            "pw",
            "--authenticationDatabase",
            "admin",
            "--eval",
            "show dbs",
        ]
    );
    assert_eq!(mongosh_argv(&creds(0), &[]).len(), 7);
}

#[test]
fn logout_messages() {
    let c = ClusterName::new("c0");
    let p = ProjectId::new("p0");
    assert_eq!(
        logout_message(true, &c, &p),
        "Removed cached credentials for cluster 'c0' in project 'p0'."
    );
    assert_eq!(
        logout_message(false, &c, &p),
        "No cached credentials for cluster 'c0' in project 'p0'."
    );
}

#[test]
fn temp_user_names() {
    assert_eq!(temp_username("1234").as_str(), "atlas-sh-1234");
    let u = new_temp_username();
    let s = u.as_str();
    assert_eq!(s.len(), 45);
    assert!(s.starts_with("atlas-sh-"));
    assert_eq!(&s[9 + 14..9 + 15], "4");
    assert_ne!(new_temp_username().as_str(), s);
}

#[test]
fn generated_passwords_are_alphanumeric() {
    let p = generate_password();
    assert_eq!(p.as_str().len(), GENERATED_PASSWORD_LEN);
    assert!(p.as_str().chars().all(|c| c.is_ascii_alphanumeric()));
    assert_ne!(generate_password().as_str(), p.as_str());
}

#[test]
fn expiry_is_eight_hours_later() {
    let now = Timestamp { secs: 1_700_000_000, nanos: 42 };
    let e = credential_expiry(now).unwrap();
    assert_eq!(e, Timestamp { secs: 1_700_000_000 + TTL_SECS, nanos: 42 });
    let last = Timestamp { secs: atlas_sh::time::MAX_UTC_SECS - 10, nanos: 0 };
    assert_eq!(credential_expiry(last), None);
}

#[test]
fn leap_second_is_counted_as_the_second_before() {
    let leap = Timestamp { secs: 59, nanos: 1_500_000_000 };
    assert_eq!(leap.checked_add_seconds(1), Some(Timestamp { secs: 60, nanos: 500_000_000 }));
}

#[test]
fn prepared_temp_user() {
    let now = Timestamp { secs: 0, nanos: 0 };
    let q = prepare_temp_user(now).unwrap();
    assert_eq!(q.expires_at, Timestamp { secs: TTL_SECS, nanos: 0 });
    assert_eq!(q.delete_after, "1970-01-01T08:00:00+00:00");
    assert!(q.username.as_str().starts_with("atlas-sh-"));
    let creds = q.into_credentials("mongodb+srv://x".to_string());
    assert_eq!(creds.connection_string.as_str(), "mongodb+srv://x");
    assert_eq!(creds.expires_at, Timestamp { secs: TTL_SECS, nanos: 0 });
    assert!(!creds.is_expired_at(now));
}

#[test]
fn law_fresh_credentials_live_for_the_ttl_example() {
    let now = Timestamp { secs: 5_000, nanos: 7 };
    let q = prepare_temp_user(now).unwrap();
    let c = q.into_credentials("s".to_string());
    assert!(!c.is_expired_at(now));
    assert!(!c.is_expired_at(Timestamp { secs: 5_000 + TTL_SECS, nanos: 6 }));
    assert!(c.is_expired_at(Timestamp { secs: 5_000 + TTL_SECS, nanos: 7 }));
}

#[test]
fn rfc3339_of_instants() {
    assert_eq!(Timestamp { secs: 0, nanos: 0 }.to_rfc3339(), "1970-01-01T00:00:00+00:00");
    assert_eq!(
        Timestamp { secs: 1_700_000_000, nanos: 500_000_000 }.to_rfc3339(),
        "2023-11-14T22:13:20.500+00:00"
    );
    let now = Timestamp::now();
    assert!(now.secs > 1_700_000_000);
}

#[test]
fn temp_user_request_from_given_parts() {
    let q = atlas_sh::temp_user::temp_user_request(
        "0000",
        Password::new("pw"),
        Timestamp { secs: 10, nanos: 0 },
        "then".to_string(),
    );
    assert_eq!(q.username.as_str(), "atlas-sh-0000");
    assert_eq!(q.password.as_str(), "pw");
    assert_eq!(q.expires_at, Timestamp { secs: 10, nanos: 0 });
    assert_eq!(q.delete_after, "then");
}
