use atlas_sh::credentials::{
    invalidated, loaded_entry, CachedCredentials, KeyringOutcome, TTL_HOURS, TTL_SECS,
};
use atlas_sh::domain::{ClusterName, ConnectionString, KeyringAccount, Password, ProjectId, Username};
use atlas_sh::time::Timestamp;

fn timestamp(t: chrono::DateTime<chrono::Utc>) -> Timestamp {
    Timestamp { secs: t.timestamp(), nanos: t.timestamp_subsec_nanos() }
}

fn fresh_creds() -> CachedCredentials {
    CachedCredentials::new(
        Username::new("atlas-sh-user"),
        Password::new("super-secret"),
        ConnectionString::new("mongodb+srv://cluster.abc.mongodb.net"),
        timestamp(chrono::Utc::now() + chrono::Duration::hours(TTL_HOURS)),
    )
}

#[test]
fn debug_redacts_secrets() {
    let creds = fresh_creds();
    let debug = creds.debug_text();
    assert!(
        !debug.contains("super-secret"),
        "password must not appear in Debug",
    );
    assert!(
        !debug.contains("mongodb+srv"),
        "connection string must not appear in Debug",
    );
    assert!(debug.contains("REDACTED"));
}

#[test]
fn debug_text_names_user_and_expiry() {
    let creds = CachedCredentials::new(
        Username::new("u1"),
        Password::new("pw"),
        ConnectionString::new("mongodb+srv://x"),
        Timestamp { secs: 0, nanos: 0 },
    );
    assert_eq!(
        creds.debug_text(),
        "CachedCredentials { username: Username(\"u1\"), password: Password(REDACTED), \
         connection_string: ConnectionString(REDACTED), expires_at: 1970-01-01T00:00:00Z }"
    );
}

#[test]
fn is_expired_false_when_fresh() {
    let mut creds = fresh_creds();
    creds.expires_at = timestamp(chrono::Utc::now() + chrono::Duration::hours(1));
    assert!(!creds.is_expired());
}

#[test]
fn is_expired_true_when_past() {
    let mut creds = fresh_creds();
    creds.expires_at = timestamp(chrono::Utc::now() - chrono::Duration::seconds(1));
    assert!(creds.is_expired());
}

#[test]
fn is_expired_at_is_inclusive() {
    let mut creds = fresh_creds();
    creds.expires_at = Timestamp { secs: 100, nanos: 5 };
    assert!(creds.is_expired_at(Timestamp { secs: 100, nanos: 5 }));
    assert!(!creds.is_expired_at(Timestamp { secs: 100, nanos: 4 }));
    assert!(creds.is_expired_at(Timestamp { secs: 101, nanos: 0 }));
    assert!(!creds.is_expired_at(Timestamp { secs: 99, nanos: 999_999_999 }));
}

#[test]
fn keyring_account_passes_through_to_underlying_apis() {
    let account = KeyringAccount::new(&ProjectId::new("p"), &ClusterName::new("c"));
    // We cannot exercise the real keyring in unit tests without flakiness
    // on different platforms; the assertion documents the format the
    // keyring sees.
    assert_eq!(account.as_str(), "p:c");
}

#[test]
fn law_accounts_are_distinct_example() {
    let a = KeyringAccount::new(&ProjectId::new("p1"), &ClusterName::new("c"));
    let b = KeyringAccount::new(&ProjectId::new("p"), &ClusterName::new("1c"));
    assert_ne!(a.as_str(), b.as_str());
}

#[test]
fn ttl_is_eight_hours() {
    assert_eq!(TTL_HOURS, 8);
    assert_eq!(TTL_SECS, TTL_HOURS * 3600);
}

#[test]
fn keyring_read_outcomes() {
    assert_eq!(loaded_entry(KeyringOutcome::Done("{}".to_string())), Ok(Some("{}".to_string())));
    assert_eq!(loaded_entry(KeyringOutcome::NoEntry), Ok(None));
    assert_eq!(
        loaded_entry(KeyringOutcome::Failed("locked".to_string())),
        Err("keyring error: locked".to_string())
    );
}

#[test]
fn keyring_delete_outcomes() {
    assert_eq!(invalidated(KeyringOutcome::Done(())), Ok(true));
    assert_eq!(invalidated(KeyringOutcome::NoEntry), Ok(false));
    assert_eq!(
        invalidated(KeyringOutcome::Failed("denied".to_string())),
        Err("failed to delete keyring entry: denied".to_string())
    );
}

#[test]
fn debug_text_with_given_expiry() {
    let creds = fresh_creds();
    assert_eq!(
        creds.debug_text_with_expiry("soon"),
        "CachedCredentials { username: Username(\"atlas-sh-user\"), password: Password(REDACTED), \
         connection_string: ConnectionString(REDACTED), expires_at: soon }"
    );
}
