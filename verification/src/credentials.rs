//! Credentials of a temporary database user, as cached in the OS keychain,
//! and the rules by which the cache is read and cleared.
use vstd::prelude::*;
use crate::domain::{ConnectionString, Password, Username};
use crate::time::{NANOS_PER_SEC, Timestamp, spec_utc_debug};

verus! {

/// The keychain service under which credentials are kept.
pub const KEYRING_SERVICE: &'static str = "atlas-sh";

/// How long a temporary database user lives, in hours.
pub const TTL_HOURS: i64 = 8;

/// How long a temporary database user lives, in seconds.
pub const TTL_SECS: i64 = 28_800;

/// The credentials of a temporary database user and the instant they expire.
pub struct CachedCredentials {
    pub username: Username,
    pub password: Password,
    pub connection_string: ConnectionString,
    pub expires_at: Timestamp,
}

impl CachedCredentials {
    pub fn new(
        username: Username,
        password: Password,
        connection_string: ConnectionString,
        expires_at: Timestamp,
    ) -> (r: Self)
        ensures
            r.username == username,
            r.password == password,
            r.connection_string == connection_string,
            r.expires_at == expires_at,
    {
        CachedCredentials { username, password, connection_string, expires_at }
    }

    /// The credentials are expired at `now`: their expiry is not later than it.
    pub open spec fn expired_at(&self, now: Timestamp) -> bool {
        self.expires_at.spec_le(now)
    }

    /// Whether the credentials are expired at `now`.
    pub fn is_expired_at(&self, now: Timestamp) -> (r: bool)
        ensures
            r == self.expired_at(now),
    {
        self.expires_at.le(&now)
    }

    /// Whether the credentials are expired now, by the system clock.
    pub fn is_expired(&self) -> (r: bool)
        ensures
            exists|now: Timestamp|
                now.wf() && now.nanos < NANOS_PER_SEC && r == self.expired_at(now),
    {
        let now = Timestamp::now();
        self.is_expired_at(now)
    }

    /// A description of the credentials for logs and debugging, in which the
    /// password and the connection string are replaced by `REDACTED`.
    pub fn debug_text(&self) -> (r: String)
        requires
            self.expires_at.wf(),
        ensures
            r@ == credentials_debug_text(
                self.username@,
                spec_utc_debug(self.expires_at.secs, self.expires_at.nanos),
            ),
    {
        let when = self.expires_at.debug_text();
        self.debug_text_with_expiry(when.as_str())
    }

    /// The description of the credentials, with their expiry written as
    /// `expiry`.
    pub fn debug_text_with_expiry(&self, expiry: &str) -> (r: String)
        ensures
            r@ == credentials_debug_text(self.username@, expiry@),
    {
        String::from_str("CachedCredentials { username: Username(\"")
            .concat(self.username.as_str())
            .concat("\"), password: Password(REDACTED), connection_string: ConnectionString(REDACTED), expires_at: ")
            .concat(expiry)
            .concat(" }")
    }
}

/// The description of cached credentials: only the user name and the expiry
/// appear in it.
pub open spec fn credentials_debug_text(username: Seq<char>, expiry: Seq<char>) -> Seq<char> {
    "CachedCredentials { username: Username(\""@ + username
        + "\"), password: Password(REDACTED), connection_string: ConnectionString(REDACTED), expires_at: "@
        + expiry + " }"@
}

/// What a keychain operation came to.
pub enum KeyringOutcome<T> {
    /// The operation succeeded with this result.
    Done(T),
    /// No entry exists for the account.
    NoEntry,
    /// The keychain failed, with this message.
    Failed(String),
}

/// The cached entry that a keychain read yields: `Some` of its text when there
/// is one, `None` when nothing is cached, and an error when the keychain
/// failed.
pub fn loaded_entry(outcome: KeyringOutcome<String>) -> (r: Result<Option<String>, String>)
    ensures
        match outcome {
            KeyringOutcome::Done(text) => r == Ok::<Option<String>, String>(Some(text)),
            KeyringOutcome::NoEntry => r == Ok::<Option<String>, String>(None),
            KeyringOutcome::Failed(msg) => r matches Err(e) && e@ == "keyring error: "@ + msg@,
        },
{
    match outcome {
        KeyringOutcome::Done(text) => Ok(Some(text)),
        KeyringOutcome::NoEntry => Ok(None),
        KeyringOutcome::Failed(msg) => Err(String::from_str("keyring error: ").concat(msg.as_str())),
    }
}

/// Whether clearing the cache removed an entry: `true` when one was
/// removed, `false` when none was cached (so clearing twice is no error), and
/// an error when the keychain failed.
pub fn invalidated(outcome: KeyringOutcome<()>) -> (r: Result<bool, String>)
    ensures
        match outcome {
            KeyringOutcome::Done(_) => r == Ok::<bool, String>(true),
            KeyringOutcome::NoEntry => r == Ok::<bool, String>(false),
            KeyringOutcome::Failed(msg) => r matches Err(e) && e@
                == "failed to delete keyring entry: "@ + msg@,
        },
{
    match outcome {
        KeyringOutcome::Done(_) => Ok(true),
        KeyringOutcome::NoEntry => Ok(false),
        KeyringOutcome::Failed(msg) => Err(
            String::from_str("failed to delete keyring entry: ").concat(msg.as_str()),
        ),
    }
}

} // verus!
