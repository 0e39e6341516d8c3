//! The temporary database user the plugin creates when no usable cached
//! credentials exist: a fresh name, a random password, and an expiry a fixed
//! time after its creation.
use vstd::prelude::*;
use crate::credentials::{CachedCredentials, TTL_SECS};
use crate::domain::{ConnectionString, Password, Username};
use crate::session::GENERATED_PASSWORD_LEN;
use crate::time::{NANOS_PER_SEC, Timestamp, spec_add_seconds, spec_rfc3339, valid_instant};

verus! {

/// A lowercase hexadecimal digit.
pub open spec fn is_lower_hex(c: char) -> bool {
    ('0' <= c && c <= '9') || ('a' <= c && c <= 'f')
}

/// An ASCII letter or digit.
pub open spec fn is_ascii_alphanumeric(c: char) -> bool {
    ('0' <= c && c <= '9') || ('a' <= c && c <= 'z') || ('A' <= c && c <= 'Z')
}

/// The hyphenated lowercase text of a random (version 4) UUID, such as
/// `67e55044-10b1-426f-9247-bb680e5fe0c8`.
pub open spec fn is_uuid_v4_text(s: Seq<char>) -> bool {
    &&& s.len() == 36
    &&& forall|i: int|
        0 <= i < 36 ==> if i == 8 || i == 13 || i == 18 || i == 23 {
            #[trigger] s[i] == '-'
        } else {
            is_lower_hex(s[i])
        }
    &&& s[14] == '4'
    &&& (s[19] == '8' || s[19] == '9' || s[19] == 'a' || s[19] == 'b')
}

/// The prefix of every temporary user name.
pub open spec fn username_prefix() -> Seq<char> {
    seq!['a', 't', 'l', 'a', 's', '-', 's', 'h', '-']
}

/// Generates a UUID with `uuid::Uuid::new_v4` and formats it with
/// `to_string`. Claimed: the text is a hyphenated lowercase version 4 UUID.
/// Which UUID it is rests on chance and is not stated.
#[verifier::external_body]
fn new_uuid_text() -> (r: String)
    ensures
        is_uuid_v4_text(r@),
{
    uuid::Uuid::new_v4().to_string()
}

/// Draws one character from `rand::distributions::Alphanumeric` with
/// `rand::thread_rng`. Claimed: it is an ASCII letter or digit. Which one it
/// is rests on chance and is not stated.
#[verifier::external_body]
fn sample_alphanumeric() -> (c: char)
    ensures
        is_ascii_alphanumeric(c),
{
    char::from(rand::Rng::sample(&mut rand::thread_rng(), rand::distributions::Alphanumeric))
}

/// Collects characters into a `String` with `Iterator::collect`. Claimed:
/// the string holds exactly these characters, in order.
#[verifier::external_body]
fn string_from_chars(chars: &Vec<char>) -> (r: String)
    ensures
        r@ == chars@,
{
    chars.iter().collect()
}

/// The name of the temporary user identified by `uuid`: `atlas-sh-<uuid>`.
pub fn temp_username(uuid: &str) -> (r: Username)
    ensures
        r@ == username_prefix() + uuid@,
{
    proof {
        reveal_strlit("atlas-sh-");
        assert("atlas-sh-"@ =~= username_prefix());
    }
    Username::from_string(String::from_str("atlas-sh-").concat(uuid))
}

/// A fresh name for a temporary user: `atlas-sh-` and a random UUID.
pub fn new_temp_username() -> (r: Username)
    ensures
        r@.len() == 45,
        r@.take(9) == username_prefix(),
        is_uuid_v4_text(r@.skip(9)),
{
    let uuid = new_uuid_text();
    let r = temp_username(uuid.as_str());
    assert(r@.take(9) =~= username_prefix());
    assert(r@.skip(9) =~= uuid@);
    r
}

/// A random password of `GENERATED_PASSWORD_LEN` ASCII letters and digits.
pub fn generate_password() -> (r: Password)
    ensures
        r@.len() == GENERATED_PASSWORD_LEN,
        4 <= r@.len() <= 128,
        forall|i: int| 0 <= i < r@.len() ==> is_ascii_alphanumeric(#[trigger] r@[i]),
{
    let mut chars: Vec<char> = Vec::new();
    let mut i: usize = 0;
    while i < GENERATED_PASSWORD_LEN
        invariant
            i <= GENERATED_PASSWORD_LEN,
            chars@.len() == i,
            forall|j: int| 0 <= j < i ==> is_ascii_alphanumeric(#[trigger] chars@[j]),
        decreases GENERATED_PASSWORD_LEN - i,
    {
        let c = sample_alphanumeric();
        chars.push(c);
        i = i + 1;
    }
    Password::from_string(string_from_chars(&chars))
}

/// The expiry of credentials created at `now`, or `None` when it falls
/// outside the representable range.
pub fn credential_expiry(now: Timestamp) -> (r: Option<Timestamp>)
    requires
        now.wf(),
    ensures
        ({
            let (s, n) = spec_add_seconds(now, TTL_SECS as int);
            match r {
                Some(t) => t.secs == s && t.nanos == n && t.wf(),
                None => !valid_instant(s, n),
            }
        }),
{
    now.checked_add_seconds(TTL_SECS)
}

/// What the plugin asks Atlas to create: a user with this name and password,
/// deleted by Atlas at `expires_at`, which `delete_after` writes in RFC 3339.
pub struct TempUserRequest {
    pub username: Username,
    pub password: Password,
    pub expires_at: Timestamp,
    pub delete_after: String,
}

/// The request for the user `atlas-sh-<uuid>` with `password`, deleted at
/// `expires_at`, written `delete_after`.
pub fn temp_user_request(
    uuid: &str,
    password: Password,
    expires_at: Timestamp,
    delete_after: String,
) -> (r: TempUserRequest)
    ensures
        r.username@ == username_prefix() + uuid@,
        r.password == password,
        r.expires_at == expires_at,
        r.delete_after == delete_after,
{
    TempUserRequest { username: temp_username(uuid), password, expires_at, delete_after }
}

/// Prepares a temporary user for a session started at `now`: a fresh name,
/// a random password, and an expiry `TTL_HOURS` later. `None` only when that
/// expiry falls outside the representable range.
pub fn prepare_temp_user(now: Timestamp) -> (r: Option<TempUserRequest>)
    requires
        now.wf(),
    ensures
        ({
            let (s, n) = spec_add_seconds(now, TTL_SECS as int);
            match r {
                Some(q) => {
                    &&& q.expires_at.secs == s && q.expires_at.nanos == n && q.expires_at.wf()
                    &&& q.delete_after@ == spec_rfc3339(q.expires_at.secs, q.expires_at.nanos)
                    &&& q.username@.len() == 45
                    &&& q.username@.take(9) == username_prefix()
                    &&& is_uuid_v4_text(q.username@.skip(9))
                    &&& q.password@.len() == GENERATED_PASSWORD_LEN
                    &&& forall|i: int|
                        0 <= i < q.password@.len() ==> is_ascii_alphanumeric(#[trigger] q.password@[i])
                },
                None => !valid_instant(s, n),
            }
        }),
{
    match credential_expiry(now) {
        None => None,
        Some(expires_at) => {
            let uuid = new_uuid_text();
            let password = generate_password();
            let delete_after = expires_at.to_rfc3339();
            let q = temp_user_request(uuid.as_str(), password, expires_at, delete_after);
            assert(q.username@.take(9) =~= username_prefix());
            assert(q.username@.skip(9) =~= uuid@);
            Some(q)
        },
    }
}

impl TempUserRequest {
    /// The credentials of the created user, who connects through `srv`.
    pub fn into_credentials(self, srv: String) -> (r: CachedCredentials)
        ensures
            r.username == self.username,
            r.password == self.password,
            r.connection_string@ == srv@,
            r.expires_at == self.expires_at,
    {
        CachedCredentials::new(
            self.username,
            self.password,
            ConnectionString::from_string(srv),
            self.expires_at,
        )
    }
}

/// Credentials whose expiry is `TTL_HOURS` after `now` are not expired at
/// `now`, and are expired at an instant exactly when it is at least
/// `TTL_HOURS` after `now`.
pub proof fn law_fresh_credentials_live_for_the_ttl(
    c: CachedCredentials,
    now: Timestamp,
    t: Timestamp,
)
    requires
        now.wf(),
        now.nanos < NANOS_PER_SEC,
        c.expires_at.secs == spec_add_seconds(now, TTL_SECS as int).0,
        c.expires_at.nanos == spec_add_seconds(now, TTL_SECS as int).1,
    ensures
        !c.expired_at(now),
        c.expired_at(t) <==> (t.secs > now.secs + TTL_SECS || (t.secs == now.secs + TTL_SECS
            && t.nanos >= now.nanos)),
{
}

} // verus!
