//! Names and secrets that the plugin passes around, each in a type of its own
//! so that one cannot stand where another is expected.
use vstd::prelude::*;

verus! {

/// The name of a database user.
pub struct Username {
    value: String,
}

/// The password of a database user.
pub struct Password {
    value: String,
}

/// The address mongosh connects to.
pub struct ConnectionString {
    value: String,
}

/// The ID of an Atlas project.
pub struct ProjectId {
    value: String,
}

/// The name of an Atlas cluster.
pub struct ClusterName {
    value: String,
}

/// The account under which credentials for one cluster of one project are
/// kept in the OS keychain.
pub struct KeyringAccount {
    value: String,
}

impl View for Username {
    type V = Seq<char>;

    closed spec fn view(&self) -> Seq<char> {
        self.value@
    }
}

impl View for Password {
    type V = Seq<char>;

    closed spec fn view(&self) -> Seq<char> {
        self.value@
    }
}

impl View for ConnectionString {
    type V = Seq<char>;

    closed spec fn view(&self) -> Seq<char> {
        self.value@
    }
}

impl View for ProjectId {
    type V = Seq<char>;

    closed spec fn view(&self) -> Seq<char> {
        self.value@
    }
}

impl View for ClusterName {
    type V = Seq<char>;

    closed spec fn view(&self) -> Seq<char> {
        self.value@
    }
}

impl View for KeyringAccount {
    type V = Seq<char>;

    closed spec fn view(&self) -> Seq<char> {
        self.value@
    }
}

impl Username {
    pub fn new(s: &str) -> (r: Self)
        ensures
            r@ == s@,
    {
        Username { value: String::from_str(s) }
    }

    pub fn from_string(s: String) -> (r: Self)
        ensures
            r@ == s@,
    {
        Username { value: s }
    }

    pub fn as_str(&self) -> (r: &str)
        ensures
            r@ == self@,
    {
        self.value.as_str()
    }
}

impl Password {
    pub fn new(s: &str) -> (r: Self)
        ensures
            r@ == s@,
    {
        Password { value: String::from_str(s) }
    }

    pub fn from_string(s: String) -> (r: Self)
        ensures
            r@ == s@,
    {
        Password { value: s }
    }

    pub fn as_str(&self) -> (r: &str)
        ensures
            r@ == self@,
    {
        self.value.as_str()
    }
}

impl ConnectionString {
    pub fn new(s: &str) -> (r: Self)
        ensures
            r@ == s@,
    {
        ConnectionString { value: String::from_str(s) }
    }

    pub fn from_string(s: String) -> (r: Self)
        ensures
            r@ == s@,
    {
        ConnectionString { value: s }
    }

    pub fn as_str(&self) -> (r: &str)
        ensures
            r@ == self@,
    {
        self.value.as_str()
    }
}

impl ProjectId {
    pub fn new(s: &str) -> (r: Self)
        ensures
            r@ == s@,
    {
        ProjectId { value: String::from_str(s) }
    }

    pub fn from_string(s: String) -> (r: Self)
        ensures
            r@ == s@,
    {
        ProjectId { value: s }
    }

    pub fn as_str(&self) -> (r: &str)
        ensures
            r@ == self@,
    {
        self.value.as_str()
    }
}

impl ClusterName {
    pub fn new(s: &str) -> (r: Self)
        ensures
            r@ == s@,
    {
        ClusterName { value: String::from_str(s) }
    }

    pub fn from_string(s: String) -> (r: Self)
        ensures
            r@ == s@,
    {
        ClusterName { value: s }
    }

    pub fn as_str(&self) -> (r: &str)
        ensures
            r@ == self@,
    {
        self.value.as_str()
    }
}

/// The keychain account of a project's cluster: `<project>:<cluster>`.
pub open spec fn account_text(project: Seq<char>, cluster: Seq<char>) -> Seq<char> {
    project + seq![':'] + cluster
}

impl KeyringAccount {
    /// The account for `cluster` in `project`.
    pub fn new(project: &ProjectId, cluster: &ClusterName) -> (r: Self)
        ensures
            r@ == account_text(project@, cluster@),
    {
        proof {
            reveal_strlit(":");
            assert(":"@ =~= seq![':']);
        }
        let value = String::from_str(project.as_str()).concat(":").concat(cluster.as_str());
        KeyringAccount { value }
    }

    pub fn as_str(&self) -> (r: &str)
        ensures
            r@ == self@,
    {
        self.value.as_str()
    }
}

/// Two clusters, or two projects, never share a keychain account, as long
/// as project IDs hold no `:` (Atlas project IDs are hexadecimal).
pub proof fn law_accounts_are_distinct(p1: Seq<char>, c1: Seq<char>, p2: Seq<char>, c2: Seq<char>)
    requires
        !p1.contains(':'),
        !p2.contains(':'),
        account_text(p1, c1) == account_text(p2, c2),
    ensures
        p1 == p2,
        c1 == c2,
{
    let a = account_text(p1, c1);
    assert(a[p1.len() as int] == ':');
    assert(account_text(p2, c2)[p2.len() as int] == ':');
    if p1.len() < p2.len() {
        assert(p2[p1.len() as int] == a[p1.len() as int]);
        assert(p2.contains(':'));
    } else if p2.len() < p1.len() {
        assert(p1[p2.len() as int] == a[p2.len() as int]);
        assert(p1.contains(':'));
    }
    assert(p1 =~= a.take(p1.len() as int));
    assert(p2 =~= a.take(p2.len() as int));
    assert(c1 =~= a.skip(p1.len() as int + 1));
    assert(c2 =~= a.skip(p2.len() as int + 1));
}

} // verus!
