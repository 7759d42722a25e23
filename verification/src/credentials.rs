//! The credential store: zero or one configured username/password pair,
//! immutable after construction and shared read-only by every connection.
//! When no pair is configured, authentication is disabled and every query
//! is authorized.

use vstd::prelude::*;

verus! {

/// One configured username/password pair, held as raw bytes.
pub struct CredentialPair {
    pub username: Vec<u8>,
    pub password: Vec<u8>,
}

/// Zero or one configured credential pair. Absence means authentication is
/// disabled: every authorization query succeeds.
pub struct CredentialStore {
    pub configured: Option<CredentialPair>,
}

impl View for CredentialStore {
    type V = Option<(Seq<u8>, Seq<u8>)>;

    open spec fn view(&self) -> Option<(Seq<u8>, Seq<u8>)> {
        match self.configured {
            Option::None => Option::None,
            Option::Some(pair) => Option::Some((pair.username@, pair.password@)),
        }
    }
}

/// Whether a username/password query is authorized against the configured
/// pair: always when nothing is configured, otherwise exactly on a byte-exact
/// match of both fields.
pub open spec fn spec_is_authorized(
    creds: Option<(Seq<u8>, Seq<u8>)>,
    username: Seq<u8>,
    password: Seq<u8>,
) -> bool {
    match creds {
        Option::None => true,
        Option::Some(pair) => username == pair.0 && password == pair.1,
    }
}

/// Byte-exact equality of two slices.
pub fn bytes_equal(a: &[u8], b: &[u8]) -> (r: bool)
    ensures
        r == (a@ == b@),
{
    if a.len() != b.len() {
        assert(a@.len() != b@.len());
        return false;
    }
    let n: usize = a.len();
    let mut i: usize = 0;
    while i < n
        invariant
            n == a@.len() == b@.len(),
            i <= n,
            forall|j: int| 0 <= j < i ==> a@[j] == b@[j],
        decreases n - i,
    {
        if a[i] != b[i] {
            assert(a@ != b@);
            return false;
        }
        i = i + 1;
    }
    assert(a@ =~= b@);
    true
}

impl CredentialStore {
    /// A store with no configured pair: authentication disabled.
    pub fn open_access() -> (r: Self)
        ensures
            r@ is None,
    {
        CredentialStore { configured: Option::None }
    }

    /// A store that requires the given pair, byte-exact.
    pub fn with_pair(username: Vec<u8>, password: Vec<u8>) -> (r: Self)
        ensures
            r@ == Option::Some((username@, password@)),
    {
        CredentialStore { configured: Option::Some(CredentialPair { username, password }) }
    }

    /// Whether this store demands authentication at all.
    pub fn requires_auth(&self) -> (r: bool)
        ensures
            r == (self@ is Some),
    {
        match &self.configured {
            Option::None => false,
            Option::Some(_) => true,
        }
    }

    /// True unconditionally when no pair is configured; otherwise true iff
    /// both the username and the password match the configured pair
    /// byte-exactly.
    pub fn is_authorized(&self, username: &[u8], password: &[u8]) -> (r: bool)
        ensures
            r == spec_is_authorized(self@, username@, password@),
    {
        match &self.configured {
            Option::None => true,
            Option::Some(pair) => {
                let user_ok = bytes_equal(username, pair.username.as_slice());
                let pass_ok = bytes_equal(password, pair.password.as_slice());
                user_ok && pass_ok
            },
        }
    }
}

} // verus!
