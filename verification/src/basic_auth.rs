//! The Basic-Authentication validator: normalizes an `Authorization` line,
//! requires the `Basic ` scheme, decodes the Base64 token, reads the decoded
//! bytes as UTF-8 text split at the first colon, and checks the pair against
//! the credential store. Every failure is an outcome value, never a panic or
//! a propagated error.

use vstd::prelude::*;
use vstd::string::*;
use crate::credentials::{CredentialStore, spec_is_authorized};
use crate::scanner::{spec_auth_prefix, matches_at, subrange_vec};
use base64::Engine;

verus! {

/// The colon that separates the username from the password.
pub const COLON: u8 = 58;

/// The bytes of the authentication-scheme prefix required after
/// normalization.
pub open spec fn spec_basic_prefix() -> Seq<u8> {
    "Basic ".spec_bytes()
}

/// ASCII whitespace, as trimmed from a normalized header line.
pub open spec fn is_ascii_whitespace(b: u8) -> bool {
    b == 32 || (9 <= b && b <= 13)
}

/// The line with every leading `Authorization: ` prefix removed.
pub open spec fn strip_auth_prefixes(s: Seq<u8>) -> Seq<u8>
    decreases s.len(),
{
    if spec_auth_prefix().len() > 0 && s.len() >= spec_auth_prefix().len() && s.subrange(
        0,
        spec_auth_prefix().len() as int,
    ) == spec_auth_prefix() {
        strip_auth_prefixes(s.skip(spec_auth_prefix().len() as int))
    } else {
        s
    }
}

/// The sequence with leading ASCII whitespace removed.
pub open spec fn trim_start_ws(s: Seq<u8>) -> Seq<u8>
    decreases s.len(),
{
    if s.len() > 0 && is_ascii_whitespace(s[0]) {
        trim_start_ws(s.skip(1))
    } else {
        s
    }
}

/// The sequence with trailing ASCII whitespace removed.
pub open spec fn trim_end_ws(s: Seq<u8>) -> Seq<u8>
    decreases s.len(),
{
    if s.len() > 0 && is_ascii_whitespace(s[s.len() - 1]) {
        trim_end_ws(s.drop_last())
    } else {
        s
    }
}

/// The sequence with surrounding ASCII whitespace removed.
pub open spec fn trim_ws(s: Seq<u8>) -> Seq<u8> {
    trim_end_ws(trim_start_ws(s))
}

/// A header line normalized as the validator sees it: leading
/// `Authorization: ` prefixes stripped, surrounding whitespace trimmed.
pub open spec fn normalized_line(line: Seq<u8>) -> Seq<u8> {
    trim_ws(strip_auth_prefixes(line))
}

/// The Base64 token carried after `Basic ` in the normalized line, if the
/// line is of that shape at all.
pub open spec fn spec_basic_token(line: Seq<u8>) -> Option<Seq<u8>> {
    let n = normalized_line(line);
    if n.len() >= spec_basic_prefix().len() && n.subrange(0, spec_basic_prefix().len() as int)
        == spec_basic_prefix() {
        Option::Some(n.skip(spec_basic_prefix().len() as int))
    } else {
        Option::None
    }
}

/// The position of the first colon at or after `i`, if any.
pub open spec fn find_colon(s: Seq<u8>, i: int) -> Option<int>
    decreases s.len() - i when 0 <= i <= s.len()
{
    if i >= s.len() {
        Option::None
    } else if s[i] == COLON {
        Option::Some(i)
    } else {
        find_colon(s, i + 1)
    }
}

/// The username and password obtained by splitting the decoded credential
/// bytes at the first colon; nothing when no colon is present.
pub open spec fn spec_split_credentials(s: Seq<u8>) -> Option<(Seq<u8>, Seq<u8>)> {
    match find_colon(s, 0) {
        Option::None => Option::None,
        Option::Some(i) => Option::Some((s.take(i), s.skip(i + 1))),
    }
}

/// What `base64`'s `STANDARD` engine decodes the token to: a function of the
/// token bytes alone; nothing on a rejected token.
pub uninterp spec fn b64_decoding(token: Seq<u8>) -> Option<Seq<u8>>;

/// Relies on base64's `Engine::decode` with the `STANDARD` engine: the
/// decoding is a function of the input bytes alone, succeeding exactly on
/// canonically padded standard-alphabet Base64.
#[verifier::external_body]
fn b64_decode(token: &[u8]) -> (r: Option<Vec<u8>>)
    ensures
        match r {
            Option::Some(bytes) => b64_decoding(token@) == Option::Some(bytes@),
            Option::None => b64_decoding(token@) is None,
        },
{
    match base64::engine::general_purpose::STANDARD.decode(token) {
        Ok(v) => Some(v),
        Err(_) => None,
    }
}

/// Relies on std's `str::from_utf8`, which returns `Ok` exactly when the
/// bytes are well-formed UTF-8.
#[verifier::external_body]
pub(crate) fn bytes_are_utf8(bytes: &[u8]) -> (r: bool)
    ensures
        r == vstd::utf8::valid_utf8(bytes@),
{
    std::str::from_utf8(bytes).is_ok()
}

/// The username and password the line carries, when every step — scheme,
/// Base64 decoding, UTF-8 reading, colon split — goes through.
pub open spec fn spec_credential_parts(line: Seq<u8>) -> Option<(Seq<u8>, Seq<u8>)> {
    match spec_basic_token(line) {
        Option::None => Option::None,
        Option::Some(tok) => match b64_decoding(tok) {
            Option::None => Option::None,
            Option::Some(bytes) => if vstd::utf8::valid_utf8(bytes) {
                spec_split_credentials(bytes)
            } else {
                Option::None
            },
        },
    }
}

/// Whether a received `Authorization` line authorizes the connection: always
/// when no credentials are configured, otherwise exactly when the line
/// parses and carries the configured pair.
pub open spec fn spec_auth_ok(line: Seq<u8>, creds: Option<(Seq<u8>, Seq<u8>)>) -> bool {
    ||| creds is None
    ||| (spec_credential_parts(line) matches Option::Some(parts) && spec_is_authorized(
        creds,
        parts.0,
        parts.1,
    ))
}

/// The validator's verdict on one `Authorization` line. The username rides
/// along where it was parsed, so a caller can log it — the password never
/// does.
pub enum AuthOutcome {
    /// No credentials are configured; everything is allowed.
    AllowedNoAuth,
    /// The line carried the configured pair.
    Allowed { username: Vec<u8> },
    /// The line parsed, but the pair does not match.
    DeniedWrongCredentials { username: Vec<u8> },
    /// The normalized line does not carry the `Basic ` scheme.
    DeniedMalformedHeader,
    /// The token is not valid Base64.
    DeniedDecodeFailure,
    /// The decoded bytes are not valid UTF-8 text.
    DeniedCredentialParse,
    /// The decoded text has no colon to split username from password.
    DeniedInvalidFormat,
}

impl AuthOutcome {
    /// Whether the verdict lets the connection continue.
    pub open spec fn spec_allowed(&self) -> bool {
        match self {
            AuthOutcome::AllowedNoAuth => true,
            AuthOutcome::Allowed { .. } => true,
            _ => false,
        }
    }

    /// Whether the verdict lets the connection continue.
    pub fn is_allowed(&self) -> (r: bool)
        ensures
            r == self.spec_allowed(),
    {
        match self {
            AuthOutcome::AllowedNoAuth => true,
            AuthOutcome::Allowed { .. } => true,
            _ => false,
        }
    }
}

proof fn lemma_trim_start_at(s: Seq<u8>, lo: int)
    requires
        0 <= lo <= s.len(),
        forall|k: int| 0 <= k < lo ==> is_ascii_whitespace(s[k]),
        lo == s.len() || !is_ascii_whitespace(s[lo]),
    ensures
        trim_start_ws(s) == s.skip(lo),
    decreases lo,
{
    if lo == 0 {
        assert(s.skip(0) =~= s);
    } else {
        lemma_trim_start_at(s.skip(1), lo - 1);
        assert(s.skip(1).skip(lo - 1) =~= s.skip(lo));
    }
}

proof fn lemma_trim_end_at(s: Seq<u8>, hi: int)
    requires
        0 <= hi <= s.len(),
        forall|k: int| hi <= k < s.len() ==> is_ascii_whitespace(s[k]),
        hi == 0 || !is_ascii_whitespace(s[hi - 1]),
    ensures
        trim_end_ws(s) == s.take(hi),
    decreases s.len(),
{
    if hi == s.len() {
        if s.len() > 0 {
            assert(!is_ascii_whitespace(s[s.len() - 1]));
        }
        assert(s.take(hi) =~= s);
    } else {
        assert(is_ascii_whitespace(s[s.len() - 1]));
        lemma_trim_end_at(s.drop_last(), hi);
        assert(s.drop_last().take(hi) =~= s.take(hi));
    }
}

/// The line with every leading `Authorization: ` prefix removed.
fn strip_auth_prefixes_exec(line: &[u8]) -> (r: Vec<u8>)
    ensures
        r@ == strip_auth_prefixes(line@),
{
    let prefix: &[u8] = "Authorization: ".as_bytes();
    let plen: usize = prefix.len();
    let mut cur: Vec<u8> = subrange_vec(line, 0, line.len());
    assert(cur@ =~= line@);
    loop
        invariant
            prefix@ == spec_auth_prefix(),
            plen == prefix@.len(),
            strip_auth_prefixes(line@) == strip_auth_prefixes(cur@),
        ensures
            strip_auth_prefixes(line@) == cur@,
        decreases cur@.len(),
    {
        let go = plen > 0 && matches_at(cur.as_slice(), 0, prefix);
        if !go {
            assert(strip_auth_prefixes(cur@) == cur@);
            break;
        }
        let next = subrange_vec(cur.as_slice(), plen, cur.len());
        assert(next@ =~= cur@.skip(plen as int));
        assert(strip_auth_prefixes(cur@) == strip_auth_prefixes(next@));
        cur = next;
    }
    cur
}

/// Whether the byte is ASCII whitespace.
fn ascii_ws(b: u8) -> (r: bool)
    ensures
        r == is_ascii_whitespace(b),
{
    b == 32 || (9 <= b && b <= 13)
}

/// The bytes with surrounding ASCII whitespace removed.
fn trim_ws_exec(s: &[u8]) -> (r: Vec<u8>)
    ensures
        r@ == trim_ws(s@),
{
    let n: usize = s.len();
    let mut lo: usize = 0;
    loop
        invariant
            n == s@.len(),
            lo <= n,
            forall|k: int| 0 <= k < lo ==> is_ascii_whitespace(s@[k]),
        ensures
            lo <= n,
            forall|k: int| 0 <= k < lo ==> is_ascii_whitespace(s@[k]),
            lo == n || !is_ascii_whitespace(s@[lo as int]),
        decreases n - lo,
    {
        if lo == n || !ascii_ws(s[lo]) {
            break;
        }
        lo = lo + 1;
    }
    let mut hi: usize = n;
    loop
        invariant
            n == s@.len(),
            lo <= hi <= n,
            forall|k: int| hi <= k < n ==> is_ascii_whitespace(s@[k]),
        ensures
            lo <= hi <= n,
            forall|k: int| hi <= k < n ==> is_ascii_whitespace(s@[k]),
            hi == lo || !is_ascii_whitespace(s@[hi - 1]),
        decreases hi,
    {
        if hi == lo || !ascii_ws(s[hi - 1]) {
            break;
        }
        hi = hi - 1;
    }
    proof {
        lemma_trim_start_at(s@, lo as int);
        let mid = s@.skip(lo as int);
        if hi == lo {
            lemma_trim_end_at(mid, 0);
        } else {
            lemma_trim_end_at(mid, hi - lo);
        }
        assert(mid.take(hi - lo) =~= s@.subrange(lo as int, hi as int));
    }
    subrange_vec(s, lo, hi)
}

/// The position of the first colon in the bytes, if any.
fn find_colon_exec(s: &[u8]) -> (r: Option<usize>)
    ensures
        match r {
            Option::Some(i) => i < s@.len() && find_colon(s@, 0) == Option::Some(i as int),
            Option::None => find_colon(s@, 0) is None,
        },
{
    let n: usize = s.len();
    let mut i: usize = 0;
    while i < n
        invariant
            n == s@.len(),
            i <= n,
            find_colon(s@, 0) == find_colon(s@, i as int),
        decreases n - i,
    {
        if s[i] == COLON {
            return Option::Some(i);
        }
        i = i + 1;
    }
    Option::None
}

/// Validate one `Authorization` line against the credential store.
///
/// Normalizes the line, requires the `Basic ` scheme, Base64-decodes the
/// token, reads the decoded bytes as UTF-8, splits at the first colon and
/// compares the pair byte-exactly. Each failure mode is its own outcome;
/// no failure is ever an error or a panic.
pub fn validate_basic_auth(line: &[u8], store: &CredentialStore) -> (r: AuthOutcome)
    ensures
        r.spec_allowed() == spec_auth_ok(line@, store@),
        match r {
            AuthOutcome::AllowedNoAuth => store@ is None,
            AuthOutcome::Allowed { username } => store@ is Some && (spec_credential_parts(line@)
                matches Option::Some(parts) && username@ == parts.0 && spec_is_authorized(
                store@,
                parts.0,
                parts.1,
            )),
            AuthOutcome::DeniedWrongCredentials { username } => store@ is Some && (
            spec_credential_parts(line@) matches Option::Some(parts) && username@ == parts.0
                && !spec_is_authorized(store@, parts.0, parts.1)),
            AuthOutcome::DeniedMalformedHeader => store@ is Some && spec_basic_token(line@) is None,
            AuthOutcome::DeniedDecodeFailure => store@ is Some && (spec_basic_token(line@)
                matches Option::Some(tok) && b64_decoding(tok) is None),
            AuthOutcome::DeniedCredentialParse => store@ is Some && (spec_basic_token(line@)
                matches Option::Some(tok) && (b64_decoding(tok) matches Option::Some(bytes)
                && !vstd::utf8::valid_utf8(bytes))),
            AuthOutcome::DeniedInvalidFormat => store@ is Some && (spec_basic_token(line@)
                matches Option::Some(tok) && (b64_decoding(tok) matches Option::Some(bytes)
                && vstd::utf8::valid_utf8(bytes) && spec_split_credentials(bytes) is None)),
        },
{
    if !store.requires_auth() {
        return AuthOutcome::AllowedNoAuth;
    }
    let stripped = strip_auth_prefixes_exec(line);
    let norm = trim_ws_exec(stripped.as_slice());
    let basic: &[u8] = "Basic ".as_bytes();
    if !matches_at(norm.as_slice(), 0, basic) {
        assert(spec_basic_token(line@) is None);
        return AuthOutcome::DeniedMalformedHeader;
    }
    let token = subrange_vec(norm.as_slice(), basic.len(), norm.len());
    assert(token@ =~= normalized_line(line@).skip(spec_basic_prefix().len() as int));
    assert(spec_basic_token(line@) == Option::Some(token@));
    let decoded = match b64_decode(token.as_slice()) {
        Option::None => {
            return AuthOutcome::DeniedDecodeFailure;
        },
        Option::Some(bytes) => bytes,
    };
    if !bytes_are_utf8(decoded.as_slice()) {
        return AuthOutcome::DeniedCredentialParse;
    }
    let colon = match find_colon_exec(decoded.as_slice()) {
        Option::None => {
            assert(spec_split_credentials(decoded@) is None);
            return AuthOutcome::DeniedInvalidFormat;
        },
        Option::Some(i) => i,
    };
    let username = subrange_vec(decoded.as_slice(), 0, colon);
    let password = subrange_vec(decoded.as_slice(), colon + 1, decoded.len());
    proof {
        assert(decoded@.subrange(0, colon as int) =~= decoded@.take(colon as int));
        assert(decoded@.subrange(colon + 1, decoded@.len() as int) =~= decoded@.skip(colon + 1));
    }
    if store.is_authorized(username.as_slice(), password.as_slice()) {
        AuthOutcome::Allowed { username }
    } else {
        AuthOutcome::DeniedWrongCredentials { username }
    }
}

} // verus!
