//! The per-connection read/timeout state machine. One step maps the event a
//! wait-and-read cycle produced to the next state and the action owed on the
//! wire: keep reading, close silently, or write a fixed response and close.
//! The surrounding loop — waiting for readability, reading, writing,
//! closing — is I/O and lives with the caller.

use vstd::prelude::*;
use vstd::string::*;
use vstd::utf8::valid_utf8;
use crate::basic_auth::{AuthOutcome, spec_auth_ok, validate_basic_auth};
use crate::credentials::CredentialStore;
use crate::scanner::{find_authorization_line, spec_auth_line};

verus! {

/// How many bytes one read may hand to the scanner at most.
pub const RECV_BUFFER_LEN: usize = 2048;

/// The exact bytes answered when a connection exceeds the idle timeout.
pub open spec fn spec_response_408() -> Seq<u8> {
    "HTTP/1.1 408 Request Timeout\r\nContent-Length: 0\r\n\r\n".spec_bytes()
}

/// The exact bytes answered when a connection fails authorization.
pub open spec fn spec_response_401() -> Seq<u8> {
    "HTTP/1.1 401 Unauthorized\r\nWWW-Authenticate: Basic realm=\"Restricted\"\r\nContent-Length: 0\r\n\r\n".spec_bytes()
}

/// The literal 408 Request Timeout response.
pub fn response_408() -> (r: Vec<u8>)
    ensures
        r@ == spec_response_408(),
{
    "HTTP/1.1 408 Request Timeout\r\nContent-Length: 0\r\n\r\n".as_bytes_vec()
}

/// The literal 401 Unauthorized response, with its challenge header.
pub fn response_401() -> (r: Vec<u8>)
    ensures
        r@ == spec_response_401(),
{
    "HTTP/1.1 401 Unauthorized\r\nWWW-Authenticate: Basic realm=\"Restricted\"\r\nContent-Length: 0\r\n\r\n".as_bytes_vec()
}

/// What one wait-and-read cycle on the connection produced.
pub enum SessionEvent {
    /// The idle timeout elapsed before the socket became readable.
    TimedOut,
    /// Waiting for readability failed with a hard error.
    ReadableFailed,
    /// The peer closed the connection: a read returned zero bytes.
    PeerClosed,
    /// The read would block; nothing was consumed.
    WouldBlock,
    /// The read failed with a hard I/O error.
    ReadFailed,
    /// The read produced these bytes.
    Received { data: Vec<u8> },
}

/// Per-connection state: whether a valid `Authorization` header has been
/// seen (initially true exactly when no credentials are configured).
pub struct SessionState {
    pub authorized: bool,
}

/// The decision one step takes: keep the connection open and wait for the
/// next event, close it silently, or write a fixed response and close it.
/// An authorization verdict rides along where one was reached, so the
/// caller can log it.
pub enum SessionStep {
    KeepReading { state: SessionState, outcome: Option<AuthOutcome> },
    Close,
    CloseWithResponse { response: Vec<u8>, outcome: Option<AuthOutcome> },
}

/// Whether received bytes reject the connection: credentials are
/// configured, the bytes are text carrying an `Authorization` line, and
/// that line does not validate.
pub open spec fn spec_rejects(data: Seq<u8>, creds: Option<(Seq<u8>, Seq<u8>)>) -> bool {
    &&& creds is Some
    &&& valid_utf8(data)
    &&& (spec_auth_line(data) matches Option::Some(line) && !spec_auth_ok(line, creds))
}

/// Whether received bytes carry an `Authorization` line that validates
/// against configured credentials, proving the connection authorized.
pub open spec fn spec_sees_valid_auth(data: Seq<u8>, creds: Option<(Seq<u8>, Seq<u8>)>) -> bool {
    &&& creds is Some
    &&& valid_utf8(data)
    &&& (spec_auth_line(data) matches Option::Some(line) && spec_auth_ok(line, creds))
}

/// The state a session starts in: authorized from the outset exactly when
/// the store configures no credentials.
pub fn initial_state(store: &CredentialStore) -> (s: SessionState)
    ensures
        s.authorized == (store@ is None),
{
    SessionState { authorized: !store.requires_auth() }
}

/// Drive the session one step: from the current state and the event the
/// last wait-and-read cycle produced, decide the next state and the action
/// owed on the connection.
///
/// A timeout is answered with the literal 408 response and the connection
/// closes; a rejected `Authorization` line is answered with the literal 401
/// response and the connection closes; received bytes that are not text, or
/// text without an `Authorization` line, leave the session reading — absence
/// of the header is "not yet authorized", never an immediate rejection. With
/// no credentials configured nothing is ever rejected.
pub fn session_step(state: SessionState, event: SessionEvent, store: &CredentialStore) -> (r:
    SessionStep)
    ensures
        (event is TimedOut ==> (r matches SessionStep::CloseWithResponse { response, outcome }
            && response@ == spec_response_408() && outcome is None)),
        (event is ReadableFailed ==> r is Close),
        (event is PeerClosed ==> r is Close),
        (event is ReadFailed ==> r is Close),
        (event matches SessionEvent::WouldBlock ==> (r matches SessionStep::KeepReading {
            state: s2,
            outcome,
        } && s2 == state && outcome is None)),
        (event matches SessionEvent::Received { data } ==> {
            &&& (spec_rejects(data@, store@) ==> (r matches SessionStep::CloseWithResponse {
                response,
                outcome,
            } && response@ == spec_response_401() && (outcome matches Option::Some(o)
                && !o.spec_allowed())))
            &&& (spec_sees_valid_auth(data@, store@) ==> (r matches SessionStep::KeepReading {
                state: s2,
                outcome: Option::Some(o),
            } && s2.authorized && o.spec_allowed()))
            &&& (!spec_rejects(data@, store@) && !spec_sees_valid_auth(data@, store@) ==> (
            r matches SessionStep::KeepReading { state: s2, outcome } && s2 == state
                && outcome is None))
        }),
        (event matches SessionEvent::Received { data } ==> ((r is CloseWithResponse)
            <==> spec_rejects(data@, store@))),
{
    match event {
        SessionEvent::TimedOut => SessionStep::CloseWithResponse {
            response: response_408(),
            outcome: Option::None,
        },
        SessionEvent::ReadableFailed => SessionStep::Close,
        SessionEvent::PeerClosed => SessionStep::Close,
        SessionEvent::WouldBlock => SessionStep::KeepReading { state, outcome: Option::None },
        SessionEvent::ReadFailed => SessionStep::Close,
        SessionEvent::Received { data } => {
            if !store.requires_auth() {
                return SessionStep::KeepReading { state, outcome: Option::None };
            }
            if !crate::basic_auth::bytes_are_utf8(data.as_slice()) {
                return SessionStep::KeepReading { state, outcome: Option::None };
            }
            match find_authorization_line(data.as_slice()) {
                Option::None => SessionStep::KeepReading { state, outcome: Option::None },
                Option::Some(line) => {
                    let outcome = validate_basic_auth(line.as_slice(), store);
                    if outcome.is_allowed() {
                        SessionStep::KeepReading {
                            state: SessionState { authorized: true },
                            outcome: Option::Some(outcome),
                        }
                    } else {
                        SessionStep::CloseWithResponse {
                            response: response_401(),
                            outcome: Option::Some(outcome),
                        }
                    }
                },
            }
        },
    }
}

/// Law: with no credentials configured, no received bytes ever reject a
/// connection — a step on them always keeps reading and never answers 401.
pub proof fn lemma_disabled_auth_never_rejects(data: Seq<u8>, creds: Option<(Seq<u8>, Seq<u8>)>)
    requires
        creds is None,
    ensures
        !spec_rejects(data, creds),
{
}

} // verus!
