//! A minimal TCP endpoint core: optional HTTP Basic Authentication checked
//! against a single configured credential pair, a line-oriented scanner for
//! `Authorization` headers in raw received bytes, and a per-connection
//! read/timeout state machine that decides when to answer 401 or 408 and
//! when to close.
//!
//! The core is pure: sockets, timers and the accept loop live with the
//! caller, which feeds each session's events into [`session::session_step`]
//! and carries out the step's decision on the wire.

pub mod basic_auth;
pub mod configuration;
pub mod credentials;
pub mod logging;
pub mod scanner;
pub mod session;
