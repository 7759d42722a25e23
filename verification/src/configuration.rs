//! Configuration as already-resolved values: which host and port to bind,
//! the idle timeout, and the optional credential pair. Loading these from
//! files or the environment is a collaborator's job; here each setting is
//! resolved against its documented default, and the optional auth section
//! becomes a credential store.

use vstd::prelude::*;
use vstd::string::*;
use vstd::utf8::encode_utf8;
use crate::credentials::CredentialStore;

verus! {

/// The host the listener binds to when none is configured.
pub const DEFAULT_HOST: &'static str = "0.0.0.0";

/// The port the listener binds to when none is configured.
pub const DEFAULT_PORT: u16 = 7547;

/// The idle timeout, in seconds, when none is configured.
pub const DEFAULT_TIMEOUT_SECS: u64 = 30;

/// The log level when none is configured.
pub const DEFAULT_LOG_LEVEL: &'static str = "debug";

/// Listener and session settings, each optional and falling back to its
/// default.
pub struct ApplicationConfiguration {
    pub port: Option<u16>,
    pub host: Option<String>,
    pub log_lvl: Option<String>,
    pub timeout: Option<u64>,
}

/// The optional authentication section. When the section is present but a
/// field is absent, that field falls back to a well-known default pair;
/// see `credential_store`.
pub struct AuthConfiguration {
    pub username: Option<String>,
    pub password: Option<String>,
}

/// Everything the endpoint is started with.
pub struct Configuration {
    pub application: ApplicationConfiguration,
    pub auth: Option<AuthConfiguration>,
}

/// The credential pair an auth section resolves to, as bytes: each absent
/// field falls back to its default.
pub open spec fn spec_resolved_credentials(auth: Option<AuthConfiguration>) -> Option<
    (Seq<u8>, Seq<u8>),
> {
    match auth {
        Option::None => Option::None,
        Option::Some(a) => Option::Some(
            (
                match a.username {
                    Option::Some(u) => encode_utf8(u@),
                    Option::None => "admin".spec_bytes(),
                },
                match a.password {
                    Option::Some(p) => encode_utf8(p@),
                    Option::None => "password".spec_bytes(),
                },
            ),
        ),
    }
}

impl Configuration {
    /// The configured port, or the default when none is set.
    pub fn resolved_port(&self) -> (r: u16)
        ensures
            r == match self.application.port {
                Option::Some(p) => p,
                Option::None => DEFAULT_PORT,
            },
    {
        match self.application.port {
            Option::Some(p) => p,
            Option::None => DEFAULT_PORT,
        }
    }

    /// The configured idle timeout in seconds, or the default when none is
    /// set.
    pub fn resolved_timeout(&self) -> (r: u64)
        ensures
            r == match self.application.timeout {
                Option::Some(t) => t,
                Option::None => DEFAULT_TIMEOUT_SECS,
            },
    {
        match self.application.timeout {
            Option::Some(t) => t,
            Option::None => DEFAULT_TIMEOUT_SECS,
        }
    }

    /// The configured host, or the default when none is set.
    pub fn resolved_host(&self) -> (r: String)
        ensures
            r@ == match self.application.host {
                Option::Some(h) => h@,
                Option::None => DEFAULT_HOST@,
            },
    {
        match &self.application.host {
            Option::Some(h) => h.clone(),
            Option::None => String::from_str(DEFAULT_HOST),
        }
    }

    /// The configured log level, or the default when none is set.
    pub fn resolved_log_level(&self) -> (r: String)
        ensures
            r@ == match self.application.log_lvl {
                Option::Some(l) => l@,
                Option::None => DEFAULT_LOG_LEVEL@,
            },
    {
        match &self.application.log_lvl {
            Option::Some(l) => l.clone(),
            Option::None => String::from_str(DEFAULT_LOG_LEVEL),
        }
    }

    /// The credential store this configuration resolves to: none configured
    /// when the auth section is absent; otherwise the section's pair, with
    /// each absent field falling back to the `admin`/`password` default.
    /// That well-known default is risky; deployments should set both
    /// fields.
    pub fn credential_store(&self) -> (r: CredentialStore)
        ensures
            r@ == spec_resolved_credentials(self.auth),
    {
        match &self.auth {
            Option::None => CredentialStore::open_access(),
            Option::Some(a) => {
                let username: Vec<u8> = match &a.username {
                    Option::Some(u) => u.as_str().as_bytes_vec(),
                    Option::None => "admin".as_bytes_vec(),
                };
                let password: Vec<u8> = match &a.password {
                    Option::Some(p) => p.as_str().as_bytes_vec(),
                    Option::None => "password".as_bytes_vec(),
                };
                CredentialStore::with_pair(username, password)
            },
        }
    }
}

} // verus!
