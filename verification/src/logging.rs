//! Process-wide logging setup. The sessions themselves only hand structured
//! outcomes back to their caller; this module merely installs the sink those
//! outcomes are reported through.

use vstd::prelude::*;
use tracing_subscriber::layer::SubscriberExt;

verus! {

/// Relies on tracing's `set_global_default` with tracing_subscriber's
/// `Registry`, `EnvFilter` and fmt layer: installs the process-wide
/// subscriber, filtered by the `RUST_LOG` environment variable or, absent
/// that, by the directive `package=level`. Returns whether installation
/// succeeded; it fails when a global subscriber was installed before.
#[verifier::external_body]
fn install_subscriber(package: &str, level: &str) -> bool {
    let filter = tracing_subscriber::EnvFilter::try_from_default_env().unwrap_or_else(
        |_| format!("{package}={level}").into(),
    );
    let subscriber = tracing_subscriber::Registry::default().with(filter).with(
        tracing_subscriber::fmt::Layer::default(),
    );
    tracing::subscriber::set_global_default(subscriber).is_ok()
}

/// Install the process-wide log subscriber at the given level; a `RUST_LOG`
/// environment filter, when set, wins. Returns whether installation
/// succeeded — it fails when a subscriber was already installed.
pub fn setup_logging(log_lvl: &str) -> bool {
    install_subscriber("authgate", log_lvl)
}

} // verus!
