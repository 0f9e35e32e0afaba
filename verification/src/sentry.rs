use vstd::prelude::*;

use crate::config::Sentry;
use crate::text::{
    chars_of, contains_infix, has_infix, lemma_contains_infix_in_context,
    lemma_contains_infix_pointwise, occurs_at,
};

verus! {

/// Share of ordinary transactions that are traced, in thousandths.
pub const TRACES_SAMPLE_RATE_PERMILLE: u32 = 100;

/// How the SDK groups events into release-health sessions.
#[derive(Clone, Copy, Debug, PartialEq, Eq, Structural)]
pub enum SessionMode {
    /// One long session for the whole application.
    Application,
    /// One short session per request.
    Request,
}

/// The client options that `init` hands to the Sentry SDK, apart from the
/// trace sampler (see `traces_sample_rate_permille`).
#[derive(Debug)]
pub struct ClientSettings {
    pub debug: bool,
    pub dsn: Option<::sentry::types::Dsn>,
    pub environment: String,
    pub release: String,
    pub auto_session_tracking: bool,
    pub session_mode: SessionMode,
}

/// The transaction belongs to an HTTP or gRPC health check.
pub open spec fn is_health_check_name(name: Seq<char>) -> bool {
    contains_infix(name, " /health"@) || contains_infix(name, " /grpc.health.v1.Health"@)
}

/// The share of transactions named `name` that is traced, in thousandths.
pub open spec fn sample_rate_permille_of(name: Seq<char>) -> u32 {
    if is_health_check_name(name) {
        0
    } else {
        TRACES_SAMPLE_RATE_PERMILLE
    }
}

/// Whether the transaction named `name` is a health check: its name holds
/// ` /health` or ` /grpc.health.v1.Health`.
pub fn is_health_check_transaction(name: &str) -> (health: bool)
    ensures
        health == is_health_check_name(name@),
{
    let text = chars_of(name);
    let http = chars_of(" /health");
    if has_infix(&text, &http) {
        return true;
    }
    let grpc = chars_of(" /grpc.health.v1.Health");
    has_infix(&text, &grpc)
}

/// The trace sample rate of a transaction, in thousandths: health checks are
/// never traced, every other transaction at the common rate.
pub fn traces_sample_rate_permille(name: &str) -> (rate: u32)
    ensures
        rate == sample_rate_permille_of(name@),
{
    if is_health_check_transaction(name) {
        0
    } else {
        TRACES_SAMPLE_RATE_PERMILLE
    }
}

/// The characters " /health", with which HTTP health-check paths begin.
pub open spec fn http_health_marker() -> Seq<char> {
    seq![' ', '/', 'h', 'e', 'a', 'l', 't', 'h']
}

/// The characters " /grpc.health.v1.Health", with which calls of the gRPC
/// health service begin.
pub open spec fn grpc_health_marker() -> Seq<char> {
    seq![
        ' ', '/', 'g', 'r', 'p', 'c', '.', 'h', 'e', 'a', 'l', 't', 'h', '.', 'v', '1', '.', 'H',
        'e', 'a', 'l', 't', 'h',
    ]
}

/// A transaction is a health check exactly when its name holds, at some
/// position, the characters of " /health" or of " /grpc.health.v1.Health";
/// any other name, such as another service under "/grpc.", is not.
pub proof fn lemma_health_check_patterns(name: Seq<char>)
    ensures
        is_health_check_name(name) <==> (exists|i: int| #[trigger]
            occurs_at(name, http_health_marker(), i)) || (exists|i: int|
            #[trigger] occurs_at(
                name,
                grpc_health_marker(),
                i,
            )),
{
    reveal_strlit(" /health");
    reveal_strlit(" /grpc.health.v1.Health");
    assert(" /health"@ =~= http_health_marker());
    assert(" /grpc.health.v1.Health"@ =~= grpc_health_marker());
    lemma_contains_infix_pointwise(name, " /health"@);
    lemma_contains_infix_pointwise(name, " /grpc.health.v1.Health"@);
}

/// A name that holds a health-check pattern stays a health check whatever
/// is written before or after it (" /healthz", " /health/live", ...).
pub proof fn lemma_health_check_in_context(prefix: Seq<char>, name: Seq<char>, suffix: Seq<char>)
    requires
        is_health_check_name(name),
    ensures
        is_health_check_name(prefix + name + suffix),
{
    if contains_infix(name, " /health"@) {
        lemma_contains_infix_in_context(prefix, name, suffix, " /health"@);
    } else {
        lemma_contains_infix_in_context(prefix, name, suffix, " /grpc.health.v1.Health"@);
    }
}

/// Health checks are never traced; every other transaction is traced at the
/// common rate of 100 thousandths (10%).
pub proof fn lemma_sample_rate_by_name(name: Seq<char>)
    ensures
        TRACES_SAMPLE_RATE_PERMILLE == 100,
        sample_rate_permille_of(name) == 0 <==> is_health_check_name(name),
        (exists|i: int| #[trigger]
            occurs_at(name, http_health_marker(), i)) ==> sample_rate_permille_of(name) == 0,
        (exists|i: int| #[trigger]
            occurs_at(
                name,
                grpc_health_marker(),
                i,
            )) ==> sample_rate_permille_of(name) == 0,
        !(exists|i: int| #[trigger]
            occurs_at(name, http_health_marker(), i)) && !(exists|i: int|
            #[trigger] occurs_at(
                name,
                grpc_health_marker(),
                i,
            )) ==> sample_rate_permille_of(name) == 100,
{
    lemma_health_check_patterns(name);
}

/// Whether `config` can be turned into client settings: a DSN is configured
/// whenever reporting is enabled.
pub open spec fn settings_accepted(config: Sentry) -> bool {
    config.enable ==> config.dsn is Some
}

/// The client settings for `config`. The DSN is kept only when reporting is
/// enabled; an enabled configuration without a DSN is refused by `requires`.
pub fn client_settings(config: Sentry) -> (settings: ClientSettings)
    requires
        settings_accepted(config),
    ensures
        settings.debug == config.debug,
        settings.dsn == (if config.enable { config.dsn } else { None }),
        settings.environment@ == config.environment@,
        settings.release@ == config.release@,
        settings.auto_session_tracking,
        settings.session_mode == SessionMode::Request,
{
    let Sentry { enable, debug, dsn, release, environment } = config;
    let dsn = if enable {
        dsn
    } else {
        None
    };
    ClientSettings {
        debug,
        dsn,
        environment,
        release,
        auto_session_tracking: true,
        session_mode: SessionMode::Request,
    }
}

} // verus!
