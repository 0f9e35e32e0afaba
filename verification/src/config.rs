use vstd::prelude::*;

verus! {

/// A Sentry DSN (the address events are sent to), as `sentry-types` parses it.
#[verifier::external_type_specification]
#[verifier::external_body]
pub struct ExDsn(::sentry::types::Dsn);

/// Error-reporting section of a service configuration.
#[derive(Debug)]
pub struct Sentry {
    /// Whether events are sent at all.
    pub enable: bool,
    /// Whether the SDK prints its own debug output.
    pub debug: bool,
    /// Where events are sent; required when `enable` is set.
    pub dsn: Option<::sentry::types::Dsn>,
    pub release: String,
    pub environment: String,
}

/// A common configuration that most services use.
#[derive(Debug)]
pub struct CommonConfig {
    pub sentry: Sentry,
}

} // verus!
