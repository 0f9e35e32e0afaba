use vstd::prelude::*;

use crate::config::Sentry;

verus! {

/// The error that the `config` crate reports when a configuration cannot be
/// built or deserialized.
#[verifier::external_type_specification]
#[verifier::external_body]
pub struct ExConfigError(::config::ConfigError);

/// Configuration of the importer service.
#[derive(Debug)]
pub struct AppConfig {
    pub sentry: Sentry,
}

/// The importer's configuration, from the outcome of loading it. A load that
/// failed stops the service ("Service configuration could not be loaded."),
/// which `requires` leaves out.
pub fn init(loaded: Result<AppConfig, ::config::ConfigError>) -> (config: AppConfig)
    requires
        loaded is Ok,
    ensures
        loaded == Ok::<AppConfig, ::config::ConfigError>(config),
{
    loaded.unwrap()
}

} // verus!
