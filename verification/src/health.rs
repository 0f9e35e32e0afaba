use vstd::prelude::*;

verus! {

/// The gRPC health reporter of `tonic-health`, carried by the service state.
#[verifier::external_type_specification]
#[verifier::external_body]
pub struct ExGrpcHealthReporter(tonic_health::server::HealthReporter);

/// Seconds between two health checks of a running service.
pub const HEALTH_CHECK_INTERVAL_SECS: u64 = 1;

/// Serving status of a service, as exposed over HTTP and gRPC health checks.
#[derive(Clone, Copy, Debug, PartialEq, Eq, Structural)]
pub enum HealthStatus {
    Serving,
    NotServing,
    Unknown,
}

/// The status that a `serving` flag stands for.
pub open spec fn status_of_serving(serving: bool) -> HealthStatus {
    if serving {
        HealthStatus::Serving
    } else {
        HealthStatus::NotServing
    }
}

impl From<bool> for HealthStatus {
    fn from(value: bool) -> (status: Self)
        ensures
            status == status_of_serving(value),
    {
        match value {
            false => HealthStatus::NotServing,
            true => HealthStatus::Serving,
        }
    }
}

impl vstd::std_specs::convert::FromSpecImpl<bool> for HealthStatus {
    open spec fn obeys_from_spec() -> bool {
        true
    }

    open spec fn from_spec(v: bool) -> Self {
        status_of_serving(v)
    }
}

/// The status half of the service health reporter: the main serving status
/// shown by HTTP health checks, beside the gRPC health reporter that
/// publishes statuses over `grpc.health.v1.Health`.
#[derive(Debug)]
pub struct HealthReporterInner {
    status: HealthStatus,
    grpc_health_reporter: tonic_health::server::HealthReporter,
}

impl View for HealthReporterInner {
    type V = HealthStatus;

    closed spec fn view(&self) -> HealthStatus {
        self.status
    }
}

impl HealthReporterInner {
    /// The gRPC health reporter that this state carries.
    pub closed spec fn grpc_reporter(&self) -> tonic_health::server::HealthReporter {
        self.grpc_health_reporter
    }

    /// A fresh reporter state: nothing has been reported yet, so the status
    /// is `Unknown`.
    pub fn new(grpc_health_reporter: tonic_health::server::HealthReporter) -> (inner: Self)
        ensures
            inner@ == HealthStatus::Unknown,
            inner.grpc_reporter() == grpc_health_reporter,
    {
        HealthReporterInner { status: HealthStatus::Unknown, grpc_health_reporter }
    }

    /// The current main serving status.
    pub fn status(&self) -> (status: HealthStatus)
        ensures
            status == self@,
    {
        self.status
    }

    /// Replaces the main serving status.
    pub fn set_status(&mut self, status: HealthStatus)
        ensures
            final(self)@ == status,
            final(self).grpc_reporter() == old(self).grpc_reporter(),
    {
        self.status = status;
    }

    /// Records the main serving flag and returns the status that the gRPC
    /// health service must publish for the server as a whole (the service
    /// named by the empty string).
    pub fn set_serving(&mut self, serving: bool) -> (published: HealthStatus)
        ensures
            final(self)@ == serving_step(old(self)@, serving),
            final(self)@ == status_of_serving(serving),
            published == status_of_serving(serving),
            final(self).grpc_reporter() == old(self).grpc_reporter(),
    {
        let status = HealthStatus::from(serving);
        self.set_status(status);
        status
    }

    /// The gRPC health reporter, to publish statuses through; the main
    /// status stays as it is.
    pub fn grpc_health_reporter_mut(&mut self) -> (reporter: &mut tonic_health::server::HealthReporter)
        ensures
            *reporter == old(self).grpc_reporter(),
            final(self).grpc_reporter() == *final(reporter),
            final(self)@ == old(self)@,
    {
        &mut self.grpc_health_reporter
    }

    /// The gRPC health reporter, through which the published statuses go.
    pub fn grpc_health_reporter(&self) -> (reporter: &tonic_health::server::HealthReporter)
        ensures
            *reporter == self.grpc_reporter(),
    {
        &self.grpc_health_reporter
    }
}

/// The main status after `set_serving(serving)` on a reporter showing
/// `current`.
pub open spec fn serving_step(current: HealthStatus, serving: bool) -> HealthStatus {
    status_of_serving(serving)
}

/// The main status after a reporter that showed `start` has been given the
/// serving flags `flags` in order, each through `set_serving`.
pub open spec fn status_after_flags(start: HealthStatus, flags: Seq<bool>) -> HealthStatus
    decreases flags.len(),
{
    if flags.len() == 0 {
        start
    } else {
        serving_step(status_after_flags(start, flags.drop_last()), flags.last())
    }
}

/// A serving flag always becomes a definite status, `Serving` exactly for
/// `true`: a reporter that has been told anything never shows `Unknown`.
pub proof fn lemma_serving_status_definite(serving: bool)
    ensures
        status_of_serving(serving) != HealthStatus::Unknown,
        status_of_serving(serving) == HealthStatus::Serving <==> serving,
        status_of_serving(serving) == HealthStatus::NotServing <==> !serving,
{
}

/// The status shown is the one of the last serving flag reported, whatever
/// came before; with no report it is the starting status.
pub proof fn lemma_last_report_wins(start: HealthStatus, flags: Seq<bool>)
    ensures
        flags.len() == 0 ==> status_after_flags(start, flags) == start,
        flags.len() > 0 ==> status_after_flags(start, flags) == status_of_serving(flags.last()),
{
}

} // verus!
