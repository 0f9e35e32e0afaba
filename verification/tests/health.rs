use ucb_mscs_courses_core::health::{HealthReporterInner, HealthStatus};

fn fresh() -> HealthReporterInner {
    let (grpc, _server) = tonic_health::server::health_reporter();
    HealthReporterInner::new(grpc)
}

#[test]
fn test_health_reporter_status() {
    let mut reporter = fresh();
    assert_eq!(HealthStatus::Unknown, reporter.status());

    reporter.set_serving(true);
    assert_eq!(HealthStatus::Serving, reporter.status());

    reporter.set_serving(false);
    assert_eq!(HealthStatus::NotServing, reporter.status());
}

#[test]
fn health_status_from_bool() {
    assert_eq!(HealthStatus::from(true), HealthStatus::Serving);
    assert_eq!(HealthStatus::from(false), HealthStatus::NotServing);
    let s: HealthStatus = true.into();
    assert_eq!(s, HealthStatus::Serving);
}

#[test]
fn set_serving_returns_published_status() {
    let mut reporter = fresh();
    assert_eq!(reporter.set_serving(true), HealthStatus::Serving);
    assert_eq!(reporter.set_serving(false), HealthStatus::NotServing);
    assert_eq!(reporter.set_serving(false), HealthStatus::NotServing);
    assert_eq!(reporter.status(), HealthStatus::NotServing);
}

#[test]
fn last_report_wins() {
    let mut reporter = fresh();
    for flag in [true, false, true, true, false, true] {
        reporter.set_serving(flag);
    }
    assert_eq!(reporter.status(), HealthStatus::Serving);
}

#[test]
fn set_status_replaces_status() {
    let mut reporter = fresh();
    reporter.set_status(HealthStatus::NotServing);
    assert_eq!(reporter.status(), HealthStatus::NotServing);
    reporter.set_status(HealthStatus::Unknown);
    assert_eq!(reporter.status(), HealthStatus::Unknown);
}

#[test]
fn grpc_reporter_is_kept() {
    let mut reporter = fresh();
    reporter.set_serving(true);
    let grpc = reporter.grpc_health_reporter().clone();
    let text = format!("{:?}", grpc);
    assert!(text.contains("HealthReporter"));
}
