use ucb_mscs_courses_core::config::{CommonConfig, Sentry};
use ucb_mscs_courses_core::sentry::{
    client_settings, is_health_check_transaction, traces_sample_rate_permille, SessionMode,
    TRACES_SAMPLE_RATE_PERMILLE,
};
use ucb_mscs_courses_core::text::{chars_of, has_infix};

fn dsn() -> sentry::types::Dsn {
    "https://public@sentry.example.com/42".parse().unwrap()
}

fn config(enable: bool, dsn: Option<sentry::types::Dsn>) -> Sentry {
    Sentry {
        enable,
        debug: true,
        dsn,
        release: "1.2.3".to_string(),
        environment: "staging".to_string(),
    }
}

#[test]
fn health_check_transactions_are_recognised() {
    assert!(is_health_check_transaction("GET /health"));
    assert!(is_health_check_transaction("GET /health/live"));
    assert!(is_health_check_transaction("POST /grpc.health.v1.Health/Check"));
    assert!(!is_health_check_transaction("GET /courses"));
    assert!(!is_health_check_transaction("GET/health"));
    assert!(!is_health_check_transaction(""));
    assert!(!is_health_check_transaction(" /healt"));
}

#[test]
fn sample_rates() {
    assert_eq!(TRACES_SAMPLE_RATE_PERMILLE, 100);
    assert_eq!(traces_sample_rate_permille("GET /health"), 0);
    assert_eq!(traces_sample_rate_permille("POST /grpc.health.v1.Health/Watch"), 0);
    assert_eq!(traces_sample_rate_permille("POST /course.v1.CoursesGrpc/ListCourses"), 100);
}

#[test]
fn settings_of_enabled_config() {
    let s = client_settings(config(true, Some(dsn())));
    assert_eq!(s.dsn, Some(dsn()));
    assert!(s.debug);
    assert_eq!(s.release, "1.2.3");
    assert_eq!(s.environment, "staging");
    assert!(s.auto_session_tracking);
    assert_eq!(s.session_mode, SessionMode::Request);
}

#[test]
fn settings_of_disabled_config_drop_dsn() {
    let s = client_settings(config(false, Some(dsn())));
    assert_eq!(s.dsn, None);
    let s = client_settings(config(false, None));
    assert_eq!(s.dsn, None);
    assert_eq!(s.session_mode, SessionMode::Request);
}

#[test]
fn common_config_holds_sentry_section() {
    let c = CommonConfig { sentry: config(false, None) };
    assert!(!c.sentry.enable);
}

#[test]
fn infix_search() {
    let text = chars_of("abcabd");
    assert!(has_infix(&text, &chars_of("abd")));
    assert!(has_infix(&text, &chars_of("")));
    assert!(has_infix(&text, &chars_of("abcabd")));
    assert!(!has_infix(&text, &chars_of("abcabdx")));
    assert!(!has_infix(&text, &chars_of("acb")));
    assert_eq!(chars_of("héllo"), vec!['h', 'é', 'l', 'l', 'o']);
}
