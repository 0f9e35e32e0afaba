[package]
name = "ucb_mscs_courses_core"
version = "0.1.0"
edition = "2021"
publish = false

[dependencies]
config = { version = "0.14", default-features = false }
futures = "0.3"
sentry = { version = "0.34", default-features = false, features = ["contexts", "panic", "tower", "tower-http", "tracing"] }
serde = { version = "1", features = ["derive"] }
tokio = { version = "1", features = ["full"] }
tonic = "0.12"
tonic-health = "0.12"
tonic-reflection = "0.12"
tonic-web = "0.12"
tower = "0.4"
tower-http = { version = "0.5", features = ["cors", "trace"] }
tracing = "0.1"
tracing-subscriber = { version = "0.3", features = ["env-filter"] }
