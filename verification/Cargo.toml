[package]
name = "tms_provider"
version = "0.1.0"
edition = "2021"
publish = false

[dependencies]
ordermap = "=1.2.2"
axum = "=0.8.9"
axum-extra = { version = "=0.10.3", features = ["typed-header"] }
axum_responses = "=0.5.5"
jwtiny = "=1.8.2"
moka = { version = "=0.12.16", features = ["future"] }
reqwest = { version = "=0.12.28", default-features = false, features = ["rustls-tls"] }
serde = { version = "=1.0.229", features = ["derive"] }
serde_derive = "=1.0.229"
serde_yaml = "=0.9.34"
config = "=0.15.27"
dirs = "=7.0.0"
globwalk = "=0.9.1"
thiserror = "=2.0.21"
tokio = { version = "=1.54.1", features = ["full"] }
tracing = "=0.1.44"
tracing-subscriber = { version = "=0.3.23", features = ["env-filter"] }
url = { version = "=2.5.8", features = ["serde"] }
