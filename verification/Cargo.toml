[package]
name = "svc_discovery"
version = "0.1.0"
edition = "2021"
publish = false

[dependencies]
axum = "*"
chrono = "*"
clap = { version = "*", features = ["derive"] }
config = "*"
dotenv = "*"
geo = "*"
hyper = "*"
log = "*"
log4rs = "*"
serde = { version = "*", features = ["derive"] }
tokio = { version = "*", features = ["full"] }
tonic = "*"
tonic-health = "*"
tower = { version = "*", features = ["buffer", "limit", "util"] }
tower-http = { version = "*", features = ["cors", "trace"] }
utoipa = "*"

[dev-dependencies]
rand = "*"
