[package]
name = "health_checker"
version = "0.1.0"
edition = "2021"
publish = false

[dependencies]
anyhow = "*"
bollard = "*"
chrono = "*"
clap = { version = "*", features = ["derive"] }
colored = "*"
env_logger = "*"
etcd-rs = "*"
futures = "*"
log = "*"
redis = { version = "*", features = ["tokio-comp"] }
reqwest = { version = "*", default-features = false, features = ["json"] }
serde = { version = "*", features = ["derive"] }
serde_json = "*"
tabled = "*"
tokio = { version = "*", features = ["full"] }
tokio-postgres = "*"
