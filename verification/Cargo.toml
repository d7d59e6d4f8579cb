[package]
name = "druid_garden_os"
version = "0.1.0"
edition = "2021"
publish = false

[dependencies]
semver = "1"
serde = { version = "1", features = ["derive"] }
serde_yaml = "0.9"
serde_json = "1"
tokio = { version = "1", features = ["full"] }
reqwest = { version = "0.12", default-features = false, features = ["json", "rustls-tls"] }
bollard = "*"
time = { version = "0.3", features = ["serde"] }
log = "0.4"
futures-util = "0.3"
