[package]
name = "tclac"
version = "0.1.0"
edition = "2021"
publish = false

[dependencies]
anyhow = "1"
aws-sdk-iotdataplane = "1"
aws-smithy-types = "1"
base64 = "0.22"
chrono = "0.4"
crossterm = "0.28"
directories = "6"
md5 = "0.7"
rand = "0.8"
ratatui = "0.29"
reqwest = { version = "0.12", default-features = false, features = ["json", "gzip", "rustls-tls"] }
serde = { version = "1", features = ["derive"] }
serde_json = "1"
tokio = { version = "1", features = ["full"] }
toml = "0.8"
