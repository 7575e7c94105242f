[package]
name = "detrix_testing"
version = "0.1.0"
edition = "2021"
publish = false

[dependencies]
serde_json = "1"
serde = { version = "1", features = ["derive"] }
toon-format = "*"
chrono = "0.4"
base64 = "0.22"
rsa = { version = "0.9", features = ["pem"] }
rand = "0.8"
jsonwebtoken = "9"
axum = "0.7"
tokio = { version = "1", features = ["full"] }
tokio-tungstenite = "0.24"
futures = "0.3"
reqwest = { version = "0.12", default-features = false, features = ["json"] }
nix = { version = "0.29", features = ["signal", "process"] }
fs2 = "0.4"
sysinfo = "0.32"
tempfile = "3"
dirs = "5"
async-trait = "0.1"
tracing = "0.1"
