[package]
name = "agent_runtime"
version = "0.1.0"
edition = "2021"
publish = false

[dependencies]
portable-pty = "*"
chrono = "*"
dirs = "*"
uuid = { version = "*", features = ["v4"] }
serde = { version = "*", features = ["derive"] }
serde_json = "*"
axum = "*"
tokio = { version = "*", features = ["full"] }
tokio-stream = "*"
reqwest = { version = "*", default-features = false, features = ["rustls-tls"] }
flate2 = "*"
bzip2 = "*"
tar = "*"
zip = "*"
