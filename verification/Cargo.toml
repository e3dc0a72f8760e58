[package]
name = "ssh_engine"
version = "0.1.0"
edition = "2021"
publish = false

[dependencies]
anyhow = "1"
async-trait = "0.1"
base64 = "0.22"
chrono = { version = "0.4", default-features = false, features = ["std", "clock"] }
crossbeam-channel = "0.5"
dirs = "5"
futures = "0.3"
parking_lot = "0.12"
portable-pty = "0.8"
russh = "0.45"
russh-keys = "0.45"
russh-sftp = "2.0"
serde = { version = "1", features = ["derive"] }
serde_json = "1"
ssh2 = "0.9"
tokio = { version = "1", features = ["rt-multi-thread", "sync", "time", "net", "fs", "io-util", "macros"] }
uuid = { version = "1", features = ["v4"] }
