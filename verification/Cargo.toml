[package]
name = "iaiken"
version = "0.1.0"
edition = "2021"
publish = false

[dependencies]
hmac = "=0.12.1"
sha2 = "=0.10.9"
hex = "=0.4.3"
serde = { version = "1", features = ["derive"] }
serde_json = "=1.0.154"
uuid = { version = "=1.29.0", features = ["v4"] }
chrono = "=0.4.45"
anyhow = "1"
bytes = "1"
tokio = { version = "1", features = ["full"] }
tokio-util = "0.7"
zeromq = "=0.6.0"
clap = { version = "4", features = ["derive"] }
dirs = "*"
miette = { version = "7", features = ["fancy"] }
rustyline = "*"
tempfile = "3"
thiserror = "2"
