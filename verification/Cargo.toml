[package]
name = "clomonitor_core"
version = "0.1.0"
edition = "2021"
publish = false

[dependencies]
regex = "1"
time = { version = "0.3", features = ["parsing", "formatting", "macros"] }
serde = { version = "1", features = ["derive"] }
serde_json = "1"
serde_yaml = "*"
glob = "0.3"
anyhow = "1"
askalono = "*"
reqwest = { version = "*", default-features = false, features = ["rustls-tls", "json"] }
tokio = { version = "1", features = ["rt", "macros", "process", "time", "sync"] }
git2 = { version = "*", default-features = false }
