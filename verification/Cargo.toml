[package]
name = "vbranch_core"
version = "0.1.0"
edition = "2021"
publish = false

[dependencies]
anyhow = "1"
futures = "0.3"
git2 = { version = "0.18", default-features = false }
governor = "0.6"
log = "0.4"
serde = { version = "1", features = ["derive"] }
serde_json = "1"
thiserror = "1"
tokio = { version = "1", features = ["sync", "rt", "macros", "time"] }

[dev-dependencies]
tempfile = "3"
