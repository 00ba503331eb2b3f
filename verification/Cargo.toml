[package]
name = "swarmhost_core"
version = "0.1.0"
edition = "2021"
publish = false

[dependencies]
blake2 = "0.10"
ed25519-dalek = "2"
rand = "0.8"
serde = { version = "1", features = ["derive"] }
thiserror = "1"
tokio = { version = "1", default-features = false, features = ["sync"] }
tracing = "0.1"
tracing-subscriber = { version = "0.3", features = ["env-filter"] }
