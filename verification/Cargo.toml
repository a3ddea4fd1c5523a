[package]
name = "phase1_verifier"
version = "0.1.0"
edition = "2021"
publish = false

[dependencies]
reqwest = { version = "*", default-features = false }
tokio = { version = "1", default-features = false, features = ["rt", "macros"] }
tracing = "*"

[dev-dependencies]
serde_json = "*"
