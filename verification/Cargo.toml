[package]
name = "verification_service"
version = "0.1.0"
edition = "2021"
publish = false

[dependencies]
serde_json = "=1.0.151"
serde_json_path = "=0.7.2"
ssi-jws = "=0.5.0"
ssi-dids-core = "=0.3.1"
url = "=2.5.8"
serde = { version = "*", features = ["derive"] }
tokio = { version = "*", features = ["rt", "rt-multi-thread", "macros"] }
thiserror = "*"
