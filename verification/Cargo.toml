[package]
name = "cargo_runner_core"
version = "0.1.0"
edition = "2021"
publish = false

[dependencies]
serde = { version = "1", features = ["derive"] }
serde_json = "1"
toml = "*"
anyhow = "1"
thiserror = "*"
tracing = "0.1"
dirs = "*"
cargo_toml = "*"
reqwest = { version = "*", default-features = false, features = ["blocking"] }
