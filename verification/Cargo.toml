[package]
name = "component_metadata"
version = "0.1.0"
edition = "2021"
publish = false

[dependencies]
semver = "1"
warg-protocol = "*"
wit-parser = "*"
serde = { version = "1", features = ["derive"] }
serde_json = "1"
cargo_metadata = "*"
url = { version = "2", features = ["serde"] }
anyhow = "1"
log = "0.4"
