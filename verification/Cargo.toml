[package]
name = "atlas_client"
version = "0.1.0"
edition = "2021"
publish = false

[dependencies]
anyhow = "1"
serde = { version = "1", features = ["derive"] }
serde_json = { version = "1", features = ["preserve_order"] }
thiserror = "1"
time = { version = "0.3", features = ["serde-human-readable"] }
url = { version = "2", features = ["serde"] }
which = "*"
