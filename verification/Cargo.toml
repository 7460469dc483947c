[package]
name = "tikeo"
version = "0.1.0"
edition = "2021"
publish = false

[dependencies]
sha2 = "0.10"
raft = "0.7"
serde = { version = "1", features = ["derive"] }
serde_json = "1"
axum = "0.8"
sea-orm = { version = "1", default-features = false, features = ["macros"] }
thiserror = "2"
time = { version = "0.3", features = ["formatting"] }
