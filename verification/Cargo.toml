[package]
name = "raft_serde"
version = "0.1.0"
edition = "2021"
publish = false

[dependencies]
protobuf = "2"
serde = { version = "1", features = ["derive"] }
slog = "2"
