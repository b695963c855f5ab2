[package]
name = "zkpo"
version = "0.1.0"
edition = "2021"
publish = false

[dependencies]
anyhow = "1"
bincode = "1"
risc0-zkvm = { version = "2", default-features = false, features = ["client"] }
serde = { version = "1", features = ["derive"] }
