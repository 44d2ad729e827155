[package]
name = "typestate_rust"
version = "0.1.0"
edition = "2021"
publish = false

[dependencies]
eyre = "0.6"
rand = "0.8"
serde = { version = "1", features = ["derive"] }
serde_json = "1"
time = "0.2"
