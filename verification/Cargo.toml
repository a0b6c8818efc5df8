[package]
name = "hyprland"
version = "0.1.0"
edition = "2021"
publish = false

[dependencies]
serde = { version = "1", features = ["derive"] }
serde_json = "1"
tokio = { version = "1", default-features = false, features = ["net", "io-util"] }
async-net = "2"
futures-lite = "2"
