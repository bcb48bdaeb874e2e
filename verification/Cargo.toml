[package]
name = "sproot"
version = "0.1.0"
edition = "2021"
publish = false

[dependencies]
serde = { version = "*", features = ["derive"] }
chrono = { version = "*", features = ["serde"] }
uuid = { version = "*", features = ["serde"] }
